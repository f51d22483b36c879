//! The broadcast engine: applying a scalar function elementwise over sequences.
use vstd::prelude::*;

verus! {

/// Length of a pairwise application: the shorter of the two operands.
pub open spec fn paired_len(a: nat, b: nat) -> nat {
    if a <= b {
        a
    } else {
        b
    }
}

/// Applies `f` to each element of `items`, in order.
pub fn map_each<T: Copy, F: Fn(T) -> T>(items: Vec<T>, f: F) -> (r: Vec<T>)
    requires
        forall|i: int| 0 <= i < items.len() ==> f.requires((items[i],)),
    ensures
        r.len() == items.len(),
        forall|i: int| 0 <= i < items.len() ==> f.ensures((items[i],), #[trigger] r[i]),
{
    let mut r: Vec<T> = Vec::with_capacity(items.len());
    let mut k: usize = 0;
    while k < items.len()
        invariant
            k <= items.len(),
            r.len() == k,
            forall|i: int| 0 <= i < items.len() ==> f.requires((items[i],)),
            forall|i: int| 0 <= i < k ==> f.ensures((items[i],), #[trigger] r[i]),
        decreases items.len() - k,
    {
        let v = f(items[k]);
        r.push(v);
        k = k + 1;
    }
    r
}

/// Pairs the elements of `lhs` and `rhs` by position and applies `f` to each
/// pair. Pairing stops at the end of the shorter operand.
pub fn map_n_and_n<T: Copy, F: Fn(T, T) -> T>(lhs: Vec<T>, rhs: Vec<T>, f: F) -> (r: Vec<T>)
    requires
        forall|i: int|
            0 <= i < paired_len(lhs.len() as nat, rhs.len() as nat) ==> f.requires(
                (lhs[i], rhs[i]),
            ),
    ensures
        r.len() == paired_len(lhs.len() as nat, rhs.len() as nat),
        forall|i: int| 0 <= i < r.len() ==> f.ensures((lhs[i], rhs[i]), #[trigger] r[i]),
{
    let n: usize = if lhs.len() <= rhs.len() {
        lhs.len()
    } else {
        rhs.len()
    };
    let mut r: Vec<T> = Vec::with_capacity(n);
    let mut k: usize = 0;
    while k < n
        invariant
            n == paired_len(lhs.len() as nat, rhs.len() as nat),
            k <= n,
            r.len() == k,
            forall|i: int| 0 <= i < n ==> f.requires((lhs[i], rhs[i])),
            forall|i: int| 0 <= i < k ==> f.ensures((lhs[i], rhs[i]), #[trigger] r[i]),
        decreases n - k,
    {
        let v = f(lhs[k], rhs[k]);
        r.push(v);
        k = k + 1;
    }
    r
}

/// Applies `f` between every element of `lhs` and the one operand `rhs`.
pub fn map_n_and_one<T: Copy, F: Fn(T, T) -> T>(lhs: Vec<T>, rhs: T, f: F) -> (r: Vec<T>)
    requires
        forall|i: int| 0 <= i < lhs.len() ==> f.requires((lhs[i], rhs)),
    ensures
        r.len() == lhs.len(),
        forall|i: int| 0 <= i < r.len() ==> f.ensures((lhs[i], rhs), #[trigger] r[i]),
{
    let mut r: Vec<T> = Vec::with_capacity(lhs.len());
    let mut k: usize = 0;
    while k < lhs.len()
        invariant
            k <= lhs.len(),
            r.len() == k,
            forall|i: int| 0 <= i < lhs.len() ==> f.requires((lhs[i], rhs)),
            forall|i: int| 0 <= i < k ==> f.ensures((lhs[i], rhs), #[trigger] r[i]),
        decreases lhs.len() - k,
    {
        let v = f(lhs[k], rhs);
        r.push(v);
        k = k + 1;
    }
    r
}

} // verus!
