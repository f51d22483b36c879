//! Functions that build sequences rather than map over them.
use vstd::prelude::*;

verus! {

/// Reshape: a sequence holding `value` exactly `n` times.
pub fn reshape<T: Copy>(n: usize, value: T) -> (r: Vec<T>)
    ensures
        r@ == Seq::new(n as nat, |_i: int| value),
{
    let mut r: Vec<T> = Vec::with_capacity(n);
    let mut k: usize = 0;
    while k < n
        invariant
            k <= n,
            r@ == Seq::new(k as nat, |_i: int| value),
        decreases n - k,
    {
        r.push(value);
        k = k + 1;
        proof {
            assert(r@ =~= Seq::new(k as nat, |_i: int| value));
        }
    }
    r
}

} // verus!
