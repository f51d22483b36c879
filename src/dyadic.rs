//! Dyadic primitives: functions of two scalars, and their elementwise forms.
use vstd::arithmetic::div_mod::lemma_basic_div;
use vstd::arithmetic::power::pow;
use vstd::prelude::*;

use crate::broadcast::{map_n_and_n, map_n_and_one, paired_len};
use crate::monadic::rolled_from;
use crate::scalar::{fits, trunc_div, trunc_rem, Scalar};

verus! {

/// Add: `lhs + rhs`.
pub fn add<T: Scalar>(lhs: T, rhs: T) -> (r: T)
    requires
        fits::<T>(lhs.value() + rhs.value()),
    ensures
        r.value() == lhs.value() + rhs.value(),
{
    lhs.plus(rhs)
}

/// Add over two sequences, pairing elements by position;
/// the result is as long as the shorter operand.
pub fn add_map<T: Scalar>(lhs: Vec<T>, rhs: Vec<T>) -> (r: Vec<T>)
    requires
        forall|i: int|
            0 <= i < paired_len(lhs.len() as nat, rhs.len() as nat)
                ==> fits::<T>(lhs[i].value() + rhs[i].value()),
    ensures
        r.len() == paired_len(lhs.len() as nat, rhs.len() as nat),
        forall|i: int|
            0 <= i < r.len() ==> #[trigger] r[i].value() == lhs[i].value() + rhs[i].value(),
{
    map_n_and_n(lhs, rhs, crate::dyadic::add::<T>)
}

/// Add between every element of `lhs` and the one value `rhs`.
pub fn add_all<T: Scalar>(lhs: Vec<T>, rhs: T) -> (r: Vec<T>)
    requires
        forall|i: int| 0 <= i < lhs.len() ==> fits::<T>(lhs[i].value() + rhs.value()),
    ensures
        r.len() == lhs.len(),
        forall|i: int| 0 <= i < r.len() ==> #[trigger] r[i].value() == lhs[i].value() + rhs.value(),
{
    map_n_and_one(lhs, rhs, crate::dyadic::add::<T>)
}

/// Subtract: `lhs - rhs`.
pub fn subtract<T: Scalar>(lhs: T, rhs: T) -> (r: T)
    requires
        fits::<T>(lhs.value() - rhs.value()),
    ensures
        r.value() == lhs.value() - rhs.value(),
{
    lhs.minus(rhs)
}

/// Subtract over two sequences, pairing elements by position;
/// the result is as long as the shorter operand.
pub fn subtract_map<T: Scalar>(lhs: Vec<T>, rhs: Vec<T>) -> (r: Vec<T>)
    requires
        forall|i: int|
            0 <= i < paired_len(lhs.len() as nat, rhs.len() as nat)
                ==> fits::<T>(lhs[i].value() - rhs[i].value()),
    ensures
        r.len() == paired_len(lhs.len() as nat, rhs.len() as nat),
        forall|i: int|
            0 <= i < r.len() ==> #[trigger] r[i].value() == lhs[i].value() - rhs[i].value(),
{
    map_n_and_n(lhs, rhs, crate::dyadic::subtract::<T>)
}

/// Subtract between every element of `lhs` and the one value `rhs`.
pub fn subtract_all<T: Scalar>(lhs: Vec<T>, rhs: T) -> (r: Vec<T>)
    requires
        forall|i: int| 0 <= i < lhs.len() ==> fits::<T>(lhs[i].value() - rhs.value()),
    ensures
        r.len() == lhs.len(),
        forall|i: int| 0 <= i < r.len() ==> #[trigger] r[i].value() == lhs[i].value() - rhs.value(),
{
    map_n_and_one(lhs, rhs, crate::dyadic::subtract::<T>)
}

/// Multiply: `lhs × rhs`.
pub fn multiply<T: Scalar>(lhs: T, rhs: T) -> (r: T)
    requires
        fits::<T>(lhs.value() * rhs.value()),
    ensures
        r.value() == lhs.value() * rhs.value(),
{
    lhs.times(rhs)
}

/// Multiply over two sequences, pairing elements by position;
/// the result is as long as the shorter operand.
pub fn multiply_map<T: Scalar>(lhs: Vec<T>, rhs: Vec<T>) -> (r: Vec<T>)
    requires
        forall|i: int|
            0 <= i < paired_len(lhs.len() as nat, rhs.len() as nat)
                ==> fits::<T>(lhs[i].value() * rhs[i].value()),
    ensures
        r.len() == paired_len(lhs.len() as nat, rhs.len() as nat),
        forall|i: int|
            0 <= i < r.len() ==> #[trigger] r[i].value() == lhs[i].value() * rhs[i].value(),
{
    map_n_and_n(lhs, rhs, crate::dyadic::multiply::<T>)
}

/// Multiply between every element of `lhs` and the one value `rhs`.
pub fn multiply_all<T: Scalar>(lhs: Vec<T>, rhs: T) -> (r: Vec<T>)
    requires
        forall|i: int| 0 <= i < lhs.len() ==> fits::<T>(lhs[i].value() * rhs.value()),
    ensures
        r.len() == lhs.len(),
        forall|i: int| 0 <= i < r.len() ==> #[trigger] r[i].value() == lhs[i].value() * rhs.value(),
{
    map_n_and_one(lhs, rhs, crate::dyadic::multiply::<T>)
}

/// Divide: `lhs ÷ rhs`, rounded toward zero as integer division is.
pub fn divide<T: Scalar>(lhs: T, rhs: T) -> (r: T)
    requires
        rhs.value() != 0,
        fits::<T>(trunc_div(lhs.value(), rhs.value())),
    ensures
        r.value() == trunc_div(lhs.value(), rhs.value()),
{
    lhs.quotient(rhs)
}

/// Divide over two sequences, pairing elements by position;
/// the result is as long as the shorter operand.
pub fn divide_map<T: Scalar>(lhs: Vec<T>, rhs: Vec<T>) -> (r: Vec<T>)
    requires
        forall|i: int|
            0 <= i < paired_len(lhs.len() as nat, rhs.len() as nat) ==> rhs[i].value() != 0
                && fits::<T>(trunc_div(lhs[i].value(), rhs[i].value())),
    ensures
        r.len() == paired_len(lhs.len() as nat, rhs.len() as nat),
        forall|i: int|
            0 <= i < r.len()
                ==> #[trigger] r[i].value() == trunc_div(lhs[i].value(), rhs[i].value()),
{
    map_n_and_n(lhs, rhs, crate::dyadic::divide::<T>)
}

/// Divide every element of `lhs` by the one value `rhs`.
pub fn divide_all<T: Scalar>(lhs: Vec<T>, rhs: T) -> (r: Vec<T>)
    requires
        rhs.value() != 0,
        forall|i: int| 0 <= i < lhs.len() ==> fits::<T>(trunc_div(lhs[i].value(), rhs.value())),
    ensures
        r.len() == lhs.len(),
        forall|i: int|
            0 <= i < r.len() ==> #[trigger] r[i].value() == trunc_div(lhs[i].value(), rhs.value()),
{
    map_n_and_one(lhs, rhs, crate::dyadic::divide::<T>)
}

/// Residue as this library defines it: the remainder of `a` divided by `b`,
/// carrying the sign of `a`; a zero divisor gives zero.
pub open spec fn residue_of(a: int, b: int) -> int {
    if b == 0 {
        0
    } else {
        trunc_rem(a, b)
    }
}

/// Residue: remainder of `lhs` divided by `rhs`. A zero divisor gives zero
/// rather than a failure.
pub fn residue<T: Scalar>(lhs: T, rhs: T) -> (r: T)
    ensures
        r.value() == residue_of(lhs.value(), rhs.value()),
{
    if rhs.equals(T::zero()) {
        T::zero()
    } else {
        lhs.remainder(rhs)
    }
}

/// Residue over two sequences, pairing elements by position;
/// the result is as long as the shorter operand.
pub fn residue_map<T: Scalar>(lhs: Vec<T>, rhs: Vec<T>) -> (r: Vec<T>)
    ensures
        r.len() == paired_len(lhs.len() as nat, rhs.len() as nat),
        forall|i: int|
            0 <= i < r.len()
                ==> #[trigger] r[i].value() == residue_of(lhs[i].value(), rhs[i].value()),
{
    map_n_and_n(lhs, rhs, crate::dyadic::residue::<T>)
}

/// Residue of every element of `lhs` by the one value `rhs`.
pub fn residue_all<T: Scalar>(lhs: Vec<T>, rhs: T) -> (r: Vec<T>)
    ensures
        r.len() == lhs.len(),
        forall|i: int|
            0 <= i < r.len() ==> #[trigger] r[i].value() == residue_of(lhs[i].value(), rhs.value()),
{
    map_n_and_one(lhs, rhs, crate::dyadic::residue::<T>)
}

/// Whether `x` can serve as an exponent and `y` to that power is representable.
pub open spec fn power_defined<T: Scalar>(y: T, x: T) -> bool {
    &&& 0 <= x.value() <= 0xffff_ffff
    &&& fits::<T>(pow(y.value(), x.value() as nat))
}

/// Power: `y` raised to the non-negative integer power `x`.
pub fn power<T: Scalar>(y: T, x: T) -> (r: T)
    requires
        power_defined(y, x),
    ensures
        r.value() == pow(y.value(), x.value() as nat),
{
    y.raised(x.as_exponent())
}

/// Power over two sequences, pairing elements by position;
/// the result is as long as the shorter operand.
pub fn power_map<T: Scalar>(lhs: Vec<T>, rhs: Vec<T>) -> (r: Vec<T>)
    requires
        forall|i: int|
            0 <= i < paired_len(lhs.len() as nat, rhs.len() as nat)
                ==> power_defined(lhs[i], rhs[i]),
    ensures
        r.len() == paired_len(lhs.len() as nat, rhs.len() as nat),
        forall|i: int|
            0 <= i < r.len()
                ==> #[trigger] r[i].value() == pow(lhs[i].value(), rhs[i].value() as nat),
{
    map_n_and_n(lhs, rhs, crate::dyadic::power::<T>)
}

/// Every element of `lhs` raised to the one power `rhs`.
pub fn power_all<T: Scalar>(lhs: Vec<T>, rhs: T) -> (r: Vec<T>)
    requires
        forall|i: int| 0 <= i < lhs.len() ==> power_defined(lhs[i], rhs),
    ensures
        r.len() == lhs.len(),
        forall|i: int|
            0 <= i < r.len() ==> #[trigger] r[i].value() == pow(lhs[i].value(), rhs.value() as nat),
{
    map_n_and_one(lhs, rhs, crate::dyadic::power::<T>)
}

/// A roll of a positive value, divided by that value, is below one: it is zero.
pub proof fn rolled_share_below_one<T: Scalar>(x: T, v: T)
    requires
        x.value() > 0,
        rolled_from(x.value(), v.value()),
    ensures
        trunc_div(v.value(), x.value()) < 1,
        trunc_div(v.value(), x.value()) == 0,
{
    lemma_basic_div(v.value(), x.value());
}

} // verus!
