//! Monadic primitives: functions of one scalar, and their elementwise forms.
use vstd::prelude::*;

use crate::broadcast::map_each;
use crate::scalar::{abs_of, fits, sign_of, Scalar};

verus! {

/// Sign: minus one below zero, one otherwise (zero counts as positive).
pub fn sign<T: Scalar>(x: T) -> (r: T)
    ensures
        r.value() == sign_of(x.value()),
        r.value() == 1 || r.value() == -1,
        x.value() == 0 ==> r.value() == 1,
{
    if x.less_than(T::zero()) {
        T::from_i8(-1)
    } else {
        T::from_i8(1)
    }
}

/// Sign of every element, in order.
pub fn sign_map<T: Scalar>(items: Vec<T>) -> (r: Vec<T>)
    ensures
        r.len() == items.len(),
        forall|i: int| 0 <= i < r.len() ==> #[trigger] r[i].value() == sign_of(items[i].value()),
{
    map_each(items, crate::monadic::sign::<T>)
}

proof fn lemma_magnitude(v: int)
    ensures
        v * sign_of(v) == abs_of(v),
        abs_of(v) >= 0,
        abs_of(v) == 0 <==> v == 0,
{
}

/// Absolute value, computed as `x × sign(x)`. The magnitude must be
/// representable (it is not for the lowest value of a signed type).
pub fn abs<T: Scalar>(x: T) -> (r: T)
    requires
        fits::<T>(abs_of(x.value())),
    ensures
        r.value() == abs_of(x.value()),
        r.value() >= 0,
{
    let s = sign(x);
    proof {
        lemma_magnitude(x.value());
    }
    x.times(s)
}

/// Floor: the largest integral value not above `x`; an integer is its own floor.
pub fn floor<T: Scalar>(x: T) -> (r: T)
    ensures
        r.value() <= x.value(),
        r.value() == x.value(),
{
    x.round_down()
}

/// Ceiling: the smallest integral value not below `x`; an integer is its own ceiling.
pub fn ceiling<T: Scalar>(x: T) -> (r: T)
    ensures
        x.value() <= r.value(),
        r.value() == x.value(),
{
    x.round_up()
}

/// Identity: `x` unchanged.
pub fn idenity<T: Copy>(x: T) -> (r: T)
    ensures
        r == x,
{
    x
}

/// Negate: the additive inverse of `x`.
pub fn negate<T: Scalar>(x: T) -> (r: T)
    requires
        fits::<T>(-x.value()),
    ensures
        r.value() == -x.value(),
{
    x.negated()
}

/// Not: true exactly when the magnitude of `x` is zero.
pub fn not<T: Scalar>(x: T) -> (r: bool)
    ensures
        r == (abs_of(x.value()) == 0),
        r == (x.value() == 0),
{
    proof {
        lemma_magnitude(x.value());
    }
    x.equals(T::zero())
}

/// Whether `v` lies between zero and `x`, zero included and `x` excluded.
pub open spec fn rolled_from(x: int, v: int) -> bool {
    if x > 0 {
        0 <= v < x
    } else {
        x < v <= 0
    }
}

/// The half-open range a roll of `x` draws from: `0..x` for positive `x`,
/// and `x+1..1` (that is, from just above `x` up to zero) for negative `x`.
pub fn roll_bounds<T: Scalar>(x: T) -> (r: (T, T))
    requires
        x.value() != 0,
    ensures
        x.value() > 0 ==> r.0.value() == 0 && r.1.value() == x.value(),
        x.value() < 0 ==> r.0.value() == x.value() + 1 && r.1.value() == 1,
        forall|v: int| r.0.value() <= v < r.1.value() <==> rolled_from(x.value(), v),
{
    proof {
        x.lemma_range();
    }
    if x.less_than(T::zero()) {
        (x.plus(T::from_i8(1)), T::from_i8(1))
    } else {
        (T::zero(), x)
    }
}

/// Roll: a value drawn uniformly between zero and `x`, zero included and `x`
/// excluded, whichever side of zero `x` lies on.
pub fn roll<T: Scalar>(x: T) -> (r: T)
    requires
        x.value() != 0,
    ensures
        rolled_from(x.value(), r.value()),
{
    let (lo, hi) = roll_bounds(x);
    T::draw(lo, hi)
}

/// Roll every element, in order.
pub fn roll_map<T: Scalar>(items: Vec<T>) -> (r: Vec<T>)
    requires
        forall|i: int| 0 <= i < items.len() ==> items[i].value() != 0,
    ensures
        r.len() == items.len(),
        forall|i: int| 0 <= i < r.len() ==> rolled_from(items[i].value(), #[trigger] r[i].value()),
{
    map_each(items, crate::monadic::roll::<T>)
}

/// The magnitude of a value is never negative, and it is the value times its sign.
pub proof fn abs_is_value_times_sign<T: Scalar>(x: T)
    requires
        fits::<T>(abs_of(x.value())),
    ensures
        abs_of(x.value()) >= 0,
        abs_of(x.value()) == x.value() * sign_of(x.value()),
{
    lemma_magnitude(x.value());
}

} // verus!
