//! Scalar values: the numeric representations the primitives work on,
//! each described by the mathematical integer it stands for.
use vstd::arithmetic::power::pow;
use vstd::prelude::*;

verus! {

/// Whether the integer `v` can be held by the representation `T`.
pub open spec fn fits<T: Scalar>(v: int) -> bool {
    T::lowest() <= v <= T::highest()
}

/// Sign of an integer, with zero counted as positive.
pub open spec fn sign_of(v: int) -> int {
    if v < 0 {
        -1
    } else {
        1
    }
}

/// Magnitude of an integer.
pub open spec fn abs_of(v: int) -> int {
    if v < 0 {
        -v
    } else {
        v
    }
}

/// Quotient rounded toward zero, as integer division does.
pub open spec fn trunc_div(a: int, b: int) -> int {
    let q = abs_of(a) / abs_of(b);
    if (a < 0) == (b < 0) {
        q
    } else {
        -q
    }
}

/// Remainder of division rounded toward zero: it carries the sign of the dividend.
pub open spec fn trunc_rem(a: int, b: int) -> int {
    let r = abs_of(a) % abs_of(b);
    if a < 0 {
        -r
    } else {
        r
    }
}

proof fn lemma_rem_of_zero_or_unit(a: int, b: int)
    requires
        b != 0,
    ensures
        a == 0 ==> trunc_rem(a, b) == 0,
        abs_of(b) == 1 ==> trunc_rem(a, b) == 0,
{
    if a == 0 {
        assert(0int % abs_of(b) == 0) by (nonlinear_arith)
            requires
                abs_of(b) > 0,
        ;
    }
    if abs_of(b) == 1 {
        assert(abs_of(a) % 1 == 0) by (nonlinear_arith);
    }
}

/// A numeric representation with the operators the primitives need.
/// Every value stands for the integer `value()`, within `lowest()..=highest()`.
pub trait Scalar: Copy + Sized {
    spec fn value(self) -> int;

    spec fn lowest() -> int;

    spec fn highest() -> int;

    proof fn lemma_range(self)
        ensures
            Self::lowest() <= self.value() <= Self::highest(),
            Self::lowest() <= -128,
            127 <= Self::highest(),
    ;

    /// The value of a small signed constant.
    fn from_i8(v: i8) -> (r: Self)
        ensures
            r.value() == v as int,
    ;

    /// The default value of the representation, which is zero.
    fn zero() -> (r: Self)
        ensures
            r.value() == 0,
    ;

    fn less_than(self, other: Self) -> (r: bool)
        ensures
            r == (self.value() < other.value()),
    ;

    fn equals(self, other: Self) -> (r: bool)
        ensures
            r == (self.value() == other.value()),
    ;

    fn plus(self, other: Self) -> (r: Self)
        requires
            Self::lowest() <= self.value() + other.value() <= Self::highest(),
        ensures
            r.value() == self.value() + other.value(),
    ;

    fn minus(self, other: Self) -> (r: Self)
        requires
            Self::lowest() <= self.value() - other.value() <= Self::highest(),
        ensures
            r.value() == self.value() - other.value(),
    ;

    fn times(self, other: Self) -> (r: Self)
        requires
            Self::lowest() <= self.value() * other.value() <= Self::highest(),
        ensures
            r.value() == self.value() * other.value(),
    ;

    fn negated(self) -> (r: Self)
        requires
            Self::lowest() <= -self.value() <= Self::highest(),
        ensures
            r.value() == -self.value(),
    ;

    fn quotient(self, divisor: Self) -> (r: Self)
        requires
            divisor.value() != 0,
            Self::lowest() <= trunc_div(self.value(), divisor.value()) <= Self::highest(),
        ensures
            r.value() == trunc_div(self.value(), divisor.value()),
    ;

    fn remainder(self, divisor: Self) -> (r: Self)
        requires
            divisor.value() != 0,
        ensures
            r.value() == trunc_rem(self.value(), divisor.value()),
    ;

    /// A non-negative value as an exponent.
    fn as_exponent(self) -> (r: u32)
        requires
            0 <= self.value() <= 0xffff_ffff,
        ensures
            r as int == self.value(),
    ;

    /// `self` raised to the power `exponent`.
    fn raised(self, exponent: u32) -> (r: Self)
        requires
            Self::lowest() <= pow(self.value(), exponent as nat) <= Self::highest(),
        ensures
            r.value() == pow(self.value(), exponent as nat),
    ;

    /// Largest integral value not above `self`.
    fn round_down(self) -> (r: Self)
        ensures
            r.value() == self.value(),
    ;

    /// Smallest integral value not below `self`.
    fn round_up(self) -> (r: Self)
        ensures
            r.value() == self.value(),
    ;

    /// A value drawn uniformly from `lo..hi`.
    fn draw(lo: Self, hi: Self) -> (r: Self)
        requires
            lo.value() < hi.value(),
        ensures
            lo.value() <= r.value() < hi.value(),
    ;
}

/// Relies on euclid's `Floor` for `i32`, which returns the integer unchanged.
#[verifier::external_body]
fn euclid_floor_i32(x: i32) -> (r: i32)
    ensures
        r == x,
{
    euclid::num::Floor::floor(x)
}

/// Relies on euclid's `Ceil` for `i32`, which returns the integer unchanged.
#[verifier::external_body]
fn euclid_ceil_i32(x: i32) -> (r: i32)
    ensures
        r == x,
{
    euclid::num::Ceil::ceil(x)
}

/// Relies on euclid's `Floor` for `i64`, which returns the integer unchanged.
#[verifier::external_body]
fn euclid_floor_i64(x: i64) -> (r: i64)
    ensures
        r == x,
{
    euclid::num::Floor::floor(x)
}

/// Relies on euclid's `Ceil` for `i64`, which returns the integer unchanged.
#[verifier::external_body]
fn euclid_ceil_i64(x: i64) -> (r: i64)
    ensures
        r == x,
{
    euclid::num::Ceil::ceil(x)
}

/// Relies on num-traits' `Pow<u32>` for `i32`, which calls `i32::pow`: the
/// power, which must be representable (it panics or wraps otherwise).
pub assume_specification[ <i32 as num_traits::pow::Pow<u32>>::pow ](x: i32, rhs: u32) -> (r: i32)
    requires
        i32::MIN <= pow(x as int, rhs as nat) <= i32::MAX,
    ensures
        r == pow(x as int, rhs as nat),
;

/// Relies on num-traits' `Pow<u32>` for `i64`, which calls `i64::pow`: the
/// power, which must be representable (it panics or wraps otherwise).
pub assume_specification[ <i64 as num_traits::pow::Pow<u32>>::pow ](x: i64, rhs: u32) -> (r: i64)
    requires
        i64::MIN <= pow(x as int, rhs as nat) <= i64::MAX,
    ensures
        r == pow(x as int, rhs as nat),
;

/// Relies on rand's `Rng::gen_range` on the thread-local generator: for
/// `low < high` it returns some `i32` in `low..high` (it panics otherwise).
#[verifier::external_body]
fn uniform_i32(low: i32, high: i32) -> (r: i32)
    requires
        low < high,
    ensures
        low <= r < high,
{
    rand::Rng::gen_range(&mut rand::thread_rng(), low, high)
}

/// Relies on rand's `Rng::gen_range` on the thread-local generator: for
/// `low < high` it returns some `i64` in `low..high` (it panics otherwise).
#[verifier::external_body]
fn uniform_i64(low: i64, high: i64) -> (r: i64)
    requires
        low < high,
    ensures
        low <= r < high,
{
    rand::Rng::gen_range(&mut rand::thread_rng(), low, high)
}

impl Scalar for i32 {
    open spec fn value(self) -> int {
        self as int
    }

    open spec fn lowest() -> int {
        -0x8000_0000
    }

    open spec fn highest() -> int {
        0x7fff_ffff
    }

    proof fn lemma_range(self) {
    }

    fn from_i8(v: i8) -> (r: Self) {
        v as i32
    }

    fn zero() -> (r: Self) {
        0
    }

    fn less_than(self, other: Self) -> (r: bool) {
        self < other
    }

    fn equals(self, other: Self) -> (r: bool) {
        self == other
    }

    fn plus(self, other: Self) -> (r: Self) {
        self + other
    }

    fn minus(self, other: Self) -> (r: Self) {
        self - other
    }

    fn times(self, other: Self) -> (r: Self) {
        self * other
    }

    fn negated(self) -> (r: Self) {
        -self
    }

    fn quotient(self, divisor: Self) -> (r: Self) {
        match self.checked_div(divisor) {
            Some(q) => q,
            None => 0,
        }
    }

    fn remainder(self, divisor: Self) -> (r: Self) {
        proof {
            lemma_rem_of_zero_or_unit(self as int, divisor as int);
        }
        match self.checked_rem(divisor) {
            Some(q) => q,
            None => 0,
        }
    }

    fn as_exponent(self) -> (r: u32) {
        self as u32
    }

    fn raised(self, exponent: u32) -> (r: Self) {
        num_traits::pow::Pow::pow(self, exponent)
    }

    fn round_down(self) -> (r: Self) {
        euclid_floor_i32(self)
    }

    fn round_up(self) -> (r: Self) {
        euclid_ceil_i32(self)
    }

    fn draw(lo: Self, hi: Self) -> (r: Self) {
        uniform_i32(lo, hi)
    }
}

impl Scalar for i64 {
    open spec fn value(self) -> int {
        self as int
    }

    open spec fn lowest() -> int {
        -0x8000_0000_0000_0000
    }

    open spec fn highest() -> int {
        0x7fff_ffff_ffff_ffff
    }

    proof fn lemma_range(self) {
    }

    fn from_i8(v: i8) -> (r: Self) {
        v as i64
    }

    fn zero() -> (r: Self) {
        0
    }

    fn less_than(self, other: Self) -> (r: bool) {
        self < other
    }

    fn equals(self, other: Self) -> (r: bool) {
        self == other
    }

    fn plus(self, other: Self) -> (r: Self) {
        self + other
    }

    fn minus(self, other: Self) -> (r: Self) {
        self - other
    }

    fn times(self, other: Self) -> (r: Self) {
        self * other
    }

    fn negated(self) -> (r: Self) {
        -self
    }

    fn quotient(self, divisor: Self) -> (r: Self) {
        match self.checked_div(divisor) {
            Some(q) => q,
            None => 0,
        }
    }

    fn remainder(self, divisor: Self) -> (r: Self) {
        proof {
            lemma_rem_of_zero_or_unit(self as int, divisor as int);
        }
        match self.checked_rem(divisor) {
            Some(q) => q,
            None => 0,
        }
    }

    fn as_exponent(self) -> (r: u32) {
        self as u32
    }

    fn raised(self, exponent: u32) -> (r: Self) {
        num_traits::pow::Pow::pow(self, exponent)
    }

    fn round_down(self) -> (r: Self) {
        euclid_floor_i64(self)
    }

    fn round_up(self) -> (r: Self) {
        euclid_ceil_i64(self)
    }

    fn draw(lo: Self, hi: Self) -> (r: Self) {
        uniform_i64(lo, hi)
    }
}

} // verus!
