//! The scalar abstraction of the orbit core.
//!
//! Every quantity of the integrator (coordinates, derivatives, tolerances)
//! is a value of a type implementing [`Scalar`]. Each executable operation
//! has a specification-level companion (`spec_plus` for `plus`, and so on)
//! that names the mathematical function the implementation computes; the
//! only contract on an operation is that it equals its own companion, so
//! an implementation fixes the meaning of its arithmetic once and the
//! core's contracts can then state the formulas they compute — the
//! crossing predicate, the arc step, the step control, the equations of
//! motion — over those companions. Nothing in the core constrains what
//! the companions are: the arithmetic itself is supplied by the caller
//! (typically a double-precision type, which Verus cannot reason about
//! directly).

use vstd::prelude::*;

verus! {

/// The scalar number type of the integrator.
///
/// Every operation promises exactly one thing: that it computes its
/// specification companion, i.e. that it is a deterministic function of
/// its arguments. What the core proves holds for every implementation
/// that keeps that promise.
pub trait Scalar: Sized + Copy {
    /// The value `num / den`, at the specification level.
    spec fn spec_from_ratio(num: i64, den: i64) -> Self;

    /// The value `num / den`, rounded however the implementation rounds.
    fn from_ratio(num: i64, den: i64) -> (r: Self)
        requires
            den != 0,
        ensures
            r == Self::spec_from_ratio(num, den),
    ;

    /// The count `n` as a scalar, at the specification level.
    spec fn spec_from_count(n: usize) -> Self;

    /// The number of elements `n` as a scalar.
    fn from_count(n: usize) -> (r: Self)
        ensures
            r == Self::spec_from_count(n),
    ;

    /// The circle constant π, at the specification level.
    spec fn spec_pi() -> Self;

    /// The circle constant π.
    fn pi() -> (r: Self)
        ensures
            r == Self::spec_pi(),
    ;

    /// A NaN value, marking a quantity as not yet computed.
    fn nan() -> Self;

    /// The sum, at the specification level.
    spec fn spec_plus(self, rhs: Self) -> Self;

    /// `self + rhs`.
    fn plus(self, rhs: Self) -> (r: Self)
        ensures
            r == self.spec_plus(rhs),
    ;

    /// The difference, at the specification level.
    spec fn spec_minus(self, rhs: Self) -> Self;

    /// `self - rhs`.
    fn minus(self, rhs: Self) -> (r: Self)
        ensures
            r == self.spec_minus(rhs),
    ;

    /// The product, at the specification level.
    spec fn spec_times(self, rhs: Self) -> Self;

    /// `self * rhs`.
    fn times(self, rhs: Self) -> (r: Self)
        ensures
            r == self.spec_times(rhs),
    ;

    /// The quotient, at the specification level.
    spec fn spec_over(self, rhs: Self) -> Self;

    /// `self / rhs`. Division by zero must yield a value (such as an
    /// infinity or a NaN), never a panic.
    fn over(self, rhs: Self) -> (r: Self)
        ensures
            r == self.spec_over(rhs),
    ;

    /// The negation, at the specification level.
    spec fn spec_neg(self) -> Self;

    /// `-self`.
    fn neg(self) -> (r: Self)
        ensures
            r == self.spec_neg(),
    ;

    /// The absolute value, at the specification level.
    spec fn spec_abs(self) -> Self;

    /// The absolute value.
    fn abs(self) -> (r: Self)
        ensures
            r == self.spec_abs(),
    ;

    /// The sign, at the specification level.
    spec fn spec_signum(self) -> Self;

    /// The sign of `self`: one of `1`, `-1` (or a NaN for a NaN input).
    fn signum(self) -> (r: Self)
        ensures
            r == self.spec_signum(),
    ;

    /// The square root, at the specification level.
    spec fn spec_sqrt(self) -> Self;

    /// The square root; negative arguments must yield a value, never a panic.
    fn sqrt(self) -> (r: Self)
        ensures
            r == self.spec_sqrt(),
    ;

    /// The power, at the specification level.
    spec fn spec_powf(self, exponent: Self) -> Self;

    /// `self` raised to the power `exponent`.
    fn powf(self, exponent: Self) -> (r: Self)
        ensures
            r == self.spec_powf(exponent),
    ;

    /// The sine, at the specification level.
    spec fn spec_sin(self) -> Self;

    /// The sine of `self` (radians).
    fn sin(self) -> (r: Self)
        ensures
            r == self.spec_sin(),
    ;

    /// The cosine, at the specification level.
    spec fn spec_cos(self) -> Self;

    /// The cosine of `self` (radians).
    fn cos(self) -> (r: Self)
        ensures
            r == self.spec_cos(),
    ;

    /// The Euclidean remainder, at the specification level.
    spec fn spec_rem_euclid(self, modulus: Self) -> Self;

    /// The least non-negative remainder of `self` modulo `modulus`.
    fn rem_euclid(self, modulus: Self) -> (r: Self)
        ensures
            r == self.spec_rem_euclid(modulus),
    ;

    /// The maximum, at the specification level.
    spec fn spec_max_with(self, other: Self) -> Self;

    /// The greater of the two values.
    fn max_with(self, other: Self) -> (r: Self)
        ensures
            r == self.spec_max_with(other),
    ;

    /// Whether `self` is a NaN, at the specification level.
    spec fn spec_is_nan(self) -> bool;

    /// Whether `self` is a NaN.
    fn is_nan(self) -> (r: bool)
        ensures
            r == self.spec_is_nan(),
    ;

    /// Whether `self` is finite, at the specification level.
    spec fn spec_is_finite(self) -> bool;

    /// Whether `self` is neither infinite nor a NaN.
    fn is_finite(self) -> (r: bool)
        ensures
            r == self.spec_is_finite(),
    ;

    /// The order `self <= other`, at the specification level.
    spec fn spec_le(self, other: Self) -> bool;

    /// `self <= other`.
    fn le(self, other: Self) -> (r: bool)
        ensures
            r == self.spec_le(other),
    ;

    /// The strict order `self < other`, at the specification level.
    spec fn spec_lt(self, other: Self) -> bool;

    /// `self < other`.
    fn lt(self, other: Self) -> (r: bool)
        ensures
            r == self.spec_lt(other),
    ;

    /// Equality of signs, at the specification level.
    spec fn spec_same_sign(self, other: Self) -> bool;

    /// Whether `self.signum() == other.signum()` exactly.
    fn same_sign(self, other: Self) -> (r: bool)
        ensures
            r == self.spec_same_sign(other),
    ;
}

} // verus!
