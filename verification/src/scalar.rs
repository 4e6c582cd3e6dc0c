//! The numbers that the algebra computes with.
//!
//! Vectors, matrices, quaternions and the integrator are written once, over any
//! type that offers the operations of [`Scalar`]. Every operation is a function
//! of its operands, and the contracts of the algebra say which operations are
//! applied to which operands, in which order. They do not say that an operation
//! is carried out without rounding: that is the further promise of [`Exact`],
//! under which the laws of the algebra are proved.

use vstd::prelude::*;

verus! {

/// A number with the arithmetic that rigid-body motion needs.
///
/// Each operation comes twice: as a specification function that names its
/// result, and as the executable method that computes it. A number type
/// defined in unverified code gives the two the same body.
pub trait Scalar: Sized + Copy {
    /// The scalar that stands for the integer `n`.
    spec fn of_int(n: i64) -> Self;

    /// `self + rhs`.
    spec fn sum(self, rhs: Self) -> Self;

    /// `self - rhs`.
    spec fn difference(self, rhs: Self) -> Self;

    /// `self * rhs`.
    spec fn product(self, rhs: Self) -> Self;

    /// `self / rhs`.
    spec fn quotient(self, rhs: Self) -> Self;

    /// `-self`.
    spec fn negation(self) -> Self;

    /// The non-negative square root of `self`.
    spec fn square_root(self) -> Self;

    /// The sine of the angle `self`, in radians.
    spec fn sine(self) -> Self;

    /// The cosine of the angle `self`, in radians.
    spec fn cosine(self) -> Self;

    /// The absolute value of `self`.
    spec fn absolute(self) -> Self;

    /// Whether `self` is greater than `rhs`.
    spec fn exceeds(self, rhs: Self) -> bool;

    /// The tolerance of the type: a determinant whose absolute value does not
    /// exceed it counts as zero.
    spec fn tolerance() -> Self;

    /// Makes the scalar that stands for `n`.
    fn from_int(n: i64) -> (r: Self)
        ensures
            r == Self::of_int(n),
    ;

    /// Computes `self + rhs`.
    fn plus(self, rhs: Self) -> (r: Self)
        ensures
            r == self.sum(rhs),
    ;

    /// Computes `self - rhs`.
    fn minus(self, rhs: Self) -> (r: Self)
        ensures
            r == self.difference(rhs),
    ;

    /// Computes `self * rhs`.
    fn times(self, rhs: Self) -> (r: Self)
        ensures
            r == self.product(rhs),
    ;

    /// Computes `self / rhs`.
    fn over(self, rhs: Self) -> (r: Self)
        ensures
            r == self.quotient(rhs),
    ;

    /// Computes `-self`.
    fn negated(self) -> (r: Self)
        ensures
            r == self.negation(),
    ;

    /// Computes the square root.
    fn sqrt(self) -> (r: Self)
        ensures
            r == self.square_root(),
    ;

    /// Computes the sine.
    fn sin(self) -> (r: Self)
        ensures
            r == self.sine(),
    ;

    /// Computes the cosine.
    fn cos(self) -> (r: Self)
        ensures
            r == self.cosine(),
    ;

    /// Computes the absolute value.
    fn abs(self) -> (r: Self)
        ensures
            r == self.absolute(),
    ;

    /// Tells whether `self` is greater than `rhs`.
    fn gt(self, rhs: Self) -> (r: bool)
        ensures
            r == self.exceeds(rhs),
    ;

    /// Gives the tolerance of the type.
    fn epsilon() -> (r: Self)
        ensures
            r == Self::tolerance(),
    ;
}

/// The square of a scalar.
pub open spec fn spec_sq<S: Scalar>(v: S) -> S {
    v.product(v)
}

/// Multiplies a scalar by itself.
pub fn sq<S: Scalar>(v: S) -> (r: S)
    ensures
        r == spec_sq(v),
{
    v.times(v)
}

} // verus!
