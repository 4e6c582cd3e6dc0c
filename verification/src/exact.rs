//! Scalars that compute without rounding.
//!
//! An exact scalar either carries a real number, its value, or has lost track
//! of it. Whenever the result of an operation still carries a value, so did
//! the operands, and the value is the one that arithmetic on the real numbers
//! gives. The laws of the algebra are proved for such scalars.

use crate::quaternion::Quaternion;
use crate::scalar::Scalar;
use crate::vector::Vector;
use vstd::prelude::*;

verus! {

/// A scalar whose operations are those of the real numbers wherever their
/// result is marked as exact. Nothing is asked of the sine and the cosine:
/// no law needs them.
pub trait Exact: Scalar {
    /// Whether the scalar carries the value of the computation that made it.
    spec fn exact(self) -> bool;

    /// The real number that an exact scalar carries.
    spec fn value(self) -> real;

    /// An exact scalar made from an integer carries that integer.
    proof fn lemma_of_int(n: i64)
        ensures
            Self::of_int(n).exact() ==> Self::of_int(n).value() == n as real,
    ;

    /// An exact sum is the sum of the values.
    proof fn lemma_sum(a: Self, b: Self)
        ensures
            a.sum(b).exact() ==> a.exact() && b.exact() && a.sum(b).value() == a.value()
                + b.value(),
    ;

    /// An exact difference is the difference of the values.
    proof fn lemma_difference(a: Self, b: Self)
        ensures
            a.difference(b).exact() ==> a.exact() && b.exact() && a.difference(b).value()
                == a.value() - b.value(),
    ;

    /// An exact product is the product of the values.
    proof fn lemma_product(a: Self, b: Self)
        ensures
            a.product(b).exact() ==> a.exact() && b.exact() && a.product(b).value() == a.value()
                * b.value(),
    ;

    /// An exact quotient is the one number that, times the divisor, gives the
    /// dividend; the divisor is then not zero.
    proof fn lemma_quotient(a: Self, b: Self)
        ensures
            a.quotient(b).exact() ==> a.exact() && b.exact() && b.value() != 0real && a.quotient(
                b,
            ).value() * b.value() == a.value(),
    ;

    /// An exact negation is the value negated.
    proof fn lemma_negation(a: Self)
        ensures
            a.negation().exact() ==> a.exact() && a.negation().value() == -a.value(),
    ;

    /// An exact square root is not negative, and its square is the operand.
    proof fn lemma_square_root(a: Self)
        ensures
            a.square_root().exact() ==> a.exact() && a.square_root().value() >= 0real
                && a.square_root().value() * a.square_root().value() == a.value(),
    ;

    /// An exact absolute value is the absolute value of the operand.
    proof fn lemma_absolute(a: Self)
        ensures
            a.absolute().exact() ==> a.exact() && a.absolute().value() == (if a.value() >= 0real {
                a.value()
            } else {
                -a.value()
            }),
    ;

    /// Exact scalars compare as their values do.
    proof fn lemma_exceeds(a: Self, b: Self)
        ensures
            a.exact() && b.exact() ==> (a.exceeds(b) <==> a.value() > b.value()),
    ;

    /// An exact tolerance is not negative.
    proof fn lemma_tolerance()
        ensures
            Self::tolerance().exact() ==> Self::tolerance().value() >= 0real,
    ;
}

/// [`Exact::lemma_of_int`], for every term `of_int(n)` that occurs.
pub broadcast proof fn of_int_value<S: Exact>(n: i64)
    ensures
        (#[trigger] S::of_int(n)).exact() ==> S::of_int(n).value() == n as real,
{
    S::lemma_of_int(n);
}

/// [`Exact::lemma_sum`], for every sum that occurs.
pub broadcast proof fn sum_value<S: Exact>(a: S, b: S)
    ensures
        (#[trigger] a.sum(b)).exact() ==> a.exact() && b.exact() && a.sum(b).value() == a.value()
            + b.value(),
{
    S::lemma_sum(a, b);
}

/// [`Exact::lemma_difference`], for every difference that occurs.
pub broadcast proof fn difference_value<S: Exact>(a: S, b: S)
    ensures
        (#[trigger] a.difference(b)).exact() ==> a.exact() && b.exact() && a.difference(
            b,
        ).value() == a.value() - b.value(),
{
    S::lemma_difference(a, b);
}

/// [`Exact::lemma_product`], for every product that occurs.
pub broadcast proof fn product_value<S: Exact>(a: S, b: S)
    ensures
        (#[trigger] a.product(b)).exact() ==> a.exact() && b.exact() && a.product(b).value()
            == a.value() * b.value(),
{
    S::lemma_product(a, b);
}

/// [`Exact::lemma_quotient`], for every quotient that occurs.
pub broadcast proof fn quotient_value<S: Exact>(a: S, b: S)
    ensures
        (#[trigger] a.quotient(b)).exact() ==> a.exact() && b.exact() && b.value() != 0real
            && a.quotient(b).value() * b.value() == a.value(),
{
    S::lemma_quotient(a, b);
}

/// [`Exact::lemma_negation`], for every negation that occurs.
pub broadcast proof fn negation_value<S: Exact>(a: S)
    ensures
        (#[trigger] a.negation()).exact() ==> a.exact() && a.negation().value() == -a.value(),
{
    S::lemma_negation(a);
}

/// [`Exact::lemma_square_root`], for every square root that occurs.
pub broadcast proof fn square_root_value<S: Exact>(a: S)
    ensures
        (#[trigger] a.square_root()).exact() ==> a.exact() && a.square_root().value() >= 0real
            && a.square_root().value() * a.square_root().value() == a.value(),
{
    S::lemma_square_root(a);
}

/// What the operations of an exact scalar give, for every term that occurs.
pub broadcast group group_exact {
    of_int_value,
    sum_value,
    difference_value,
    product_value,
    quotient_value,
    negation_value,
    square_root_value,
}

/// The three coordinates of a vector, as real numbers.
pub ghost struct VectorValue {
    pub x: real,
    pub y: real,
    pub z: real,
}

/// The four coordinates of a quaternion, as real numbers.
pub ghost struct QuaternionValue {
    pub x: real,
    pub y: real,
    pub z: real,
    pub w: real,
}

impl<S: Exact> Vector<S> {
    /// Whether all three coordinates are exact.
    pub open spec fn exact(self) -> bool {
        self.x.exact() && self.y.exact() && self.z.exact()
    }

    /// The values of the three coordinates.
    pub open spec fn value(self) -> VectorValue {
        VectorValue { x: self.x.value(), y: self.y.value(), z: self.z.value() }
    }
}

impl<S: Exact> Quaternion<S> {
    /// Whether all four coordinates are exact.
    pub open spec fn exact(self) -> bool {
        self.v.exact() && self.w.exact()
    }

    /// The values of the four coordinates.
    pub open spec fn value(self) -> QuaternionValue {
        QuaternionValue {
            x: self.v.x.value(),
            y: self.v.y.value(),
            z: self.v.z.value(),
            w: self.w.value(),
        }
    }
}

/// Whether all nine entries are exact.
pub open spec fn all_exact<S: Exact>(m: Seq<S>) -> bool {
    forall|k: int| 0 <= k < 9 ==> (#[trigger] m[k]).exact()
}

/// The values of the nine entries.
pub open spec fn values<S: Exact>(m: Seq<S>) -> Seq<real> {
    Seq::new(9, |k: int| m[k].value())
}

} // verus!
