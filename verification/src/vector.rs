//! Vectors of three-dimensional space.

use crate::scalar::Scalar;
use vstd::prelude::*;

verus! {

/// A vector of three coordinates.
#[derive(Clone, Copy, Debug)]
pub struct Vector<S: Scalar> {
    pub x: S,
    pub y: S,
    pub z: S,
}

impl<S: Scalar> Vector<S> {
    /// The dot product `self · other`: the three products, summed from `x` to `z`.
    pub open spec fn spec_dot(self, other: Self) -> S {
        self.x.product(other.x).sum(self.y.product(other.y)).sum(self.z.product(other.z))
    }

    /// The coordinate-wise sum.
    pub open spec fn spec_add(self, rhs: Self) -> Self {
        Vector { x: self.x.sum(rhs.x), y: self.y.sum(rhs.y), z: self.z.sum(rhs.z) }
    }

    /// The vector with every coordinate negated.
    pub open spec fn spec_neg(self) -> Self {
        Vector { x: self.x.negation(), y: self.y.negation(), z: self.z.negation() }
    }

    /// Every coordinate multiplied by `k`.
    pub open spec fn spec_mul(self, k: S) -> Self {
        Vector { x: self.x.product(k), y: self.y.product(k), z: self.z.product(k) }
    }

    /// Every coordinate divided by `k`.
    pub open spec fn spec_div(self, k: S) -> Self {
        Vector { x: self.x.quotient(k), y: self.y.quotient(k), z: self.z.quotient(k) }
    }

    /// The vector whose three coordinates all stand for zero.
    pub open spec fn spec_zero() -> Self {
        Vector { x: S::of_int(0), y: S::of_int(0), z: S::of_int(0) }
    }

    /// The vector of the three given coordinates.
    pub fn new(x: S, y: S, z: S) -> (r: Self)
        ensures
            r == (Vector { x, y, z }),
    {
        Vector { x, y, z }
    }

    /// The zero vector.
    pub fn zero() -> (r: Self)
        ensures
            r == Self::spec_zero(),
    {
        Vector { x: S::from_int(0), y: S::from_int(0), z: S::from_int(0) }
    }

    /// The dot product.
    pub fn dot(&self, other: &Self) -> (r: S)
        ensures
            r == self.spec_dot(*other),
    {
        self.x.times(other.x).plus(self.y.times(other.y)).plus(self.z.times(other.z))
    }

    /// The sum of two vectors.
    pub fn add(&self, rhs: &Self) -> (r: Self)
        ensures
            r == self.spec_add(*rhs),
    {
        Vector { x: self.x.plus(rhs.x), y: self.y.plus(rhs.y), z: self.z.plus(rhs.z) }
    }

    /// The vector negated.
    pub fn neg(&self) -> (r: Self)
        ensures
            r == self.spec_neg(),
    {
        Vector { x: self.x.negated(), y: self.y.negated(), z: self.z.negated() }
    }

    /// Scales the vector by `k`.
    pub fn mul(&self, k: S) -> (r: Self)
        ensures
            r == self.spec_mul(k),
    {
        Vector { x: self.x.times(k), y: self.y.times(k), z: self.z.times(k) }
    }

    /// Divides the vector by `k`. What a zero divisor gives is the scalar
    /// type's affair: no guard stands here.
    pub fn div(&self, k: S) -> (r: Self)
        ensures
            r == self.spec_div(k),
    {
        Vector { x: self.x.over(k), y: self.y.over(k), z: self.z.over(k) }
    }
}

} // verus!
