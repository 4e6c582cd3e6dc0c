//! Quaternions `w + v`, in Hamilton's convention.

use crate::matrix::Matrix;
use crate::scalar::{spec_sq, sq, Scalar};
use crate::vector::Vector;
use vstd::prelude::*;

verus! {

/// A quaternion: a vector part and a scalar part.
///
/// It serves as an orientation, then of unit norm; as a sum or a rate during
/// integration, then of any norm; and with `w` zero to carry a vector into the
/// quaternion product.
#[derive(Clone, Copy, Debug)]
pub struct Quaternion<S: Scalar> {
    pub v: Vector<S>,
    pub w: S,
}

/// `2 a b`, with the factor two multiplied in first.
pub open spec fn twice_product<S: Scalar>(a: S, b: S) -> S {
    S::of_int(2).product(a).product(b)
}

/// `1 - 2 a^2 - 2 b^2`, subtracted from left to right.
pub open spec fn one_less_squares<S: Scalar>(a: S, b: S) -> S {
    S::of_int(1).difference(S::of_int(2).product(spec_sq(a))).difference(
        S::of_int(2).product(spec_sq(b)),
    )
}

fn twice<S: Scalar>(a: S, b: S) -> (r: S)
    ensures
        r == twice_product(a, b),
{
    S::from_int(2).times(a).times(b)
}

fn diagonal<S: Scalar>(a: S, b: S) -> (r: S)
    ensures
        r == one_less_squares(a, b),
{
    S::from_int(1).minus(S::from_int(2).times(sq(a))).minus(S::from_int(2).times(sq(b)))
}

impl<S: Scalar> Quaternion<S> {
    /// The quaternion of the four given coordinates.
    pub open spec fn spec_coords(x: S, y: S, z: S, w: S) -> Self {
        Quaternion { v: Vector { x, y, z }, w }
    }

    /// The vector `v` as a quaternion: scalar part zero.
    pub open spec fn spec_lift(v: Vector<S>) -> Self {
        Quaternion { v, w: S::of_int(0) }
    }

    /// The rotation by `angle` about the unit vector `axis`: with `phi` half the
    /// angle, the axis times `sin phi`, and `cos phi`.
    pub open spec fn spec_from_rotation(axis: Vector<S>, angle: S) -> Self {
        let phi = angle.quotient(S::of_int(2));
        Quaternion { v: axis.spec_mul(phi.sine()), w: phi.cosine() }
    }

    /// The inner product of two quaternions as vectors of four coordinates.
    pub open spec fn spec_dot(self, other: Self) -> S {
        self.v.spec_dot(other.v).sum(self.w.product(other.w))
    }

    /// The norm: the square root of the inner product with itself.
    pub open spec fn spec_magnitude(self) -> S {
        self.spec_dot(self).square_root()
    }

    /// Every coordinate divided by `k`.
    pub open spec fn spec_div(self, k: S) -> Self {
        Quaternion { v: self.v.spec_div(k), w: self.w.quotient(k) }
    }

    /// Every coordinate multiplied by `k`.
    pub open spec fn spec_scale(self, k: S) -> Self {
        Quaternion { v: self.v.spec_mul(k), w: self.w.product(k) }
    }

    /// The coordinate-wise sum.
    pub open spec fn spec_add(self, rhs: Self) -> Self {
        Quaternion { v: self.v.spec_add(rhs.v), w: self.w.sum(rhs.w) }
    }

    /// Every coordinate negated.
    pub open spec fn spec_neg(self) -> Self {
        Quaternion { v: self.v.spec_neg(), w: self.w.negation() }
    }

    /// The quaternion divided by its norm.
    pub open spec fn spec_normalize(self) -> Self {
        self.spec_div(self.spec_magnitude())
    }

    /// The conjugate: vector part negated, scalar part kept.
    pub open spec fn spec_conj(self) -> Self {
        Quaternion { v: self.v.spec_neg(), w: self.w }
    }

    /// The Hamilton product `self rhs`:
    /// `v = self.w rhs.v + rhs.w self.v + self.v × rhs.v`,
    /// `w = self.w rhs.w - self.v · rhs.v`, each summed from left to right.
    pub open spec fn spec_mul(self, rhs: Self) -> Self {
        Quaternion {
            v: Vector {
                x: self.w.product(rhs.v.x).sum(self.v.x.product(rhs.w)).sum(
                    self.v.y.product(rhs.v.z),
                ).difference(self.v.z.product(rhs.v.y)),
                y: self.w.product(rhs.v.y).sum(self.v.y.product(rhs.w)).sum(
                    self.v.z.product(rhs.v.x),
                ).difference(self.v.x.product(rhs.v.z)),
                z: self.w.product(rhs.v.z).sum(self.v.z.product(rhs.w)).sum(
                    self.v.x.product(rhs.v.y),
                ).difference(self.v.y.product(rhs.v.x)),
            },
            w: self.w.product(rhs.w).difference(self.v.x.product(rhs.v.x)).difference(
                self.v.y.product(rhs.v.y),
            ).difference(self.v.z.product(rhs.v.z)),
        }
    }

    /// The nine entries of the rotation matrix of a unit quaternion, row by row.
    pub open spec fn spec_rotation(self) -> Seq<S> {
        let x = self.v.x;
        let y = self.v.y;
        let z = self.v.z;
        let w = self.w;
        seq![
            one_less_squares(y, z),
            twice_product(x, y).difference(twice_product(w, z)),
            twice_product(x, z).sum(twice_product(w, y)),
            twice_product(x, y).sum(twice_product(w, z)),
            one_less_squares(x, z),
            twice_product(y, z).difference(twice_product(w, x)),
            twice_product(x, z).difference(twice_product(w, y)),
            twice_product(y, z).sum(twice_product(w, x)),
            one_less_squares(x, y),
        ]
    }

    /// The quaternion of the vector part `v` and the scalar part `w`.
    pub fn new(v: Vector<S>, w: S) -> (r: Self)
        ensures
            r == (Quaternion { v, w }),
    {
        Quaternion { v, w }
    }

    /// The quaternion of the four given coordinates, the scalar part last.
    pub fn coords(x: S, y: S, z: S, w: S) -> (r: Self)
        ensures
            r == Self::spec_coords(x, y, z, w),
    {
        Quaternion { v: Vector { x, y, z }, w }
    }

    /// The quaternion with the coordinates of `v` and the scalar part `w`.
    pub fn from_vector_constant(v: &Vector<S>, w: S) -> (r: Self)
        ensures
            r == (Quaternion { v: *v, w }),
    {
        Quaternion { v: *v, w }
    }

    /// Lifts a vector into the quaternions, with scalar part zero.
    pub fn lift(v: &Vector<S>) -> (r: Self)
        ensures
            r == Self::spec_lift(*v),
    {
        Quaternion { v: *v, w: S::from_int(0) }
    }

    /// The rotation by `angle` about `axis`. The axis is taken to be of unit
    /// length; no guard stands here.
    pub fn from_rotation(axis: &Vector<S>, angle: S) -> (r: Self)
        ensures
            r == Self::spec_from_rotation(*axis, angle),
    {
        let phi = angle.over(S::from_int(2));
        Quaternion { v: axis.mul(phi.sin()), w: phi.cos() }
    }

    /// The inner product of the two quaternions as vectors of four coordinates.
    pub fn dot(&self, other: &Self) -> (r: S)
        ensures
            r == self.spec_dot(*other),
    {
        self.v.dot(&other.v).plus(self.w.times(other.w))
    }

    /// The norm.
    pub fn magnitude(&self) -> (r: S)
        ensures
            r == self.spec_magnitude(),
    {
        self.dot(self).sqrt()
    }

    /// Divides by the norm. A quaternion of norm zero is divided by that zero:
    /// no guard stands here.
    pub fn normalize(&self) -> (r: Self)
        ensures
            r == self.spec_normalize(),
    {
        self.div(self.magnitude())
    }

    /// The conjugate, which for a unit quaternion is the inverse rotation.
    pub fn conj(&self) -> (r: Self)
        ensures
            r == self.spec_conj(),
    {
        Quaternion { v: self.v.neg(), w: self.w }
    }

    /// The quaternion with every coordinate negated.
    pub fn neg(&self) -> (r: Self)
        ensures
            r == self.spec_neg(),
    {
        Quaternion { v: self.v.neg(), w: self.w.negated() }
    }

    /// The coordinate-wise sum.
    pub fn add(&self, rhs: &Self) -> (r: Self)
        ensures
            r == self.spec_add(*rhs),
    {
        Quaternion { v: self.v.add(&rhs.v), w: self.w.plus(rhs.w) }
    }

    /// Every coordinate times `k`.
    pub fn scale(&self, k: S) -> (r: Self)
        ensures
            r == self.spec_scale(k),
    {
        Quaternion { v: self.v.mul(k), w: self.w.times(k) }
    }

    /// Every coordinate divided by `k`.
    pub fn div(&self, k: S) -> (r: Self)
        ensures
            r == self.spec_div(k),
    {
        Quaternion { v: self.v.div(k), w: self.w.over(k) }
    }

    /// The Hamilton product `self rhs`. It does not commute.
    pub fn mul(&self, rhs: &Self) -> (r: Self)
        ensures
            r == self.spec_mul(*rhs),
    {
        Quaternion {
            v: Vector {
                x: self.w.times(rhs.v.x).plus(self.v.x.times(rhs.w)).plus(
                    self.v.y.times(rhs.v.z),
                ).minus(self.v.z.times(rhs.v.y)),
                y: self.w.times(rhs.v.y).plus(self.v.y.times(rhs.w)).plus(
                    self.v.z.times(rhs.v.x),
                ).minus(self.v.x.times(rhs.v.z)),
                z: self.w.times(rhs.v.z).plus(self.v.z.times(rhs.w)).plus(
                    self.v.x.times(rhs.v.y),
                ).minus(self.v.y.times(rhs.v.x)),
            },
            w: self.w.times(rhs.w).minus(self.v.x.times(rhs.v.x)).minus(
                self.v.y.times(rhs.v.y),
            ).minus(self.v.z.times(rhs.v.z)),
        }
    }

    /// The rotation matrix of a unit quaternion. The formula takes the norm to
    /// be one and does not normalize.
    pub fn to_rotation_matrix(&self) -> (r: Matrix<S>)
        ensures
            r@ == self.spec_rotation(),
    {
        let x = self.v.x;
        let y = self.v.y;
        let z = self.v.z;
        let w = self.w;
        let elems = [
            diagonal(y, z),
            twice(x, y).minus(twice(w, z)),
            twice(x, z).plus(twice(w, y)),
            twice(x, y).plus(twice(w, z)),
            diagonal(x, z),
            twice(y, z).minus(twice(w, x)),
            twice(x, z).minus(twice(w, y)),
            twice(y, z).plus(twice(w, x)),
            diagonal(x, y),
        ];
        assert(elems@ =~= self.spec_rotation());
        Matrix::new(elems)
    }
}

/// The rotation by `angle` about the unit vector `axis`, as a quaternion.
pub fn rotation_about<S: Scalar>(axis: &Vector<S>, angle: S) -> (r: Quaternion<S>)
    ensures
        r == Quaternion::spec_from_rotation(*axis, angle),
{
    Quaternion::from_rotation(axis, angle)
}

} // verus!
