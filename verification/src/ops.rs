//! The operators `+`, `-`, `*` and `/` of the algebra, and the conversions by
//! `From`: each is the method of the same meaning.

use crate::matrix::{applied, multiplied, Matrix};
use crate::quaternion::Quaternion;
use crate::scalar::Scalar;
use crate::vector::Vector;
use vstd::prelude::*;

verus! {

/// `&a + &b`: the sum of two vectors.
impl<S: Scalar> core::ops::Add for &Vector<S> {
    type Output = Vector<S>;

    fn add(self, rhs: Self) -> (r: Vector<S>) {
        Vector::add(self, rhs)
    }
}

impl<S: Scalar> vstd::std_specs::ops::AddSpecImpl for &Vector<S> {
    open spec fn obeys_add_spec() -> bool {
        true
    }

    open spec fn add_req(self, rhs: Self) -> bool {
        true
    }

    open spec fn add_spec(self, rhs: Self) -> Vector<S> {
        self.spec_add(*rhs)
    }
}

/// `a + &b`: the sum of two vectors.
impl<S: Scalar> core::ops::Add<&Vector<S>> for Vector<S> {
    type Output = Vector<S>;

    fn add(self, rhs: &Vector<S>) -> (r: Vector<S>) {
        Vector::add(&self, rhs)
    }
}

impl<S: Scalar> vstd::std_specs::ops::AddSpecImpl<&Vector<S>> for Vector<S> {
    open spec fn obeys_add_spec() -> bool {
        true
    }

    open spec fn add_req(self, rhs: &Vector<S>) -> bool {
        true
    }

    open spec fn add_spec(self, rhs: &Vector<S>) -> Vector<S> {
        self.spec_add(*rhs)
    }
}

/// `-&a`: the vector negated.
impl<S: Scalar> core::ops::Neg for &Vector<S> {
    type Output = Vector<S>;

    fn neg(self) -> (r: Vector<S>) {
        Vector::neg(self)
    }
}

impl<S: Scalar> vstd::std_specs::ops::NegSpecImpl for &Vector<S> {
    open spec fn obeys_neg_spec() -> bool {
        true
    }

    open spec fn neg_req(self) -> bool {
        true
    }

    open spec fn neg_spec(self) -> Vector<S> {
        self.spec_neg()
    }
}

/// `-a`: the vector negated.
impl<S: Scalar> core::ops::Neg for Vector<S> {
    type Output = Vector<S>;

    fn neg(self) -> (r: Vector<S>) {
        Vector::neg(&self)
    }
}

impl<S: Scalar> vstd::std_specs::ops::NegSpecImpl for Vector<S> {
    open spec fn obeys_neg_spec() -> bool {
        true
    }

    open spec fn neg_req(self) -> bool {
        true
    }

    open spec fn neg_spec(self) -> Vector<S> {
        self.spec_neg()
    }
}

/// `&a * k`: the vector scaled by `k`.
impl<S: Scalar> core::ops::Mul<S> for &Vector<S> {
    type Output = Vector<S>;

    fn mul(self, rhs: S) -> (r: Vector<S>) {
        Vector::mul(self, rhs)
    }
}

impl<S: Scalar> vstd::std_specs::ops::MulSpecImpl<S> for &Vector<S> {
    open spec fn obeys_mul_spec() -> bool {
        true
    }

    open spec fn mul_req(self, rhs: S) -> bool {
        true
    }

    open spec fn mul_spec(self, rhs: S) -> Vector<S> {
        self.spec_mul(rhs)
    }
}

/// `&a / k`: the vector divided by `k`.
impl<S: Scalar> core::ops::Div<S> for &Vector<S> {
    type Output = Vector<S>;

    fn div(self, rhs: S) -> (r: Vector<S>) {
        Vector::div(self, rhs)
    }
}

impl<S: Scalar> vstd::std_specs::ops::DivSpecImpl<S> for &Vector<S> {
    open spec fn obeys_div_spec() -> bool {
        true
    }

    open spec fn div_req(self, rhs: S) -> bool {
        true
    }

    open spec fn div_spec(self, rhs: S) -> Vector<S> {
        self.spec_div(rhs)
    }
}

/// `&a * &b`: the product of two matrices.
impl<S: Scalar> core::ops::Mul for &Matrix<S> {
    type Output = Matrix<S>;

    fn mul(self, rhs: Self) -> (r: Matrix<S>) {
        let r = Matrix::mul(self, rhs);
        proof {
            self.lemma_len();
            rhs.lemma_len();
            Matrix::lemma_of_entries(multiplied(self@, rhs@));
            Matrix::lemma_same_entries(r, Matrix::of_entries(multiplied(self@, rhs@)));
        }
        r
    }
}

impl<S: Scalar> vstd::std_specs::ops::MulSpecImpl for &Matrix<S> {
    open spec fn obeys_mul_spec() -> bool {
        true
    }

    open spec fn mul_req(self, rhs: Self) -> bool {
        true
    }

    open spec fn mul_spec(self, rhs: Self) -> Matrix<S> {
        Matrix::of_entries(multiplied(self@, rhs@))
    }
}

/// `&a * &v`: the matrix applied to a vector.
impl<S: Scalar> core::ops::Mul<&Vector<S>> for &Matrix<S> {
    type Output = Vector<S>;

    fn mul(self, rhs: &Vector<S>) -> (r: Vector<S>) {
        Matrix::apply(self, rhs)
    }
}

impl<S: Scalar> vstd::std_specs::ops::MulSpecImpl<&Vector<S>> for &Matrix<S> {
    open spec fn obeys_mul_spec() -> bool {
        true
    }

    open spec fn mul_req(self, rhs: &Vector<S>) -> bool {
        true
    }

    open spec fn mul_spec(self, rhs: &Vector<S>) -> Vector<S> {
        applied(self@, *rhs)
    }
}

/// `&a * v`: the matrix applied to a vector.
impl<S: Scalar> core::ops::Mul<Vector<S>> for &Matrix<S> {
    type Output = Vector<S>;

    fn mul(self, rhs: Vector<S>) -> (r: Vector<S>) {
        Matrix::apply(self, &rhs)
    }
}

impl<S: Scalar> vstd::std_specs::ops::MulSpecImpl<Vector<S>> for &Matrix<S> {
    open spec fn obeys_mul_spec() -> bool {
        true
    }

    open spec fn mul_req(self, rhs: Vector<S>) -> bool {
        true
    }

    open spec fn mul_spec(self, rhs: Vector<S>) -> Vector<S> {
        applied(self@, rhs)
    }
}

/// `&p * &q`: the Hamilton product.
impl<S: Scalar> core::ops::Mul for &Quaternion<S> {
    type Output = Quaternion<S>;

    fn mul(self, rhs: Self) -> (r: Quaternion<S>) {
        Quaternion::mul(self, rhs)
    }
}

impl<S: Scalar> vstd::std_specs::ops::MulSpecImpl for &Quaternion<S> {
    open spec fn obeys_mul_spec() -> bool {
        true
    }

    open spec fn mul_req(self, rhs: Self) -> bool {
        true
    }

    open spec fn mul_spec(self, rhs: Self) -> Quaternion<S> {
        self.spec_mul(*rhs)
    }
}

/// `p * &q`: the Hamilton product.
impl<S: Scalar> core::ops::Mul<&Quaternion<S>> for Quaternion<S> {
    type Output = Quaternion<S>;

    fn mul(self, rhs: &Quaternion<S>) -> (r: Quaternion<S>) {
        Quaternion::mul(&self, rhs)
    }
}

impl<S: Scalar> vstd::std_specs::ops::MulSpecImpl<&Quaternion<S>> for Quaternion<S> {
    open spec fn obeys_mul_spec() -> bool {
        true
    }

    open spec fn mul_req(self, rhs: &Quaternion<S>) -> bool {
        true
    }

    open spec fn mul_spec(self, rhs: &Quaternion<S>) -> Quaternion<S> {
        self.spec_mul(*rhs)
    }
}

/// `&q * k`: every coordinate times `k`.
impl<S: Scalar> core::ops::Mul<S> for &Quaternion<S> {
    type Output = Quaternion<S>;

    fn mul(self, rhs: S) -> (r: Quaternion<S>) {
        Quaternion::scale(self, rhs)
    }
}

impl<S: Scalar> vstd::std_specs::ops::MulSpecImpl<S> for &Quaternion<S> {
    open spec fn obeys_mul_spec() -> bool {
        true
    }

    open spec fn mul_req(self, rhs: S) -> bool {
        true
    }

    open spec fn mul_spec(self, rhs: S) -> Quaternion<S> {
        self.spec_scale(rhs)
    }
}

/// `&q / k`: every coordinate divided by `k`.
impl<S: Scalar> core::ops::Div<S> for &Quaternion<S> {
    type Output = Quaternion<S>;

    fn div(self, rhs: S) -> (r: Quaternion<S>) {
        Quaternion::div(self, rhs)
    }
}

impl<S: Scalar> vstd::std_specs::ops::DivSpecImpl<S> for &Quaternion<S> {
    open spec fn obeys_div_spec() -> bool {
        true
    }

    open spec fn div_req(self, rhs: S) -> bool {
        true
    }

    open spec fn div_spec(self, rhs: S) -> Quaternion<S> {
        self.spec_div(rhs)
    }
}

/// `&p + &q`: the coordinate-wise sum.
impl<S: Scalar> core::ops::Add for &Quaternion<S> {
    type Output = Quaternion<S>;

    fn add(self, rhs: Self) -> (r: Quaternion<S>) {
        Quaternion::add(self, rhs)
    }
}

impl<S: Scalar> vstd::std_specs::ops::AddSpecImpl for &Quaternion<S> {
    open spec fn obeys_add_spec() -> bool {
        true
    }

    open spec fn add_req(self, rhs: Self) -> bool {
        true
    }

    open spec fn add_spec(self, rhs: Self) -> Quaternion<S> {
        self.spec_add(*rhs)
    }
}

/// `p + &q`: the coordinate-wise sum.
impl<S: Scalar> core::ops::Add<&Quaternion<S>> for Quaternion<S> {
    type Output = Quaternion<S>;

    fn add(self, rhs: &Quaternion<S>) -> (r: Quaternion<S>) {
        Quaternion::add(&self, rhs)
    }
}

impl<S: Scalar> vstd::std_specs::ops::AddSpecImpl<&Quaternion<S>> for Quaternion<S> {
    open spec fn obeys_add_spec() -> bool {
        true
    }

    open spec fn add_req(self, rhs: &Quaternion<S>) -> bool {
        true
    }

    open spec fn add_spec(self, rhs: &Quaternion<S>) -> Quaternion<S> {
        self.spec_add(*rhs)
    }
}

/// `-&q`: every coordinate negated.
impl<S: Scalar> core::ops::Neg for &Quaternion<S> {
    type Output = Quaternion<S>;

    fn neg(self) -> (r: Quaternion<S>) {
        Quaternion::neg(self)
    }
}

impl<S: Scalar> vstd::std_specs::ops::NegSpecImpl for &Quaternion<S> {
    open spec fn obeys_neg_spec() -> bool {
        true
    }

    open spec fn neg_req(self) -> bool {
        true
    }

    open spec fn neg_spec(self) -> Quaternion<S> {
        self.spec_neg()
    }
}

/// The vector as a quaternion of scalar part zero.
impl<S: Scalar> core::convert::From<&Vector<S>> for Quaternion<S> {
    fn from(v: &Vector<S>) -> (r: Quaternion<S>) {
        Quaternion::lift(v)
    }
}

impl<S: Scalar> vstd::std_specs::convert::FromSpecImpl<&Vector<S>> for Quaternion<S> {
    open spec fn obeys_from_spec() -> bool {
        true
    }

    open spec fn from_spec(v: &Vector<S>) -> Quaternion<S> {
        Quaternion::spec_lift(*v)
    }
}

/// The rotation matrix of a unit quaternion.
impl<S: Scalar> core::convert::From<&Quaternion<S>> for Matrix<S> {
    fn from(q: &Quaternion<S>) -> (r: Matrix<S>) {
        let r = q.to_rotation_matrix();
        proof {
            Matrix::lemma_of_entries(q.spec_rotation());
            Matrix::lemma_same_entries(r, Matrix::of_entries(q.spec_rotation()));
        }
        r
    }
}

impl<S: Scalar> vstd::std_specs::convert::FromSpecImpl<&Quaternion<S>> for Matrix<S> {
    open spec fn obeys_from_spec() -> bool {
        true
    }

    open spec fn from_spec(q: &Quaternion<S>) -> Matrix<S> {
        Matrix::of_entries(q.spec_rotation())
    }
}

} // verus!
