//! The algebra and the integrator on double-precision floating point.

use rigid_body::body::{RigidBody, RigidBox};
use rigid_body::matrix::Matrix;
use rigid_body::quaternion::{rotation_about, Quaternion};
use rigid_body::scalar::{sq, Scalar};
use rigid_body::state::RigidBodyState;
use rigid_body::vector::Vector;
use rigid_body::world::{AddError, World};
use std::f64::consts::PI;

const EPSILON: f64 = 1e-9;

/// A double, with the arithmetic of the machine.
#[derive(Clone, Copy, Debug)]
struct F(f64);

impl Scalar for F {
    fn of_int(n: i64) -> Self {
        F(n as f64)
    }
    fn sum(self, rhs: Self) -> Self {
        F(self.0 + rhs.0)
    }
    fn difference(self, rhs: Self) -> Self {
        F(self.0 - rhs.0)
    }
    fn product(self, rhs: Self) -> Self {
        F(self.0 * rhs.0)
    }
    fn quotient(self, rhs: Self) -> Self {
        F(self.0 / rhs.0)
    }
    fn negation(self) -> Self {
        F(-self.0)
    }
    fn square_root(self) -> Self {
        F(self.0.sqrt())
    }
    fn sine(self) -> Self {
        F(self.0.sin())
    }
    fn cosine(self) -> Self {
        F(self.0.cos())
    }
    fn absolute(self) -> Self {
        F(self.0.abs())
    }
    fn exceeds(self, rhs: Self) -> bool {
        self.0 > rhs.0
    }
    fn tolerance() -> Self {
        F(EPSILON)
    }
    fn from_int(n: i64) -> Self {
        Self::of_int(n)
    }
    fn plus(self, rhs: Self) -> Self {
        self.sum(rhs)
    }
    fn minus(self, rhs: Self) -> Self {
        self.difference(rhs)
    }
    fn times(self, rhs: Self) -> Self {
        self.product(rhs)
    }
    fn over(self, rhs: Self) -> Self {
        self.quotient(rhs)
    }
    fn negated(self) -> Self {
        self.negation()
    }
    fn sqrt(self) -> Self {
        self.square_root()
    }
    fn sin(self) -> Self {
        self.sine()
    }
    fn cos(self) -> Self {
        self.cosine()
    }
    fn abs(self) -> Self {
        self.absolute()
    }
    fn gt(self, rhs: Self) -> bool {
        self.exceeds(rhs)
    }
    fn epsilon() -> Self {
        Self::tolerance()
    }
}

fn near(a: f64, b: f64) -> bool {
    (a - b).abs() < EPSILON
}

fn vector(x: f64, y: f64, z: f64) -> Vector<F> {
    Vector::new(F(x), F(y), F(z))
}

fn matrix(e: [f64; 9]) -> Matrix<F> {
    Matrix::new([F(e[0]), F(e[1]), F(e[2]), F(e[3]), F(e[4]), F(e[5]), F(e[6]), F(e[7]), F(e[8])])
}

fn quaternion(x: f64, y: f64, z: f64, w: f64) -> Quaternion<F> {
    Quaternion::coords(F(x), F(y), F(z), F(w))
}

fn near_vector(a: &Vector<F>, b: &Vector<F>) -> bool {
    near(a.x.0, b.x.0) && near(a.y.0, b.y.0) && near(a.z.0, b.z.0)
}

fn near_matrix(a: &Matrix<F>, b: &Matrix<F>) -> bool {
    let mut all = true;
    for i in 0..3 {
        for j in 0..3 {
            all = all && near(a.at(i, j).0, b.at(i, j).0);
        }
    }
    all
}

fn near_quaternion(a: &Quaternion<F>, b: &Quaternion<F>) -> bool {
    near_vector(&a.v, &b.v) && near(a.w.0, b.w.0)
}

fn identity() -> Matrix<F> {
    matrix([1.0, 0.0, 0.0, 0.0, 1.0, 0.0, 0.0, 0.0, 1.0])
}

// ---- vectors

#[test]
fn test_new_vector() {
    let p = vector(4.0, -4.0, 3.0);
    assert!(near(p.x.0, 4.0));
    assert!(near(p.y.0, -4.0));
    assert!(near(p.z.0, 3.0));
}

#[test]
fn test_negating_a_vector() {
    let a = vector(1.0, -2.0, 3.0);
    assert!(near_vector(&-a, &vector(-1.0, 2.0, -3.0)));
}

#[test]
fn test_multiplying_a_vector_by_a_scalar() {
    let a = vector(1.0, -2.0, 3.0);
    assert!(near_vector(&(&a * F(3.5)), &vector(3.5, -7.0, 10.5)));
}

#[test]
fn test_multiplying_a_vector_by_a_fraction() {
    let a = vector(1.0, -2.0, 3.0);
    assert!(near_vector(&(&a * F(0.5)), &vector(0.5, -1.0, 1.5)));
}

#[test]
fn test_dividing_a_vector_by_a_scalar() {
    let a = vector(1.0, -2.0, 3.0);
    assert!(near_vector(&(&a / F(2.0)), &vector(0.5, -1.0, 1.5)));
}

#[test]
fn test_the_dot_product_of_two_vectors() {
    let a = vector(1.0, 2.0, 3.0);
    let b = vector(2.0, 3.0, 4.0);
    assert!(near(a.dot(&b).0, 20.0));
}

#[test]
fn adding_two_vectors() {
    let a = vector(3.0, -2.0, 5.0);
    let b = vector(-2.0, 3.0, 1.0);
    assert!(near_vector(&a.add(&b), &vector(1.0, 1.0, 6.0)));
    assert!(near_vector(&a.add(&Vector::zero()), &a));
}

#[test]
fn squaring_a_scalar() {
    assert_eq!(sq(F(-1.5)).0, 2.25);
}

// ---- matrices

#[test]
fn matrix_test_matrix_equality_with_identical_matrices() {
    let m1 = matrix([1.0, 2.0, 3.0, 5.0, 6.0, 7.0, 9.0, 8.0, 7.0]);
    let m2 = matrix([1.0, 2.0, 3.0, 5.0, 6.0, 7.0, 9.0, 8.0, 7.0]);
    assert!(near_matrix(&m1, &m2));
}

#[test]
fn matrix_test_matrix_equality_with_different_matrices() {
    let m1 = matrix([1.0, 2.0, 3.0, 5.0, 6.0, 7.0, 9.0, 8.0, 7.0]);
    let m2 = matrix([2.0, 3.0, 4.0, 6.0, 7.0, 8.0, 8.0, 7.0, 6.0]);
    assert!(!near_matrix(&m1, &m2));
}

#[test]
fn matrix_test_multiplying_two_matrices() {
    let a = matrix([1.0, 2.0, 3.0, 5.0, 6.0, 7.0, 9.0, 8.0, 7.0]);
    let b = matrix([-2.0, 1.0, 2.0, 3.0, 2.0, 1.0, 4.0, 3.0, 6.0]);
    assert!(near_matrix(
        &(&a * &b),
        &matrix([16.0, 14.0, 22.0, 36.0, 38.0, 58.0, 34.0, 46.0, 68.0])
    ));
}

#[test]
fn matrix_test_a_matrix_multiplied_by_a_vector() {
    let a = matrix([1.0, 2.0, 3.0, 2.0, 4.0, 4.0, 8.0, 6.0, 4.0]);
    let b = vector(1.0, 2.0, 3.0);
    assert!(near_vector(&(&a * &b), &vector(14.0, 22.0, 32.0)));
}

#[test]
fn matrix_test_multiplying_a_matrix_by_the_identity_matrix() {
    let a = matrix([0.0, 1.0, 2.0, 1.0, 2.0, 4.0, 2.0, 4.0, 8.0]);
    assert!(near_matrix(&(&a * &identity()), &a));
    assert!(near_matrix(&a.mul(&Matrix::identity()), &a));
}

#[test]
fn matrix_test_multiplying_the_identity_matrix_by_a_vector() {
    let a = vector(1.0, 2.0, 3.0);
    assert!(near_vector(&(&identity() * &a), &a));
}

#[test]
fn matrix_test_transposing_a_matrix() {
    let a = matrix([0.0, 9.0, 3.0, 9.0, 8.0, 0.0, 1.0, 8.0, 5.0]);
    let tra = matrix([0.0, 9.0, 1.0, 9.0, 8.0, 8.0, 3.0, 0.0, 5.0]);
    assert!(near_matrix(&a.transpose(), &tra));
}

#[test]
fn matrix_test_transposing_the_identity_matrix() {
    assert!(near_matrix(&identity().transpose(), &identity()));
}

#[test]
fn test_calculating_the_inverse_of_a_matrix() {
    let a = matrix([-5.0, 2.0, 6.0, 1.0, -5.0, 1.0, 7.0, 7.0, -6.0]);
    let b = a.inverse().unwrap();
    assert!(near_matrix(&(&a * &b), &identity()));
}

#[test]
fn test_calculating_the_inverse_of_another_matrix() {
    let a = matrix([8.0, -5.0, 9.0, 7.0, 5.0, 6.0, -6.0, 0.0, 9.0]);
    let b = a.inverse().unwrap();
    assert!(near_matrix(&(&a * &b), &identity()));
}

#[test]
fn test_calculating_the_inverse_of_third_matrix() {
    let a = matrix([9.0, 3.0, 0.0, -5.0, -2.0, -6.0, -4.0, 9.0, 6.0]);
    let b = a.inverse().unwrap();
    assert!(near_matrix(&(&a * &b), &identity()));
}

#[test]
fn test_multiplying_a_product_by_its_inverse() {
    let a = matrix([3.0, -9.0, 7.0, 3.0, -8.0, 2.0, -4.0, 4.0, 4.0]);
    let b = matrix([8.0, 2.0, 2.0, 3.0, -1.0, 7.0, 7.0, 0.0, 5.0]);
    let c = &a * &b;
    assert!(near_matrix(&(&c * &b.inverse().unwrap()), &a));
}

#[test]
fn inverse_entries_and_determinant() {
    let a = matrix([2.0, 0.0, 0.0, 0.0, 4.0, 0.0, 0.0, 0.0, 8.0]);
    assert_eq!(a.det().0, 64.0);
    let b = a.inverse().unwrap();
    assert!(near_matrix(&b, &matrix([0.5, 0.0, 0.0, 0.0, 0.25, 0.0, 0.0, 0.0, 0.125])));
    let c = matrix([-5.0, 2.0, 6.0, 1.0, -5.0, 1.0, 7.0, 7.0, -6.0]);
    assert!(near(c.det().0, 163.0));
}

#[test]
fn inverse_of_a_singular_matrix_is_refused() {
    let a = matrix([1.0, 2.0, 3.0, 2.0, 4.0, 6.0, 0.0, 1.0, 5.0]);
    assert!(a.inverse().is_none());
    let nearly = matrix([1e-4, 0.0, 0.0, 0.0, 1e-4, 0.0, 0.0, 0.0, 1e-4]);
    assert!(nearly.inverse().is_none());
    let zero = matrix([0.0; 9]);
    assert!(zero.inverse().is_none());
}

#[test]
fn inverse_of_the_inverse_is_the_matrix() {
    let a = matrix([8.0, -5.0, 9.0, 7.0, 5.0, 6.0, -6.0, 0.0, 9.0]);
    let back = a.inverse().unwrap().inverse().unwrap();
    assert!(near_matrix(&back, &a));
}

// ---- quaternions

#[test]
fn quaternion_test_multiplication_of_units() {
    let i = quaternion(1.0, 0.0, 0.0, 0.0);
    let j = quaternion(0.0, 1.0, 0.0, 0.0);
    let k = quaternion(0.0, 0.0, 1.0, 0.0);
    let one = quaternion(0.0, 0.0, 0.0, 1.0);

    assert!(near_quaternion(&(&i * &i), &-&one));
    assert!(near_quaternion(&(&i * &j), &k));
    assert!(near_quaternion(&(&i * &k), &-&j));
    assert!(near_quaternion(&(&i * &one), &i));
    assert!(near_quaternion(&(&j * &i), &-&k));
    assert!(near_quaternion(&(&j * &j), &-&one));
    assert!(near_quaternion(&(&j * &k), &i));
    assert!(near_quaternion(&(&j * &one), &j));
    assert!(near_quaternion(&(&k * &i), &j));
    assert!(near_quaternion(&(&k * &j), &-&i));
    assert!(near_quaternion(&(&k * &k), &-&one));
    assert!(near_quaternion(&(&k * &one), &k));
    assert!(near_quaternion(&(&one * &i), &i));
    assert!(near_quaternion(&(&one * &j), &j));
    assert!(near_quaternion(&(&one * &k), &k));
    assert!(near_quaternion(&(&one * &one), &one));
}

#[test]
fn quaternion_test_some_multiplication() {
    let q1 = quaternion(1.0, 2.0, 3.0, 4.0);
    let q2 = quaternion(5.0, 6.0, 7.0, 8.0);
    assert!(near_quaternion(&(&q1 * &q2), &quaternion(24.0, 48.0, 48.0, -6.0)));
    assert!(near_quaternion(&(&q2 * &q1), &quaternion(32.0, 32.0, 56.0, -6.0)));
}

#[test]
fn quaternion_test_unit_quaternions_to_rotations() {
    assert!(near_matrix(
        &quaternion(1.0, 0.0, 0.0, 0.0).to_rotation_matrix(),
        &matrix([1.0, 0.0, 0.0, 0.0, -1.0, 0.0, 0.0, 0.0, -1.0])
    ));
    assert!(near_matrix(
        &quaternion(0.0, 1.0, 0.0, 0.0).to_rotation_matrix(),
        &matrix([-1.0, 0.0, 0.0, 0.0, 1.0, 0.0, 0.0, 0.0, -1.0])
    ));
    assert!(near_matrix(
        &quaternion(0.0, 0.0, 1.0, 0.0).to_rotation_matrix(),
        &matrix([-1.0, 0.0, 0.0, 0.0, -1.0, 0.0, 0.0, 0.0, 1.0])
    ));
}

#[test]
fn quaternion_test_rotation_x_quaternion_to_matrix() {
    let a = PI / 3.0;
    let c = a.cos();
    let s = a.sin();
    let r = Quaternion::from_rotation(&vector(1.0, 0.0, 0.0), F(a)).to_rotation_matrix();
    assert!(near_matrix(&r, &matrix([1.0, 0.0, 0.0, 0.0, c, -s, 0.0, s, c])));
}

#[test]
fn quaternion_test_rotation_y_quaternion_to_matrix() {
    let a = PI / 3.0;
    let c = a.cos();
    let s = a.sin();
    let r = Quaternion::from_rotation(&vector(0.0, 1.0, 0.0), F(a)).to_rotation_matrix();
    assert!(near_matrix(&r, &matrix([c, 0.0, s, 0.0, 1.0, 0.0, -s, 0.0, c])));
}

#[test]
fn quaternion_test_rotation_z_quaternion_to_matrix() {
    let a = PI / 3.0;
    let c = a.cos();
    let s = a.sin();
    let r = Quaternion::from_rotation(&vector(0.0, 0.0, 1.0), F(a)).to_rotation_matrix();
    assert!(near_matrix(&r, &matrix([c, -s, 0.0, s, c, 0.0, 0.0, 0.0, 1.0])));
}

#[test]
fn quaternion_test_rotation_about_z_axis_using_quaternion_vs_matrix() {
    let q = Quaternion::from_rotation(&vector(0.0, 0.0, 1.0), F(PI / 3.0));
    let r = q.to_rotation_matrix();
    let v = vector(2.0, 1.0, 3.0);
    let u = &r * &v;
    let uhat = &q * &Quaternion::from(&v) * &q.conj();
    assert!(near_quaternion(&Quaternion::from(&u), &uhat));
}

#[test]
fn quaternion_test_rotation_about_some_axis_using_quaternion_vs_matrix() {
    let q = Quaternion::from_rotation(
        &vector(1.0 / 3f64.sqrt(), -1.0 / 3f64.sqrt(), 1.0 / 3f64.sqrt()),
        F(PI / 3.0),
    );
    let r = q.to_rotation_matrix();
    let v = vector(2.0, 1.0, 3.0);
    let u = &r * &v;
    let uhat = &q * &Quaternion::from(&v) * &q.conj();
    assert!(near_quaternion(&Quaternion::from(&u), &uhat));
}

// ---- the same, through the free function and the conversion

#[test]
fn convert_test_unit_quaternions_to_rotations() {
    assert!(near_matrix(
        &Matrix::from(&quaternion(1.0, 0.0, 0.0, 0.0)),
        &matrix([1.0, 0.0, 0.0, 0.0, -1.0, 0.0, 0.0, 0.0, -1.0])
    ));
    assert!(near_matrix(
        &Matrix::from(&quaternion(0.0, 1.0, 0.0, 0.0)),
        &matrix([-1.0, 0.0, 0.0, 0.0, 1.0, 0.0, 0.0, 0.0, -1.0])
    ));
    assert!(near_matrix(
        &Matrix::from(&quaternion(0.0, 0.0, 1.0, 0.0)),
        &matrix([-1.0, 0.0, 0.0, 0.0, -1.0, 0.0, 0.0, 0.0, 1.0])
    ));
}

#[test]
fn convert_test_rotation_x_quaternion_to_matrix() {
    let a = PI / 3.0;
    let c = a.cos();
    let s = a.sin();
    let r = Matrix::from(&rotation_about(&vector(1.0, 0.0, 0.0), F(a)));
    assert!(near_matrix(&r, &matrix([1.0, 0.0, 0.0, 0.0, c, -s, 0.0, s, c])));
}

#[test]
fn convert_test_rotation_y_quaternion_to_matrix() {
    let a = PI / 3.0;
    let c = a.cos();
    let s = a.sin();
    let r = Matrix::from(&rotation_about(&vector(0.0, 1.0, 0.0), F(a)));
    assert!(near_matrix(&r, &matrix([c, 0.0, s, 0.0, 1.0, 0.0, -s, 0.0, c])));
}

#[test]
fn convert_test_rotation_z_quaternion_to_matrix() {
    let a = PI / 3.0;
    let c = a.cos();
    let s = a.sin();
    let r = Matrix::from(&rotation_about(&vector(0.0, 0.0, 1.0), F(a)));
    assert!(near_matrix(&r, &matrix([c, -s, 0.0, s, c, 0.0, 0.0, 0.0, 1.0])));
}

#[test]
fn convert_test_rotation_about_z_axis_using_quaternion_vs_matrix() {
    let q = rotation_about(&vector(0.0, 0.0, 1.0), F(PI / 3.0));
    let r = Matrix::from(&q);
    let v = vector(2.0, 1.0, 3.0);
    let u = &r * &v;
    let uhat = &q * &Quaternion::from(&v) * &q.conj();
    assert!(near_quaternion(&Quaternion::from(&u), &uhat));
}

#[test]
fn convert_test_rotation_about_some_axis_using_quaternion_vs_matrix() {
    let q = rotation_about(
        &vector(1.0 / 3f64.sqrt(), -1.0 / 3f64.sqrt(), 1.0 / 3f64.sqrt()),
        F(PI / 3.0),
    );
    let r = Matrix::from(&q);
    let v = vector(2.0, 1.0, 3.0);
    let u = &r * &v;
    let uhat = &q * &Quaternion::from(&v) * &q.conj();
    assert!(near_quaternion(&Quaternion::from(&u), &uhat));
}

#[test]
fn a_quaternion_from_a_vector_and_a_constant() {
    let q = Quaternion::from_vector_constant(&vector(1.0, 2.0, 3.0), F(4.0));
    assert!(near_quaternion(&q, &quaternion(1.0, 2.0, 3.0, 4.0)));
    assert!(near_quaternion(&Quaternion::new(vector(1.0, 2.0, 3.0), F(4.0)), &q));
}

// ---- the operators are the methods

#[test]
fn operators_are_the_methods() {
    let a = vector(1.0, -2.0, 3.0);
    let b = vector(0.5, 4.0, -1.0);
    assert!(near_vector(&(&a + &b), &a.add(&b)));
    assert!(near_vector(&(a + &b), &vector(1.5, 2.0, 2.0)));
    assert!(near_vector(&-&a, &a.neg()));
    assert!(near_vector(&(&a * F(3.0)), &a.mul(F(3.0))));
    assert!(near_vector(&(&a / F(4.0)), &a.div(F(4.0))));
    let m = matrix([1.0, 2.0, 3.0, 5.0, 6.0, 7.0, 9.0, 8.0, 7.0]);
    let n = matrix([-2.0, 1.0, 2.0, 3.0, 2.0, 1.0, 4.0, 3.0, 6.0]);
    assert!(near_matrix(&(&m * &n), &m.mul(&n)));
    assert!(near_vector(&(&m * &a), &m.apply(&a)));
    assert!(near_vector(&(&m * a), &vector(6.0, 14.0, 14.0)));
    let p = quaternion(1.0, 2.0, 3.0, 4.0);
    let q = quaternion(5.0, 6.0, 7.0, 8.0);
    assert!(near_quaternion(&(&p * &q), &p.mul(&q)));
    assert!(near_quaternion(&(p * &q), &quaternion(24.0, 48.0, 48.0, -6.0)));
    assert!(near_quaternion(&(&p + &q), &p.add(&q)));
    assert!(near_quaternion(&(p + &q), &quaternion(6.0, 8.0, 10.0, 12.0)));
    assert!(near_quaternion(&(&p * F(2.0)), &p.scale(F(2.0))));
    assert!(near_quaternion(&(&p / F(2.0)), &p.div(F(2.0))));
    assert!(near_quaternion(&-&p, &p.neg()));
    assert!(near_quaternion(&Quaternion::from(&a), &quaternion(1.0, -2.0, 3.0, 0.0)));
    assert!(near_quaternion(&Quaternion::from(&a), &Quaternion::lift(&a)));
}

// ---- more of the quaternion algebra

#[test]
fn quaternion_sums_scales_and_norm() {
    let p = quaternion(1.0, 2.0, 3.0, 4.0);
    let q = quaternion(0.5, -1.0, 2.0, 0.0);
    assert!(near_quaternion(&p.add(&q), &quaternion(1.5, 1.0, 5.0, 4.0)));
    assert!(near_quaternion(&p.scale(F(2.0)), &quaternion(2.0, 4.0, 6.0, 8.0)));
    assert!(near_quaternion(&p.div(F(2.0)), &quaternion(0.5, 1.0, 1.5, 2.0)));
    assert!(near_quaternion(&p.conj(), &quaternion(-1.0, -2.0, -3.0, 4.0)));
    assert!(near(p.dot(&q).0, 0.5 - 2.0 + 6.0));
    assert!(near(p.magnitude().0, 30f64.sqrt()));
    let n = p.normalize();
    assert!(near(n.magnitude().0, 1.0));
    assert!(near_quaternion(&n.scale(F(30f64.sqrt())), &p));
}

#[test]
fn rotation_matrix_of_a_unit_quaternion_is_orthonormal() {
    let q = quaternion(1.0, -2.0, 0.5, 3.0).normalize();
    let r = q.to_rotation_matrix();
    assert!(near_matrix(&r.mul(&r.transpose()), &identity()));
    assert!(near_matrix(&r.transpose().mul(&r), &identity()));
    assert!(near(r.det().0, 1.0));
}

#[test]
fn rotation_by_no_angle_is_the_identity() {
    let q = Quaternion::from_rotation(&vector(0.0, 1.0, 0.0), F(0.0));
    assert!(near_quaternion(&q, &quaternion(0.0, 0.0, 0.0, 1.0)));
    assert!(near_matrix(&q.to_rotation_matrix(), &identity()));
}

#[test]
fn nothing_guards_a_division_by_zero() {
    let v = &vector(1.0, -2.0, 0.0) / F(0.0);
    assert_eq!(v.x.0, f64::INFINITY);
    assert_eq!(v.y.0, f64::NEG_INFINITY);
    assert!(v.z.0.is_nan());
    // a quaternion of norm zero has no direction
    let n = quaternion(0.0, 0.0, 0.0, 0.0).normalize();
    assert!(n.v.x.0.is_nan() && n.v.y.0.is_nan() && n.v.z.0.is_nan() && n.w.0.is_nan());
}

// ---- bodies and states

#[test]
fn box_mass_and_inertia() {
    let b = RigidBox::new(F(5.0), F(0.1), F(4.0), F(1.0));
    assert!(near(b.mass().0, 2.0));
    let s = 2.0 / 12.0;
    assert!(near_matrix(
        &b.inertia_tensor(),
        &matrix([
            s * (0.01 + 16.0),
            0.0,
            0.0,
            0.0,
            s * (25.0 + 16.0),
            0.0,
            0.0,
            0.0,
            s * (25.0 + 0.01)
        ])
    ));
}

#[test]
fn state_derives_rotation_and_velocities() {
    let inv_inertia = matrix([2.0, 0.0, 0.0, 0.0, 4.0, 0.0, 0.0, 0.0, 8.0]);
    let q = quaternion(0.0, 0.0, 2.0, 0.0);
    let s = RigidBodyState::new(
        &vector(1.0, 2.0, 3.0),
        &q,
        &vector(4.0, 0.0, -2.0),
        &vector(1.0, 1.0, 1.0),
        F(0.5),
        &inv_inertia,
    );
    // the orientation is normalized: a half turn about z
    assert!(near_quaternion(&s.q, &quaternion(0.0, 0.0, 1.0, 0.0)));
    assert!(near_matrix(&s.r, &matrix([-1.0, 0.0, 0.0, 0.0, -1.0, 0.0, 0.0, 0.0, 1.0])));
    assert!(near_vector(&s.v, &vector(2.0, 0.0, -1.0)));
    // w = r (inv_inertia (r^T l))
    assert!(near_vector(&s.w, &vector(2.0, 4.0, 8.0)));
    assert!(near_vector(&s.x, &vector(1.0, 2.0, 3.0)));
    assert!(near_vector(&s.p, &vector(4.0, 0.0, -2.0)));
    assert!(near_vector(&s.l, &vector(1.0, 1.0, 1.0)));
}

// ---- the world

fn falling_box(density: f64) -> World<F> {
    let mut world = World::new(vector(0.0, 0.0, -1.0));
    let body = RigidBox::new(F(1.0), F(0.1), F(0.5), F(density));
    let added = world.add(
        7,
        &body,
        &vector(-10.0, 0.0, 10.0),
        &Quaternion::from_rotation(&vector(0.0, 1.0, 0.0), F(0.0)),
        &vector(1.0, 0.0, 0.0),
        &vector(0.0, 0.0, 0.0),
    );
    assert_eq!(added, Ok(()));
    world
}

fn run(world: &mut World<F>, dt: f64, steps: usize) -> f64 {
    let mut t = F(0.0);
    for _ in 0..steps {
        t = world.step(t, F(dt));
    }
    t.0
}

#[test]
fn a_box_of_unit_mass_under_constant_force() {
    // 1 x 0.1 x 0.5 at density 20 weighs one unit
    let mut world = falling_box(20.0);
    let t = run(&mut world, 1.0 / 20.0, 20);
    assert!(near(t, 1.0));
    let o = world.object(0);
    // x = x0 + v t, z = z0 - t^2 / 2
    assert!(near_vector(&o.state.x, &vector(-9.0, 0.0, 9.5)));
    assert!(near_vector(&o.state.p, &vector(1.0, 0.0, -1.0)));
    assert!(near_vector(&o.state.l, &vector(0.0, 0.0, 0.0)));
    assert!(near_quaternion(&o.state.q, &quaternion(0.0, 0.0, 0.0, 1.0)));
}

#[test]
fn a_box_of_density_one_under_constant_force() {
    // 1 x 0.1 x 0.5 at density 1 weighs a twentieth
    let mut world = falling_box(1.0);
    let t = run(&mut world, 1.0 / 20.0, 20);
    assert!(near(t, 1.0));
    let o = world.object(0);
    assert!(near(o.inv_mass.0, 20.0));
    // x = x0 + (p / m) t, z = z0 - (1 / m) t^2 / 2
    assert!(near_vector(&o.state.x, &vector(10.0, 0.0, 0.0)));
    assert!(near_vector(&o.state.p, &vector(1.0, 0.0, -1.0)));
}

#[test]
fn momentum_grows_by_the_force_times_the_time() {
    let mut world = World::new(vector(0.0, 0.0, -1.0));
    let body = RigidBox::new(F(5.0), F(0.1), F(4.0), F(1.0));
    world
        .add(
            0,
            &body,
            &vector(0.0, 0.0, 0.0),
            &quaternion(0.0, 0.0, 0.0, 1.0),
            &vector(0.0, 0.0, 0.0),
            &vector(0.0, 10.0, 0.0),
        )
        .unwrap();
    let n = 37;
    let dt = 0.01;
    run(&mut world, dt, n);
    let o = world.object(0);
    assert!(near_vector(&o.state.p, &vector(0.0, 0.0, -(n as f64) * dt)));
    // no torque: the angular momentum stays
    assert!(near_vector(&o.state.l, &vector(0.0, 10.0, 0.0)));
}

#[test]
fn nothing_changes_without_force_torque_and_momentum() {
    let mut world = World::with_field(vector(0.0, 0.0, 0.0), vector(0.0, 0.0, 0.0));
    let body = RigidBox::new(F(5.0), F(0.1), F(4.0), F(1.0));
    let q = Quaternion::from_rotation(&vector(0.0, 0.6, 0.8), F(1.0));
    world
        .add(
            0,
            &body,
            &vector(1.0, 2.0, 3.0),
            &q,
            &vector(0.0, 0.0, 0.0),
            &vector(0.0, 0.0, 0.0),
        )
        .unwrap();
    run(&mut world, 0.05, 100);
    let o = world.object(0);
    assert!(near_vector(&o.state.x, &vector(1.0, 2.0, 3.0)));
    assert!(near_quaternion(&o.state.q, &q));
    assert!(near_vector(&o.state.p, &vector(0.0, 0.0, 0.0)));
    assert!(near_vector(&o.state.l, &vector(0.0, 0.0, 0.0)));
}

#[test]
fn a_free_body_moves_in_a_straight_line() {
    let mut world = World::with_field(vector(0.0, 0.0, 0.0), vector(0.0, 0.0, 0.0));
    let body = RigidBox::new(F(5.0), F(0.1), F(4.0), F(1.0));
    world
        .add(
            0,
            &body,
            &vector(1.0, 2.0, 3.0),
            &quaternion(0.0, 0.0, 0.0, 1.0),
            &vector(2.0, -4.0, 0.0),
            &vector(0.0, 0.0, 0.0),
        )
        .unwrap();
    run(&mut world, 0.1, 10);
    let o = world.object(0);
    // the mass is 2: the velocity is (1, -2, 0)
    assert!(near_vector(&o.state.x, &vector(2.0, 0.0, 3.0)));
    assert!(near_vector(&o.state.p, &vector(2.0, -4.0, 0.0)));
}

#[test]
fn orientation_stays_of_unit_norm() {
    let mut world = World::with_field(vector(0.0, 0.0, -1.0), vector(0.3, 0.0, 0.1));
    let body = RigidBox::new(F(5.0), F(0.1), F(4.0), F(1.0));
    world
        .add(
            0,
            &body,
            &vector(0.0, 0.0, 0.0),
            &quaternion(3.0, 0.0, 4.0, 12.0),
            &vector(10.0, 0.0, 0.0),
            &vector(0.0, 10.0, 5.0),
        )
        .unwrap();
    assert!(near(world.object(0).state.q.magnitude().0, 1.0));
    for _ in 0..1000 {
        world.step(F(0.0), F(0.01));
        let o = world.object(0);
        assert!((o.state.q.magnitude().0 - 1.0).abs() < 1e-12);
        assert!(near_matrix(&o.state.r.mul(&o.state.r.transpose()), &identity()));
    }
}

#[test]
fn a_spinning_body_keeps_its_angular_momentum_and_turns() {
    let mut world = World::with_field(vector(0.0, 0.0, 0.0), vector(0.0, 0.0, 0.0));
    // a cube: the inertia tensor is a multiple of the identity, i = m / 6
    let body = RigidBox::new(F(1.0), F(1.0), F(1.0), F(6.0));
    world
        .add(
            0,
            &body,
            &vector(0.0, 0.0, 0.0),
            &quaternion(0.0, 0.0, 0.0, 1.0),
            &vector(0.0, 0.0, 0.0),
            &vector(0.0, 0.0, 2.0),
        )
        .unwrap();
    let o = world.object(0);
    // inertia 6 / 12 * 2 = 1 on each axis: the angular velocity is l
    assert!(near_vector(&o.state.w, &vector(0.0, 0.0, 2.0)));
    run(&mut world, 0.001, 1000);
    let o = world.object(0);
    // one time unit at two radians per unit about z
    let expected = Quaternion::from_rotation(&vector(0.0, 0.0, 1.0), F(2.0));
    assert!((o.state.q.v.z.0 - expected.v.z.0).abs() < 1e-6);
    assert!((o.state.q.w.0 - expected.w.0).abs() < 1e-6);
    assert!(near_vector(&o.state.l, &vector(0.0, 0.0, 2.0)));
}

#[test]
fn a_body_without_thickness_is_refused() {
    let mut world = World::new(vector(0.0, 0.0, -1.0));
    let good = RigidBox::new(F(5.0), F(0.1), F(4.0), F(1.0));
    world
        .add(
            1,
            &good,
            &vector(0.0, 0.0, 0.0),
            &quaternion(0.0, 0.0, 0.0, 1.0),
            &vector(0.0, 0.0, 0.0),
            &vector(0.0, 0.0, 0.0),
        )
        .unwrap();
    // no volume, no mass, no inertia
    let flat = RigidBox::new(F(5.0), F(0.0), F(4.0), F(1.0));
    let refused = world.add(
        2,
        &flat,
        &vector(0.0, 0.0, 0.0),
        &quaternion(0.0, 0.0, 0.0, 1.0),
        &vector(0.0, 0.0, 0.0),
        &vector(0.0, 0.0, 0.0),
    );
    assert_eq!(refused, Err(AddError::SingularInertia));
    assert_eq!(world.len(), 1);
    assert_eq!(world.object(0).id, 1);
    let refused = world.insert(
        3,
        F(1.0),
        &matrix([1.0, 2.0, 3.0, 2.0, 4.0, 6.0, 0.0, 1.0, 5.0]),
        &vector(0.0, 0.0, 0.0),
        &quaternion(0.0, 0.0, 0.0, 1.0),
        &vector(0.0, 0.0, 0.0),
        &vector(0.0, 0.0, 0.0),
    );
    assert_eq!(refused, Err(AddError::SingularInertia));
    assert_eq!(world.len(), 1);
}

#[test]
fn bodies_are_visited_in_order_of_entry() {
    let mut world = World::new(vector(0.0, 0.0, -1.0));
    assert_eq!(world.len(), 0);
    let body = RigidBox::new(F(5.0), F(0.1), F(4.0), F(1.0));
    for (n, id) in [42usize, 7, 19].iter().enumerate() {
        world
            .add(
                *id,
                &body,
                &vector(n as f64, 0.0, 0.0),
                &quaternion(0.0, 0.0, 0.0, 1.0),
                &vector(0.0, 0.0, 0.0),
                &vector(0.0, 0.0, 0.0),
            )
            .unwrap();
    }
    assert_eq!(world.len(), 3);
    assert!(near_vector(&world.force(), &vector(0.0, 0.0, -1.0)));
    assert!(near_vector(&world.torque(), &vector(0.0, 0.0, 0.0)));
    let mut seen = Vec::new();
    world.for_each_object(|id, x, r| {
        assert!(near_matrix(r, &identity()));
        seen.push((id, x.x.0));
    });
    assert_eq!(seen, vec![(42, 0.0), (7, 1.0), (19, 2.0)]);
    world.step(F(0.0), F(0.1));
    let mut seen = Vec::new();
    world.for_each_object(|id, _, _| seen.push(id));
    assert_eq!(seen, vec![42, 7, 19]);
}

#[test]
fn bodies_do_not_act_on_one_another() {
    let body = RigidBox::new(F(5.0), F(0.1), F(4.0), F(1.0));
    let start = |world: &mut World<F>, id: usize, px: f64| {
        world
            .add(
                id,
                &body,
                &vector(0.0, 0.0, 0.0),
                &quaternion(0.0, 0.0, 0.0, 1.0),
                &vector(px, 0.0, 0.0),
                &vector(0.0, 1.0, 0.0),
            )
            .unwrap();
    };
    let mut both = World::new(vector(0.0, 0.0, -1.0));
    start(&mut both, 0, 1.0);
    start(&mut both, 1, -3.0);
    let mut alone = World::new(vector(0.0, 0.0, -1.0));
    start(&mut alone, 1, -3.0);
    run(&mut both, 0.02, 50);
    run(&mut alone, 0.02, 50);
    let a = both.object(1);
    let b = alone.object(0);
    assert_eq!(a.state.x.x.0, b.state.x.x.0);
    assert_eq!(a.state.x.z.0, b.state.x.z.0);
    assert_eq!(a.state.q.w.0, b.state.q.w.0);
    assert_eq!(a.state.q.v.y.0, b.state.q.v.y.0);
}

#[test]
fn one_step_is_the_runge_kutta_formula() {
    let inv_inertia = Matrix::identity();
    let s0 = RigidBodyState::new(
        &vector(0.0, 0.0, 0.0),
        &quaternion(0.0, 0.0, 0.0, 1.0),
        &vector(2.0, 0.0, 0.0),
        &vector(0.0, 0.0, 0.0),
        F(0.5),
        &inv_inertia,
    );
    let force = vector(0.0, 0.0, -4.0);
    let torque = vector(0.0, 0.0, 0.0);
    let a1 = s0.rates(&force, &torque);
    assert!(near_vector(&a1.dx, &vector(1.0, 0.0, 0.0)));
    assert!(near_vector(&a1.dp, &force));
    assert!(near_vector(&a1.dl, &torque));
    assert!(near_quaternion(&a1.dq, &quaternion(0.0, 0.0, 0.0, 0.0)));
    let b1 = s0.advance(&a1, F(0.5), F(0.5), &inv_inertia);
    assert!(near_vector(&b1.x, &vector(0.5, 0.0, 0.0)));
    assert!(near_vector(&b1.p, &vector(2.0, 0.0, -2.0)));
    assert!(near_vector(&b1.v, &vector(1.0, 0.0, -1.0)));
    let s1 = s0.step(F(0.5), &inv_inertia, &force, &torque, F(1.0));
    // x = v t + (f / m) t^2 / 2
    assert!(near_vector(&s1.x, &vector(1.0, 0.0, -1.0)));
    assert!(near_vector(&s1.p, &vector(2.0, 0.0, -4.0)));
    assert!(near_vector(&s1.v, &vector(1.0, 0.0, -2.0)));
}
