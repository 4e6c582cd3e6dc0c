//! The algebra and the integrator on whole numbers, where every result is
//! either exact or marked as lost.

use rigid_body::matrix::Matrix;
use rigid_body::quaternion::Quaternion;
use rigid_body::scalar::Scalar;
use rigid_body::state::RigidBodyState;
use rigid_body::vector::Vector;
use rigid_body::whole::Whole;
use rigid_body::world::{AddError, World};

fn w(n: i64) -> Whole {
    Whole::new(n)
}

fn vector(x: i64, y: i64, z: i64) -> Vector<Whole> {
    Vector::new(w(x), w(y), w(z))
}

fn matrix(e: [i64; 9]) -> Matrix<Whole> {
    Matrix::new([w(e[0]), w(e[1]), w(e[2]), w(e[3]), w(e[4]), w(e[5]), w(e[6]), w(e[7]), w(e[8])])
}

fn quaternion(x: i64, y: i64, z: i64, s: i64) -> Quaternion<Whole> {
    Quaternion::coords(w(x), w(y), w(z), w(s))
}

fn coordinates(v: &Vector<Whole>) -> [Option<i64>; 3] {
    [v.x.get(), v.y.get(), v.z.get()]
}

fn parts(q: &Quaternion<Whole>) -> [Option<i64>; 4] {
    [q.v.x.get(), q.v.y.get(), q.v.z.get(), q.w.get()]
}

fn entries(m: &Matrix<Whole>) -> [Option<i64>; 9] {
    let mut e = [None; 9];
    for i in 0..3 {
        for j in 0..3 {
            e[3 * i + j] = m.at(i, j).get();
        }
    }
    e
}

fn some3(x: i64, y: i64, z: i64) -> [Option<i64>; 3] {
    [Some(x), Some(y), Some(z)]
}

fn some4(x: i64, y: i64, z: i64, s: i64) -> [Option<i64>; 4] {
    [Some(x), Some(y), Some(z), Some(s)]
}

fn some9(e: [i64; 9]) -> [Option<i64>; 9] {
    e.map(Some)
}

#[test]
fn whole_arithmetic_is_exact() {
    assert_eq!(Whole::from_int(-7).get(), Some(-7));
    assert_eq!(w(3).plus(w(4)).get(), Some(7));
    assert_eq!(w(3).minus(w(4)).get(), Some(-1));
    assert_eq!(w(-3).times(w(4)).get(), Some(-12));
    assert_eq!(w(12).over(w(-4)).get(), Some(-3));
    assert_eq!(w(-12).over(w(4)).get(), Some(-3));
    assert_eq!(w(-12).over(w(-4)).get(), Some(3));
    assert_eq!(w(0).over(w(5)).get(), Some(0));
    assert_eq!(w(5).negated().get(), Some(-5));
    assert_eq!(w(49).sqrt().get(), Some(7));
    assert_eq!(w(0).sqrt().get(), Some(0));
    assert_eq!(w(1).sqrt().get(), Some(1));
    assert_eq!(w(9223372030926249001).sqrt().get(), Some(3037000499));
    assert_eq!(w(0).sin().get(), Some(0));
    assert_eq!(w(0).cos().get(), Some(1));
    assert_eq!(w(-5).abs().get(), Some(5));
    assert_eq!(w(5).abs().get(), Some(5));
    assert_eq!(w(0).abs().get(), Some(0));
    assert!(w(1).gt(w(0)));
    assert!(!w(0).gt(w(0)));
    assert!(!w(-1).gt(w(0)));
    assert_eq!(Whole::epsilon().get(), Some(0));
}

#[test]
fn whole_arithmetic_marks_what_it_loses() {
    assert_eq!(w(i64::MAX).plus(w(1)).get(), None);
    assert_eq!(w(i64::MIN).minus(w(1)).get(), None);
    assert_eq!(w(i64::MAX).times(w(2)).get(), None);
    assert_eq!(w(i64::MIN).negated().get(), None);
    assert_eq!(w(i64::MIN).over(w(-1)).get(), None);
    assert_eq!(w(i64::MAX).over(w(-1)).get(), Some(-i64::MAX));
    assert_eq!(w(1).over(w(2)).get(), None);
    assert_eq!(w(7).over(w(0)).get(), None);
    assert_eq!(w(0).over(w(0)).get(), None);
    assert_eq!(w(-7).over(w(2)).get(), None);
    assert_eq!(w(2).sqrt().get(), None);
    assert_eq!(w(-4).sqrt().get(), None);
    assert_eq!(w(i64::MAX).sqrt().get(), None);
    assert_eq!(w(1).sin().get(), None);
    assert_eq!(w(1).cos().get(), None);
    // what is lost stays lost
    let lost = w(1).over(w(0));
    assert_eq!(lost.plus(w(1)).get(), None);
    assert_eq!(w(1).minus(lost).get(), None);
    assert_eq!(w(0).times(lost).get(), None);
    assert_eq!(lost.over(w(1)).get(), None);
    assert_eq!(lost.negated().get(), None);
    assert_eq!(lost.sqrt().get(), None);
    assert_eq!(lost.sin().get(), None);
    assert_eq!(lost.cos().get(), None);
    assert_eq!(lost.abs().get(), None);
    assert_eq!(w(i64::MIN).abs().get(), None);
    assert!(!lost.gt(w(0)));
    assert!(!w(0).gt(lost));
}

#[test]
fn whole_units_multiply_as_hamiltons() {
    let i = quaternion(1, 0, 0, 0);
    let j = quaternion(0, 1, 0, 0);
    let k = quaternion(0, 0, 1, 0);
    assert_eq!(parts(&i.mul(&i)), some4(0, 0, 0, -1));
    assert_eq!(parts(&j.mul(&j)), some4(0, 0, 0, -1));
    assert_eq!(parts(&k.mul(&k)), some4(0, 0, 0, -1));
    assert_eq!(parts(&i.mul(&j)), some4(0, 0, 1, 0));
    assert_eq!(parts(&j.mul(&k)), some4(1, 0, 0, 0));
    assert_eq!(parts(&k.mul(&i)), some4(0, 1, 0, 0));
    assert_eq!(parts(&j.mul(&i)), some4(0, 0, -1, 0));
    assert_eq!(parts(&k.mul(&j)), some4(-1, 0, 0, 0));
    assert_eq!(parts(&i.mul(&k)), some4(0, -1, 0, 0));
}

#[test]
fn whole_quaternion_products() {
    let q1 = quaternion(1, 2, 3, 4);
    let q2 = quaternion(5, 6, 7, 8);
    assert_eq!(parts(&q1.mul(&q2)), some4(24, 48, 48, -6));
    assert_eq!(parts(&q2.mul(&q1)), some4(32, 32, 56, -6));
    assert_eq!(q1.dot(&q2).get(), Some(5 + 12 + 21 + 32));
    assert_eq!(quaternion(1, 2, 2, 4).magnitude().get(), Some(5));
    assert_eq!(parts(&quaternion(0, 6, 0, 8).div(w(2))), some4(0, 3, 0, 4));
    assert_eq!(parts(&quaternion(0, 0, 0, -3).normalize()), some4(0, 0, 0, -1));
    // the norm of (1, 1, 1, 1) is two: the quotients are not whole
    assert_eq!(parts(&quaternion(1, 1, 1, 1).normalize()), [None; 4]);
    // a quaternion of norm zero is divided by zero
    assert_eq!(parts(&quaternion(0, 0, 0, 0).normalize()), [None; 4]);
}

#[test]
fn whole_rotation_agrees_with_conjugation() {
    let v = vector(2, 1, 3);
    for q in [
        quaternion(1, 0, 0, 0),
        quaternion(0, 1, 0, 0),
        quaternion(0, 0, 1, 0),
        quaternion(0, 0, 0, 1),
        quaternion(0, 0, -1, 0),
    ] {
        let r = q.to_rotation_matrix();
        let u = r.apply(&v);
        let uhat = q.mul(&Quaternion::lift(&v)).mul(&q.conj());
        assert_eq!(coordinates(&u), coordinates(&uhat.v));
        assert_eq!(uhat.w.get(), Some(0));
        assert_eq!(
            entries(&r.mul(&r.transpose())),
            some9([1, 0, 0, 0, 1, 0, 0, 0, 1])
        );
    }
    let half_turn = quaternion(0, 0, 1, 0).to_rotation_matrix();
    assert_eq!(coordinates(&half_turn.apply(&v)), some3(-2, -1, 3));
}

#[test]
fn whole_rotation_by_no_angle() {
    let q = Quaternion::from_rotation(&vector(0, 1, 0), w(0));
    assert_eq!(parts(&q), some4(0, 0, 0, 1));
    let lost = Quaternion::from_rotation(&vector(0, 1, 0), w(2));
    assert_eq!(parts(&lost), [None; 4]);
}

#[test]
fn whole_matrix_products_and_transpose() {
    let a = matrix([1, 2, 3, 5, 6, 7, 9, 8, 7]);
    let b = matrix([-2, 1, 2, 3, 2, 1, 4, 3, 6]);
    assert_eq!(entries(&a.mul(&b)), some9([16, 14, 22, 36, 38, 58, 34, 46, 68]));
    assert_eq!(entries(&a.transpose()), some9([1, 5, 9, 2, 6, 8, 3, 7, 7]));
    assert_eq!(coordinates(&a.apply(&vector(1, 0, -1))), some3(-2, -2, 2));
    assert_eq!(entries(&Matrix::identity()), some9([1, 0, 0, 0, 1, 0, 0, 0, 1]));
}

#[test]
fn whole_inverse_of_a_matrix_of_determinant_one() {
    let a = matrix([2, 3, 1, 1, 2, 1, 1, 1, 1]);
    assert_eq!(a.det().get(), Some(1));
    let b = a.inverse().unwrap();
    assert_eq!(entries(&b), some9([1, -2, 1, 0, 1, -1, -1, 1, 1]));
    assert_eq!(entries(&a.mul(&b)), some9([1, 0, 0, 0, 1, 0, 0, 0, 1]));
    assert_eq!(entries(&b.mul(&a)), some9([1, 0, 0, 0, 1, 0, 0, 0, 1]));
    assert_eq!(entries(&b.inverse().unwrap()), entries(&a));
    let c = matrix([0, 1, 0, 1, 0, 0, 0, 0, 1]);
    assert_eq!(c.det().get(), Some(-1));
    assert_eq!(entries(&c.inverse().unwrap()), entries(&c));
}

#[test]
fn whole_inverse_is_refused_or_lost() {
    // determinant zero: refused
    assert!(matrix([1, 2, 3, 2, 4, 6, 0, 1, 5]).inverse().is_none());
    // determinant eight: the reciprocal is not whole
    let d = matrix([2, 0, 0, 0, 2, 0, 0, 0, 2]).inverse().unwrap();
    assert_eq!(entries(&d), [None; 9]);
}

#[test]
fn whole_step_follows_the_closed_form() {
    let mut world = World::new(vector(0, 0, -1));
    world
        .insert(
            5,
            w(1),
            &Matrix::identity(),
            &vector(-10, 0, 10),
            &quaternion(0, 0, 0, 1),
            &vector(1, 0, 0),
            &vector(0, 0, 0),
        )
        .unwrap();
    let mut t = w(0);
    t = world.step(t, w(6));
    assert_eq!(t.get(), Some(6));
    let o = world.object(0);
    assert_eq!(o.id, 5);
    // x = x0 + v t, z = z0 - t^2 / 2
    assert_eq!(coordinates(&o.state.x), some3(-4, 0, -8));
    assert_eq!(coordinates(&o.state.p), some3(1, 0, -6));
    assert_eq!(coordinates(&o.state.v), some3(1, 0, -6));
    assert_eq!(coordinates(&o.state.l), some3(0, 0, 0));
    assert_eq!(parts(&o.state.q), some4(0, 0, 0, 1));
    for n in 2..=10 {
        t = world.step(t, w(6));
        let o = world.object(0);
        let time = 6 * n;
        assert_eq!(t.get(), Some(time));
        assert_eq!(coordinates(&o.state.p), some3(1, 0, -time));
        assert_eq!(coordinates(&o.state.x), some3(-10 + time, 0, 10 - time * time / 2));
        assert_eq!(parts(&o.state.q), some4(0, 0, 0, 1));
    }
}

#[test]
fn whole_body_at_rest_stays_as_it_is() {
    let mut world = World::with_field(vector(0, 0, 0), vector(0, 0, 0));
    world
        .insert(
            0,
            w(1),
            &Matrix::identity(),
            &vector(3, -4, 5),
            &quaternion(0, -1, 0, 0),
            &vector(0, 0, 0),
            &vector(0, 0, 0),
        )
        .unwrap();
    for _ in 0..25 {
        world.step(w(0), w(6));
    }
    let o = world.object(0);
    assert_eq!(coordinates(&o.state.x), some3(3, -4, 5));
    assert_eq!(parts(&o.state.q), some4(0, -1, 0, 0));
    assert_eq!(coordinates(&o.state.p), some3(0, 0, 0));
    assert_eq!(coordinates(&o.state.l), some3(0, 0, 0));
}

#[test]
fn whole_step_that_does_not_divide_is_lost() {
    let mut world = World::new(vector(0, 0, -1));
    world
        .insert(
            0,
            w(1),
            &Matrix::identity(),
            &vector(0, 0, 0),
            &quaternion(0, 0, 0, 1),
            &vector(0, 0, 0),
            &vector(0, 0, 0),
        )
        .unwrap();
    // a step of four has no whole third
    let t = world.step(w(0), w(4));
    assert_eq!(t.get(), Some(4));
    assert_eq!(coordinates(&world.object(0).state.p), [None; 3]);
}

#[test]
fn whole_world_refuses_a_singular_tensor() {
    let mut world = World::new(vector(0, 0, -1));
    let refused = world.insert(
        0,
        w(1),
        &matrix([1, 0, 0, 0, 1, 0, 0, 0, 0]),
        &vector(0, 0, 0),
        &quaternion(0, 0, 0, 1),
        &vector(0, 0, 0),
        &vector(0, 0, 0),
    );
    assert_eq!(refused, Err(AddError::SingularInertia));
    assert_eq!(world.len(), 0);
}

#[test]
fn whole_state_is_built_from_the_integrated_variables() {
    let s = RigidBodyState::new(
        &vector(1, 2, 3),
        &quaternion(0, 0, 4, 0),
        &vector(4, 0, -2),
        &vector(1, 1, 1),
        w(3),
        &matrix([2, 0, 0, 0, 4, 0, 0, 0, 8]),
    );
    assert_eq!(parts(&s.q), some4(0, 0, 1, 0));
    assert_eq!(entries(&s.r), some9([-1, 0, 0, 0, -1, 0, 0, 0, 1]));
    assert_eq!(coordinates(&s.v), some3(12, 0, -6));
    assert_eq!(coordinates(&s.w), some3(2, 4, 8));
}
