//! The state of one rigid body at an instant, and its Runge-Kutta step.

use crate::matrix::{applied, transposed, Matrix};
use crate::quaternion::Quaternion;
use crate::scalar::Scalar;
use crate::vector::Vector;
use vstd::prelude::*;

verus! {

/// The state of a body: the four integrated variables, and the three that are
/// derived from them and from the body's inverse mass and inverse inertia.
#[derive(Clone, Copy, Debug)]
pub struct RigidBodyState<S: Scalar> {
    /// position
    pub x: Vector<S>,
    /// orientation
    pub q: Quaternion<S>,
    /// linear momentum
    pub p: Vector<S>,
    /// angular momentum, in the world frame
    pub l: Vector<S>,
    /// orientation matrix
    pub r: Matrix<S>,
    /// linear velocity
    pub v: Vector<S>,
    /// angular velocity, in the world frame
    pub w: Vector<S>,
}

/// A state with its matrix seen as its nine entries.
pub ghost struct StateView<S: Scalar> {
    pub x: Vector<S>,
    pub q: Quaternion<S>,
    pub p: Vector<S>,
    pub l: Vector<S>,
    pub r: Seq<S>,
    pub v: Vector<S>,
    pub w: Vector<S>,
}

impl<S: Scalar> View for RigidBodyState<S> {
    type V = StateView<S>;

    open spec fn view(&self) -> StateView<S> {
        StateView {
            x: self.x,
            q: self.q,
            p: self.p,
            l: self.l,
            r: self.r@,
            v: self.v,
            w: self.w,
        }
    }
}

/// The time derivative of the four integrated variables.
#[derive(Clone, Copy, Debug)]
pub struct Rates<S: Scalar> {
    pub dx: Vector<S>,
    pub dq: Quaternion<S>,
    pub dp: Vector<S>,
    pub dl: Vector<S>,
}

/// The angular velocity in the world frame: the angular momentum `l` taken to
/// the body frame by the transpose of `r`, through the body's inverse inertia,
/// and back by `r`.
pub open spec fn angular_velocity<S: Scalar>(
    r: Seq<S>,
    inv_inertia: Seq<S>,
    l: Vector<S>,
) -> Vector<S> {
    applied(r, applied(inv_inertia, applied(transposed(r), l)))
}

/// The state that the integrated variables `(x, q, p, l)` determine: `q` is
/// normalized, and the rotation matrix and the two velocities follow from it.
pub open spec fn derived<S: Scalar>(
    x: Vector<S>,
    q: Quaternion<S>,
    p: Vector<S>,
    l: Vector<S>,
    inv_mass: S,
    inv_inertia: Seq<S>,
) -> StateView<S> {
    let q = q.spec_normalize();
    let r = q.spec_rotation();
    StateView { x, q, p, l, r, v: p.spec_mul(inv_mass), w: angular_velocity(r, inv_inertia, l) }
}

/// Whether the derived variables of `s` are those that its integrated
/// variables give, for a body of this inverse mass and inverse inertia.
pub open spec fn consistent<S: Scalar>(s: StateView<S>, inv_mass: S, inv_inertia: Seq<S>) -> bool {
    &&& s.r == s.q.spec_rotation()
    &&& s.v == s.p.spec_mul(inv_mass)
    &&& s.w == angular_velocity(s.r, inv_inertia, s.l)
}

/// The derivative of the state `s` under a constant force and torque: the
/// position moves by the velocity, the orientation by half the angular
/// velocity, as a quaternion, times the orientation from the left, the
/// momenta by the force and the torque.
pub open spec fn rates<S: Scalar>(
    s: StateView<S>,
    force: Vector<S>,
    torque: Vector<S>,
) -> Rates<S> {
    Rates {
        dx: s.v,
        dq: Quaternion::spec_lift(s.w.spec_div(S::of_int(2))).spec_mul(s.q),
        dp: force,
        dl: torque,
    }
}

/// The state reached from `s0` along the derivative `a` for the time `h`.
pub open spec fn stage<S: Scalar>(
    s0: StateView<S>,
    a: Rates<S>,
    h: S,
    inv_mass: S,
    inv_inertia: Seq<S>,
) -> StateView<S> {
    derived(
        s0.x.spec_add(a.dx.spec_mul(h)),
        s0.q.spec_add(a.dq.spec_scale(h)),
        s0.p.spec_add(a.dp.spec_mul(h)),
        s0.l.spec_add(a.dl.spec_mul(h)),
        inv_mass,
        inv_inertia,
    )
}

/// `s + a1 sixth + a2 third + a3 third + a4 sixth`, summed from left to right.
pub open spec fn blend<S: Scalar>(
    s: Vector<S>,
    a1: Vector<S>,
    a2: Vector<S>,
    a3: Vector<S>,
    a4: Vector<S>,
    sixth: S,
    third: S,
) -> Vector<S> {
    s.spec_add(a1.spec_mul(sixth)).spec_add(a2.spec_mul(third)).spec_add(
        a3.spec_mul(third),
    ).spec_add(a4.spec_mul(sixth))
}

/// The same weighted sum, of quaternions taken as vectors of four coordinates.
pub open spec fn blend_quaternion<S: Scalar>(
    s: Quaternion<S>,
    a1: Quaternion<S>,
    a2: Quaternion<S>,
    a3: Quaternion<S>,
    a4: Quaternion<S>,
    sixth: S,
    third: S,
) -> Quaternion<S> {
    s.spec_add(a1.spec_scale(sixth)).spec_add(a2.spec_scale(third)).spec_add(
        a3.spec_scale(third),
    ).spec_add(a4.spec_scale(sixth))
}

/// One step of the classic fourth-order Runge-Kutta scheme, of length `dt`:
///
/// - `a1` is the derivative at `s0`, and `b1` lies `dt / 2` along `a1`;
/// - `a2` is the derivative at `b1`, and `b2` lies `dt / 2` along `a2`;
/// - `a3` is the derivative at `b2`, and `b3` lies `dt` along `a3`;
/// - `a4` is the derivative at `b3`;
/// - the result is `s0 + (dt / 6) a1 + (dt / 3) a2 + (dt / 3) a3 + (dt / 6) a4`,
///   normalized and completed by [`derived`].
pub open spec fn runge_kutta<S: Scalar>(
    s0: StateView<S>,
    inv_mass: S,
    inv_inertia: Seq<S>,
    force: Vector<S>,
    torque: Vector<S>,
    dt: S,
) -> StateView<S> {
    let half = dt.quotient(S::of_int(2));
    let third = dt.quotient(S::of_int(3));
    let sixth = dt.quotient(S::of_int(6));
    let a1 = rates(s0, force, torque);
    let b1 = stage(s0, a1, half, inv_mass, inv_inertia);
    let a2 = rates(b1, force, torque);
    let b2 = stage(s0, a2, half, inv_mass, inv_inertia);
    let a3 = rates(b2, force, torque);
    let b3 = stage(s0, a3, dt, inv_mass, inv_inertia);
    let a4 = rates(b3, force, torque);
    derived(
        blend(s0.x, a1.dx, a2.dx, a3.dx, a4.dx, sixth, third),
        blend_quaternion(s0.q, a1.dq, a2.dq, a3.dq, a4.dq, sixth, third),
        blend(s0.p, a1.dp, a2.dp, a3.dp, a4.dp, sixth, third),
        blend(s0.l, a1.dl, a2.dl, a3.dl, a4.dl, sixth, third),
        inv_mass,
        inv_inertia,
    )
}

/// Computes [`blend`].
fn weigh<S: Scalar>(
    s: &Vector<S>,
    a1: &Vector<S>,
    a2: &Vector<S>,
    a3: &Vector<S>,
    a4: &Vector<S>,
    sixth: S,
    third: S,
) -> (r: Vector<S>)
    ensures
        r == blend(*s, *a1, *a2, *a3, *a4, sixth, third),
{
    s.add(&a1.mul(sixth)).add(&a2.mul(third)).add(&a3.mul(third)).add(&a4.mul(sixth))
}

/// Computes [`blend_quaternion`].
fn weigh_quaternion<S: Scalar>(
    s: &Quaternion<S>,
    a1: &Quaternion<S>,
    a2: &Quaternion<S>,
    a3: &Quaternion<S>,
    a4: &Quaternion<S>,
    sixth: S,
    third: S,
) -> (r: Quaternion<S>)
    ensures
        r == blend_quaternion(*s, *a1, *a2, *a3, *a4, sixth, third),
{
    s.add(&a1.scale(sixth)).add(&a2.scale(third)).add(&a3.scale(third)).add(&a4.scale(sixth))
}

impl<S: Scalar> RigidBodyState<S> {
    /// Builds the state from the integrated variables. This is the one place
    /// where the rotation matrix and the velocities are computed.
    pub fn new(
        x: &Vector<S>,
        q: &Quaternion<S>,
        p: &Vector<S>,
        l: &Vector<S>,
        inv_mass: S,
        inv_inertia: &Matrix<S>,
    ) -> (s: Self)
        ensures
            s@ == derived(*x, *q, *p, *l, inv_mass, inv_inertia@),
            consistent(s@, inv_mass, inv_inertia@),
    {
        let q = q.normalize();
        let r = q.to_rotation_matrix();
        let v = p.mul(inv_mass);
        let w = r.apply(&inv_inertia.apply(&r.transpose().apply(l)));
        RigidBodyState { x: *x, q, p: *p, l: *l, r, v, w }
    }

    /// The derivative of this state under the given force and torque.
    pub fn rates(&self, force: &Vector<S>, torque: &Vector<S>) -> (a: Rates<S>)
        ensures
            a == rates(self@, *force, *torque),
    {
        Rates {
            dx: self.v,
            dq: Quaternion::lift(&self.w.div(S::from_int(2))).mul(&self.q),
            dp: *force,
            dl: *torque,
        }
    }

    /// The state reached from this one along `a` for the time `h`.
    pub fn advance(&self, a: &Rates<S>, h: S, inv_mass: S, inv_inertia: &Matrix<S>) -> (s: Self)
        ensures
            s@ == stage(self@, *a, h, inv_mass, inv_inertia@),
            consistent(s@, inv_mass, inv_inertia@),
    {
        let x = self.x.add(&a.dx.mul(h));
        let q = self.q.add(&a.dq.scale(h));
        let p = self.p.add(&a.dp.mul(h));
        let l = self.l.add(&a.dl.mul(h));
        RigidBodyState::new(&x, &q, &p, &l, inv_mass, inv_inertia)
    }

    /// The state one Runge-Kutta step of length `dt` later.
    pub fn step(
        &self,
        inv_mass: S,
        inv_inertia: &Matrix<S>,
        force: &Vector<S>,
        torque: &Vector<S>,
        dt: S,
    ) -> (s: Self)
        ensures
            s@ == runge_kutta(self@, inv_mass, inv_inertia@, *force, *torque, dt),
            consistent(s@, inv_mass, inv_inertia@),
    {
        let halfdt = dt.over(S::from_int(2));
        let thirddt = dt.over(S::from_int(3));
        let sixthdt = dt.over(S::from_int(6));

        let a1 = self.rates(force, torque);
        let b1 = self.advance(&a1, halfdt, inv_mass, inv_inertia);
        let a2 = b1.rates(force, torque);
        let b2 = self.advance(&a2, halfdt, inv_mass, inv_inertia);
        let a3 = b2.rates(force, torque);
        let b3 = self.advance(&a3, dt, inv_mass, inv_inertia);
        let a4 = b3.rates(force, torque);

        let x = weigh(&self.x, &a1.dx, &a2.dx, &a3.dx, &a4.dx, sixthdt, thirddt);
        let q = weigh_quaternion(&self.q, &a1.dq, &a2.dq, &a3.dq, &a4.dq, sixthdt, thirddt);
        let p = weigh(&self.p, &a1.dp, &a2.dp, &a3.dp, &a4.dp, sixthdt, thirddt);
        let l = weigh(&self.l, &a1.dl, &a2.dl, &a3.dl, &a4.dl, sixthdt, thirddt);
        RigidBodyState::new(&x, &q, &p, &l, inv_mass, inv_inertia)
    }
}

} // verus!
