//! Laws of the integrator: what a step, and any number of steps, do to the
//! momenta, the position and the orientation of a body.

use crate::exact::{group_exact, Exact, QuaternionValue, VectorValue};
use crate::laws::algebra::{
    lemma_half_of_zero, lemma_one_more, lemma_parabola_more, lemma_parabola_step,
    lemma_scaled_sum, lemma_times_zero, lemma_weights,
};
use crate::laws::quaternions::{
    law_normalize_keeps_unit, law_normalize_unit, law_product_is_hamilton, norm_squared,
};
use crate::matrix::{applied, transposed};
use crate::quaternion::Quaternion;
use crate::scalar::Scalar;
use crate::state::{
    angular_velocity, blend, blend_quaternion, consistent, derived, rates, runge_kutta, stage,
    Rates, StateView,
};
use crate::vector::Vector;
use crate::world::{after_steps, ObjectView};
use vstd::prelude::*;

verus! {

/// The vector of three zeros.
pub open spec fn origin() -> VectorValue {
    VectorValue { x: 0real, y: 0real, z: 0real }
}

/// The vector `p + k f`.
pub open spec fn moved(p: VectorValue, f: VectorValue, k: real) -> VectorValue {
    VectorValue { x: p.x + k * f.x, y: p.y + k * f.y, z: p.z + k * f.z }
}

/// The orientation of a state built from integrated variables is of norm
/// one, whatever the norm of the quaternion it was built from.
#[verifier::spinoff_prover]
pub proof fn law_derived_orientation_unit<S: Exact>(
    x: Vector<S>,
    q: Quaternion<S>,
    p: Vector<S>,
    l: Vector<S>,
    inv_mass: S,
    inv_inertia: Seq<S>,
)
    requires
        derived(x, q, p, l, inv_mass, inv_inertia).q.exact(),
    ensures
        norm_squared(derived(x, q, p, l, inv_mass, inv_inertia).q.value()) == 1real,
{
    law_normalize_unit(q);
}

/// The orientation that a step ends with is of norm one: each step ends by
/// normalizing it.
#[verifier::spinoff_prover]
pub proof fn law_step_orientation_unit<S: Exact>(
    s0: StateView<S>,
    inv_mass: S,
    inv_inertia: Seq<S>,
    force: Vector<S>,
    torque: Vector<S>,
    dt: S,
)
    requires
        runge_kutta(s0, inv_mass, inv_inertia, force, torque, dt).q.exact(),
    ensures
        norm_squared(runge_kutta(s0, inv_mass, inv_inertia, force, torque, dt).q.value()) == 1real,
{
    let half = dt.quotient(S::of_int(2));
    let third = dt.quotient(S::of_int(3));
    let sixth = dt.quotient(S::of_int(6));
    let a1 = rates(s0, force, torque);
    let b1 = stage(s0, a1, half, inv_mass, inv_inertia);
    let a2 = rates(b1, force, torque);
    let b2 = stage(s0, a2, half, inv_mass, inv_inertia);
    let a3 = rates(b2, force, torque);
    let b3 = stage(s0, a3, dt, inv_mass, inv_inertia);
    let a4 = rates(b3, force, torque);
    law_normalize_unit(blend_quaternion(s0.q, a1.dq, a2.dq, a3.dq, a4.dq, sixth, third));
}

/// After any number of steps, at least one, the orientation of a body is of
/// norm one.
#[verifier::spinoff_prover]
pub proof fn law_orientation_stays_unit<S: Exact>(
    o: ObjectView<S>,
    force: Vector<S>,
    torque: Vector<S>,
    dt: S,
    n: nat,
)
    requires
        n >= 1,
        after_steps(o, force, torque, dt, n).state.q.exact(),
    ensures
        norm_squared(after_steps(o, force, torque, dt, n).state.q.value()) == 1real,
{
    let before = after_steps(o, force, torque, dt, (n - 1) as nat);
    law_step_orientation_unit(
        before.state,
        before.inv_mass,
        before.inv_inertia,
        force,
        torque,
        dt,
    );
}

/// The weighted sum of four equal rates `f`, with the weights `dt / 6` and
/// `dt / 3`, is `s + dt f`.
#[verifier::spinoff_prover]
proof fn lemma_blend_constant<S: Exact>(s: Vector<S>, f: Vector<S>, sixth: S, third: S, dt: S)
    requires
        sixth == dt.quotient(S::of_int(6)),
        third == dt.quotient(S::of_int(3)),
        blend(s, f, f, f, f, sixth, third).exact(),
    ensures
        s.exact(),
        f.exact(),
        dt.exact(),
        blend(s, f, f, f, f, sixth, third).value() == moved(s.value(), f.value(), dt.value()),
{
    broadcast use group_exact;

    let b = blend(s, f, f, f, f, sixth, third);
    assert(b.x == s.x.sum(f.x.product(sixth)).sum(f.x.product(third)).sum(
        f.x.product(third),
    ).sum(f.x.product(sixth)));
    assert(sixth.exact() && third.exact());
    assert(sixth.value() * 6real == dt.value());
    assert(third.value() * 3real == dt.value());
    lemma_weights(s.x.value(), f.x.value(), sixth.value(), third.value(), dt.value());
    lemma_weights(s.y.value(), f.y.value(), sixth.value(), third.value(), dt.value());
    lemma_weights(s.z.value(), f.z.value(), sixth.value(), third.value(), dt.value());
}

/// One step adds `dt` times the force to the linear momentum, and `dt` times
/// the torque to the angular momentum: on a constant derivative the scheme
/// is exact.
#[verifier::spinoff_prover]
pub proof fn law_step_momentum<S: Exact>(
    s0: StateView<S>,
    inv_mass: S,
    inv_inertia: Seq<S>,
    force: Vector<S>,
    torque: Vector<S>,
    dt: S,
)
    requires
        runge_kutta(s0, inv_mass, inv_inertia, force, torque, dt).p.exact(),
        runge_kutta(s0, inv_mass, inv_inertia, force, torque, dt).l.exact(),
    ensures
        s0.p.exact(),
        s0.l.exact(),
        force.exact(),
        torque.exact(),
        dt.exact(),
        runge_kutta(s0, inv_mass, inv_inertia, force, torque, dt).p.value() == moved(
            s0.p.value(),
            force.value(),
            dt.value(),
        ),
        runge_kutta(s0, inv_mass, inv_inertia, force, torque, dt).l.value() == moved(
            s0.l.value(),
            torque.value(),
            dt.value(),
        ),
{
    let sixth = dt.quotient(S::of_int(6));
    let third = dt.quotient(S::of_int(3));
    let s1 = runge_kutta(s0, inv_mass, inv_inertia, force, torque, dt);
    assert(s1.p == blend(s0.p, force, force, force, force, sixth, third));
    assert(s1.l == blend(s0.l, torque, torque, torque, torque, sixth, third));
    lemma_blend_constant(s0.p, force, sixth, third, dt);
    lemma_blend_constant(s0.l, torque, sixth, third, dt);
}

/// After `n` steps of length `dt` the linear momentum has grown by `n dt`
/// times the force, and the angular momentum by `n dt` times the torque.
#[verifier::spinoff_prover]
pub proof fn law_momentum_after_steps<S: Exact>(
    o: ObjectView<S>,
    force: Vector<S>,
    torque: Vector<S>,
    dt: S,
    n: nat,
)
    requires
        after_steps(o, force, torque, dt, n).state.p.exact(),
        after_steps(o, force, torque, dt, n).state.l.exact(),
        force.exact(),
        torque.exact(),
        dt.exact(),
    ensures
        o.state.p.exact(),
        o.state.l.exact(),
        after_steps(o, force, torque, dt, n).state.p.value() == moved(
            o.state.p.value(),
            force.value(),
            n as real * dt.value(),
        ),
        after_steps(o, force, torque, dt, n).state.l.value() == moved(
            o.state.l.value(),
            torque.value(),
            n as real * dt.value(),
        ),
    decreases n,
{
    if n == 0 {
        assert(0real * dt.value() == 0real);
        assert(0real * force.value().x == 0real && 0real * force.value().y == 0real && 0real *
            force.value().z == 0real);
        assert(0real * torque.value().x == 0real && 0real * torque.value().y == 0real && 0real *
            torque.value().z
            == 0real);
    } else {
        let before = after_steps(o, force, torque, dt, (n - 1) as nat);
        law_step_momentum(before.state, before.inv_mass, before.inv_inertia, force, torque, dt);
        law_momentum_after_steps(o, force, torque, dt, (n - 1) as nat);
        let d = dt.value();
        lemma_one_more((n - 1) as real, d);
        lemma_scaled_sum((n - 1) as real * d, d, force.value().x);
        lemma_scaled_sum((n - 1) as real * d, d, force.value().y);
        lemma_scaled_sum((n - 1) as real * d, d, force.value().z);
        lemma_scaled_sum((n - 1) as real * d, d, torque.value().x);
        lemma_scaled_sum((n - 1) as real * d, d, torque.value().y);
        lemma_scaled_sum((n - 1) as real * d, d, torque.value().z);
    }
}

/// A vector that has not moved: `s + f h` where `f` is zero.
#[verifier::spinoff_prover]
proof fn lemma_unmoved<S: Exact>(s: Vector<S>, f: Vector<S>, h: S)
    requires
        s.spec_add(f.spec_mul(h)).exact(),
        f.value() == origin(),
    ensures
        s.exact(),
        s.spec_add(f.spec_mul(h)).value() == s.value(),
{
    broadcast use group_exact;

    lemma_times_zero(f.x.value(), h.value());
    lemma_times_zero(f.y.value(), h.value());
    lemma_times_zero(f.z.value(), h.value());
}

/// A matrix times the zero vector is the zero vector.
#[verifier::spinoff_prover]
proof fn lemma_apply_zero<S: Exact>(m: Seq<S>, v: Vector<S>)
    requires
        applied(m, v).exact(),
        v.exact() ==> v.value() == origin(),
    ensures
        v.exact(),
        applied(m, v).value() == origin(),
{
    broadcast use group_exact;

    assert(v.exact());
    lemma_times_zero(v.x.value(), m[0].value());
    lemma_times_zero(v.y.value(), m[1].value());
    lemma_times_zero(v.z.value(), m[2].value());
    lemma_times_zero(v.x.value(), m[3].value());
    lemma_times_zero(v.y.value(), m[4].value());
    lemma_times_zero(v.z.value(), m[5].value());
    lemma_times_zero(v.x.value(), m[6].value());
    lemma_times_zero(v.y.value(), m[7].value());
    lemma_times_zero(v.z.value(), m[8].value());
}

/// Without angular momentum there is no angular velocity.
#[verifier::spinoff_prover]
proof fn lemma_no_spin<S: Exact>(r: Seq<S>, inv_inertia: Seq<S>, l: Vector<S>)
    requires
        angular_velocity(r, inv_inertia, l).exact(),
        l.exact() ==> l.value() == origin(),
    ensures
        l.exact(),
        angular_velocity(r, inv_inertia, l).value() == origin(),
{
    let t1 = applied(transposed(r), l);
    let t2 = applied(inv_inertia, t1);
    assert(t2.exact() && t1.exact()) by {
        broadcast use group_exact;

    }
    lemma_apply_zero(transposed(r), l);
    lemma_apply_zero(inv_inertia, t1);
    lemma_apply_zero(r, t2);
}

/// Without angular velocity the orientation has no rate of change.
#[verifier::spinoff_prover]
proof fn lemma_no_turn<S: Exact>(w: Vector<S>, q: Quaternion<S>)
    requires
        Quaternion::spec_lift(w.spec_div(S::of_int(2))).spec_mul(q).exact(),
        w.exact() ==> w.value() == origin(),
    ensures
        q.exact(),
        Quaternion::spec_lift(w.spec_div(S::of_int(2))).spec_mul(q).value() == (QuaternionValue {
            x: 0real,
            y: 0real,
            z: 0real,
            w: 0real,
        }),
{
    let h = Quaternion::spec_lift(w.spec_div(S::of_int(2)));
    law_product_is_hamilton(h, q);
    assert(h.value() == QuaternionValue { x: 0real, y: 0real, z: 0real, w: 0real }) by {
        broadcast use group_exact;

        let two = S::of_int(2).value();
        lemma_half_of_zero(h.v.x.value(), two);
        lemma_half_of_zero(h.v.y.value(), two);
        lemma_half_of_zero(h.v.z.value(), two);
    }
    let v = q.value();
    lemma_times_zero(0real, v.x);
    lemma_times_zero(0real, v.y);
    lemma_times_zero(0real, v.z);
    lemma_times_zero(0real, v.w);
}

/// A quaternion that has not moved: `s + a h` where `a` is zero.
#[verifier::spinoff_prover]
proof fn lemma_unturned<S: Exact>(s: Quaternion<S>, a: Quaternion<S>, h: S)
    requires
        s.spec_add(a.spec_scale(h)).exact(),
        a.value() == (QuaternionValue { x: 0real, y: 0real, z: 0real, w: 0real }),
    ensures
        s.exact(),
        s.spec_add(a.spec_scale(h)).value() == s.value(),
{
    broadcast use group_exact;

    lemma_times_zero(a.v.x.value(), h.value());
    lemma_times_zero(a.v.y.value(), h.value());
    lemma_times_zero(a.v.z.value(), h.value());
    lemma_times_zero(a.w.value(), h.value());
}

/// The rate of change of the orientation in a stage that has no angular
/// momentum and gains none.
#[verifier::spinoff_prover]
proof fn lemma_stage_no_turn<S: Exact>(
    s0: StateView<S>,
    a: Rates<S>,
    h: S,
    inv_mass: S,
    inv_inertia: Seq<S>,
    force: Vector<S>,
    torque: Vector<S>,
)
    requires
        a.dl == torque,
        torque.value() == origin(),
        s0.l.exact() ==> s0.l.value() == origin(),
        rates(stage(s0, a, h, inv_mass, inv_inertia), force, torque).dq.exact(),
    ensures
        rates(stage(s0, a, h, inv_mass, inv_inertia), force, torque).dq.value() == (
        QuaternionValue { x: 0real, y: 0real, z: 0real, w: 0real }),
{
    let b = stage(s0, a, h, inv_mass, inv_inertia);
    law_product_is_hamilton(Quaternion::spec_lift(b.w.spec_div(S::of_int(2))), b.q);
    assert(b.w.exact()) by {
        broadcast use group_exact;

    }
    assert(b.l == s0.l.spec_add(torque.spec_mul(h)));
    assert(b.w == angular_velocity(b.r, inv_inertia, b.l));
    if b.l.exact() {
        lemma_unmoved(s0.l, torque, h);
    }
    lemma_no_spin(b.r, inv_inertia, b.l);
    lemma_no_turn(b.w, b.q);
}

/// Without angular momentum and without torque a body keeps its orientation,
/// where that is of norm one.
#[verifier::spinoff_prover]
pub proof fn law_step_keeps_orientation<S: Exact>(
    s0: StateView<S>,
    inv_mass: S,
    inv_inertia: Seq<S>,
    force: Vector<S>,
    torque: Vector<S>,
    dt: S,
)
    requires
        consistent(s0, inv_mass, inv_inertia),
        torque.value() == origin(),
        s0.l.exact() ==> s0.l.value() == origin(),
        s0.q.exact() ==> norm_squared(s0.q.value()) == 1real,
        runge_kutta(s0, inv_mass, inv_inertia, force, torque, dt).q.exact(),
    ensures
        s0.q.exact(),
        runge_kutta(s0, inv_mass, inv_inertia, force, torque, dt).q.value() == s0.q.value(),
{
    let half = dt.quotient(S::of_int(2));
    let third = dt.quotient(S::of_int(3));
    let sixth = dt.quotient(S::of_int(6));
    let a1 = rates(s0, force, torque);
    let b1 = stage(s0, a1, half, inv_mass, inv_inertia);
    let a2 = rates(b1, force, torque);
    let b2 = stage(s0, a2, half, inv_mass, inv_inertia);
    let a3 = rates(b2, force, torque);
    let b3 = stage(s0, a3, dt, inv_mass, inv_inertia);
    let a4 = rates(b3, force, torque);
    let s1 = runge_kutta(s0, inv_mass, inv_inertia, force, torque, dt);
    let raw = blend_quaternion(s0.q, a1.dq, a2.dq, a3.dq, a4.dq, sixth, third);
    assert(s1.q == raw.spec_normalize());
    let q1 = s0.q.spec_add(a1.dq.spec_scale(sixth));
    let q2 = q1.spec_add(a2.dq.spec_scale(third));
    let q3 = q2.spec_add(a3.dq.spec_scale(third));
    assert(raw == q3.spec_add(a4.dq.spec_scale(sixth)));
    assert(raw.exact() && q3.exact() && q2.exact() && q1.exact() && a1.dq.exact()
        && a2.dq.exact() && a3.dq.exact() && a4.dq.exact()) by {
        broadcast use group_exact;

    }
    law_product_is_hamilton(Quaternion::spec_lift(s0.w.spec_div(S::of_int(2))), s0.q);
    assert(s0.w.exact()) by {
        broadcast use group_exact;

    }
    lemma_no_spin(s0.r, inv_inertia, s0.l);
    lemma_no_turn(s0.w, s0.q);
    lemma_stage_no_turn(s0, a1, half, inv_mass, inv_inertia, force, torque);
    lemma_stage_no_turn(s0, a2, half, inv_mass, inv_inertia, force, torque);
    lemma_stage_no_turn(s0, a3, dt, inv_mass, inv_inertia, force, torque);
    lemma_unturned(s0.q, a1.dq, sixth);
    lemma_unturned(q1, a2.dq, third);
    lemma_unturned(q2, a3.dq, third);
    lemma_unturned(q3, a4.dq, sixth);
    law_normalize_keeps_unit(raw);
}

/// A step changes neither the constants of a body nor the agreement of its
/// derived variables with the integrated ones.
#[verifier::spinoff_prover]
pub proof fn lemma_steps_consistent<S: Scalar>(
    o: ObjectView<S>,
    force: Vector<S>,
    torque: Vector<S>,
    dt: S,
    n: nat,
)
    requires
        consistent(o.state, o.inv_mass, o.inv_inertia),
    ensures
        after_steps(o, force, torque, dt, n).id == o.id,
        after_steps(o, force, torque, dt, n).inv_mass == o.inv_mass,
        after_steps(o, force, torque, dt, n).inv_inertia == o.inv_inertia,
        consistent(after_steps(o, force, torque, dt, n).state, o.inv_mass, o.inv_inertia),
    decreases n,
{
    if n > 0 {
        lemma_steps_consistent(o, force, torque, dt, (n - 1) as nat);
    }
}

/// The orientation before a step is exact where the one after it is.
#[verifier::spinoff_prover]
proof fn lemma_step_orientation_exact<S: Exact>(
    s0: StateView<S>,
    inv_mass: S,
    inv_inertia: Seq<S>,
    force: Vector<S>,
    torque: Vector<S>,
    dt: S,
)
    requires
        runge_kutta(s0, inv_mass, inv_inertia, force, torque, dt).q.exact(),
    ensures
        s0.q.exact(),
{
    broadcast use group_exact;

    let half = dt.quotient(S::of_int(2));
    let third = dt.quotient(S::of_int(3));
    let sixth = dt.quotient(S::of_int(6));
    let a1 = rates(s0, force, torque);
    let b1 = stage(s0, a1, half, inv_mass, inv_inertia);
    let a2 = rates(b1, force, torque);
    let b2 = stage(s0, a2, half, inv_mass, inv_inertia);
    let a3 = rates(b2, force, torque);
    let b3 = stage(s0, a3, dt, inv_mass, inv_inertia);
    let a4 = rates(b3, force, torque);
    let raw = blend_quaternion(s0.q, a1.dq, a2.dq, a3.dq, a4.dq, sixth, third);
    assert(runge_kutta(s0, inv_mass, inv_inertia, force, torque, dt).q == raw.spec_normalize());
    assert(raw.v.x.quotient(raw.spec_magnitude()).exact());
    assert(raw.exact());
}

/// Under no force and no torque a body keeps its momenta and moves in a
/// straight line: after `n` steps of length `dt` its position has grown by
/// `n dt` times its velocity. A body without momentum stays where it is.
#[verifier::spinoff_prover]
pub proof fn law_free_motion<S: Exact>(
    o: ObjectView<S>,
    force: Vector<S>,
    torque: Vector<S>,
    dt: S,
    n: nat,
)
    requires
        consistent(o.state, o.inv_mass, o.inv_inertia),
        force.exact(),
        torque.exact(),
        dt.exact(),
        o.inv_mass.exact(),
        force.value() == origin(),
        torque.value() == origin(),
        after_steps(o, force, torque, dt, n).state.x.exact(),
        after_steps(o, force, torque, dt, n).state.p.exact(),
        after_steps(o, force, torque, dt, n).state.l.exact(),
    ensures
        o.state.x.exact(),
        o.state.p.exact(),
        o.state.l.exact(),
        after_steps(o, force, torque, dt, n).state.p.value() == o.state.p.value(),
        after_steps(o, force, torque, dt, n).state.l.value() == o.state.l.value(),
        after_steps(o, force, torque, dt, n).state.x.value() == moved(
            o.state.x.value(),
            VectorValue {
                x: o.state.p.x.value() * o.inv_mass.value(),
                y: o.state.p.y.value() * o.inv_mass.value(),
                z: o.state.p.z.value() * o.inv_mass.value(),
            },
            n as real * dt.value(),
        ),
{
    let t = n as real * dt.value();
    let m = o.inv_mass.value();
    law_momentum_after_steps(o, force, torque, dt, n);
    law_constant_force_motion(o, force, torque, dt, n);
    lemma_times_zero(0real, t);
    lemma_times_zero(0real, m);
    lemma_times_zero(0real, t * t);
}

/// Under no torque a body without angular momentum keeps its orientation,
/// where that is of norm one, through any number of steps.
#[verifier::spinoff_prover]
pub proof fn law_free_orientation<S: Exact>(
    o: ObjectView<S>,
    force: Vector<S>,
    torque: Vector<S>,
    dt: S,
    n: nat,
)
    requires
        consistent(o.state, o.inv_mass, o.inv_inertia),
        force.exact(),
        torque.exact(),
        dt.exact(),
        torque.value() == origin(),
        o.state.l.exact() ==> o.state.l.value() == origin(),
        o.state.q.exact() ==> norm_squared(o.state.q.value()) == 1real,
        after_steps(o, force, torque, dt, n).state.q.exact(),
        after_steps(o, force, torque, dt, n).state.p.exact(),
        after_steps(o, force, torque, dt, n).state.l.exact(),
    ensures
        o.state.q.exact(),
        after_steps(o, force, torque, dt, n).state.q.value() == o.state.q.value(),
    decreases n,
{
    if n > 0 {
        let before = after_steps(o, force, torque, dt, (n - 1) as nat);
        lemma_steps_consistent(o, force, torque, dt, (n - 1) as nat);
        lemma_step_orientation_exact(
            before.state,
            o.inv_mass,
            o.inv_inertia,
            force,
            torque,
            dt,
        );
        law_step_momentum(before.state, o.inv_mass, o.inv_inertia, force, torque, dt);
        law_free_orientation(o, force, torque, dt, (n - 1) as nat);
        law_momentum_after_steps(o, force, torque, dt, (n - 1) as nat);
        lemma_times_zero(torque.value().x, (n - 1) as real * dt.value());
        lemma_times_zero(torque.value().y, (n - 1) as real * dt.value());
        lemma_times_zero(torque.value().z, (n - 1) as real * dt.value());
        law_step_keeps_orientation(
            before.state,
            o.inv_mass,
            o.inv_inertia,
            force,
            torque,
            dt,
        );
    }
}

/// Where a body that starts at `x` with the momentum `p` is after the time
/// `t` under the constant force `f`, for the inverse mass `m`:
/// `x + t (p m) + t^2 (f m) / 2`.
pub open spec fn parabola(
    x: VectorValue,
    p: VectorValue,
    f: VectorValue,
    m: real,
    t: real,
) -> VectorValue {
    VectorValue {
        x: x.x + t * (p.x * m) + ((t * t) * (f.x * m)) / 2real,
        y: x.y + t * (p.y * m) + ((t * t) * (f.y * m)) / 2real,
        z: x.z + t * (p.z * m) + ((t * t) * (f.z * m)) / 2real,
    }
}

/// One step under a constant force moves a body along the parabola of free
/// fall: for such motion the scheme makes no error.
#[verifier::spinoff_prover]
pub proof fn law_step_position<S: Exact>(
    s0: StateView<S>,
    inv_mass: S,
    inv_inertia: Seq<S>,
    force: Vector<S>,
    torque: Vector<S>,
    dt: S,
)
    requires
        consistent(s0, inv_mass, inv_inertia),
        runge_kutta(s0, inv_mass, inv_inertia, force, torque, dt).x.exact(),
    ensures
        s0.x.exact(),
        s0.p.exact(),
        force.exact(),
        inv_mass.exact(),
        dt.exact(),
        runge_kutta(s0, inv_mass, inv_inertia, force, torque, dt).x.value() == parabola(
            s0.x.value(),
            s0.p.value(),
            force.value(),
            inv_mass.value(),
            dt.value(),
        ),
{
    let half = dt.quotient(S::of_int(2));
    let third = dt.quotient(S::of_int(3));
    let sixth = dt.quotient(S::of_int(6));
    let a1 = rates(s0, force, torque);
    let b1 = stage(s0, a1, half, inv_mass, inv_inertia);
    let a2 = rates(b1, force, torque);
    let b2 = stage(s0, a2, half, inv_mass, inv_inertia);
    let a3 = rates(b2, force, torque);
    let b3 = stage(s0, a3, dt, inv_mass, inv_inertia);
    let a4 = rates(b3, force, torque);
    let s1 = runge_kutta(s0, inv_mass, inv_inertia, force, torque, dt);
    let x1 = blend(s0.x, a1.dx, a2.dx, a3.dx, a4.dx, sixth, third);
    assert(s1.x == x1);
    assert(a1.dx == s0.p.spec_mul(inv_mass));
    assert(a2.dx == s0.p.spec_add(force.spec_mul(half)).spec_mul(inv_mass));
    assert(a3.dx == s0.p.spec_add(force.spec_mul(half)).spec_mul(inv_mass));
    assert(a4.dx == s0.p.spec_add(force.spec_mul(dt)).spec_mul(inv_mass));
    let x = s0.x.value();
    let p = s0.p.value();
    let f = force.value();
    let m = inv_mass.value();
    let h = half.value();
    let t = third.value();
    let s = sixth.value();
    let d = dt.value();
    assert(s0.x.exact() && s0.p.exact() && force.exact() && inv_mass.exact() && dt.exact()
        && half.exact() && third.exact() && sixth.exact() && h * 2real == d && t * 3real == d && s
        * 6real == d && x1.value() == (VectorValue {
        x: x.x + (p.x * m) * s + ((p.x + f.x * h) * m) * t + ((p.x + f.x * h) * m) * t + ((p.x
            + f.x * d) * m) * s,
        y: x.y + (p.y * m) * s + ((p.y + f.y * h) * m) * t + ((p.y + f.y * h) * m) * t + ((p.y
            + f.y * d) * m) * s,
        z: x.z + (p.z * m) * s + ((p.z + f.z * h) * m) * t + ((p.z + f.z * h) * m) * t + ((p.z
            + f.z * d) * m) * s,
    })) by {
        broadcast use group_exact;

    }
    lemma_parabola_step(x.x, p.x, f.x, m, h, t, s, d);
    lemma_parabola_step(x.y, p.y, f.y, m, h, t, s, d);
    lemma_parabola_step(x.z, p.z, f.z, m, h, t, s, d);
}

/// Under a constant force a body follows the parabola of free fall through
/// any number of steps: after `n` steps of length `dt` it is where the closed
/// form of the motion puts it at the time `n dt`.
#[verifier::spinoff_prover]
pub proof fn law_constant_force_motion<S: Exact>(
    o: ObjectView<S>,
    force: Vector<S>,
    torque: Vector<S>,
    dt: S,
    n: nat,
)
    requires
        consistent(o.state, o.inv_mass, o.inv_inertia),
        force.exact(),
        torque.exact(),
        dt.exact(),
        o.inv_mass.exact(),
        after_steps(o, force, torque, dt, n).state.x.exact(),
        after_steps(o, force, torque, dt, n).state.p.exact(),
        after_steps(o, force, torque, dt, n).state.l.exact(),
    ensures
        o.state.x.exact(),
        o.state.p.exact(),
        after_steps(o, force, torque, dt, n).state.x.value() == parabola(
            o.state.x.value(),
            o.state.p.value(),
            force.value(),
            o.inv_mass.value(),
            n as real * dt.value(),
        ),
    decreases n,
{
    let x = o.state.x.value();
    let p = o.state.p.value();
    let f = force.value();
    let m = o.inv_mass.value();
    let d = dt.value();
    if n == 0 {
        lemma_times_zero(0real, d);
        lemma_times_zero(0real, p.x * m);
        lemma_times_zero(0real, p.y * m);
        lemma_times_zero(0real, p.z * m);
        lemma_times_zero(0real, f.x * m);
        lemma_times_zero(0real, f.y * m);
        lemma_times_zero(0real, f.z * m);
        lemma_times_zero(0real, 0real);
    } else {
        let before = after_steps(o, force, torque, dt, (n - 1) as nat);
        lemma_steps_consistent(o, force, torque, dt, (n - 1) as nat);
        law_step_momentum(before.state, o.inv_mass, o.inv_inertia, force, torque, dt);
        law_step_position(before.state, o.inv_mass, o.inv_inertia, force, torque, dt);
        law_constant_force_motion(o, force, torque, dt, (n - 1) as nat);
        law_momentum_after_steps(o, force, torque, dt, (n - 1) as nat);
        let t = (n - 1) as real * d;
        lemma_one_more((n - 1) as real, d);
        lemma_parabola_more(x.x, p.x, f.x, m, t, d);
        lemma_parabola_more(x.y, p.y, f.y, m, t, d);
        lemma_parabola_more(x.z, p.z, f.z, m, t, d);
    }
}

} // verus!
