//! The world: the bodies in the order in which they entered, and the constant
//! force and torque that act on each of them.

use crate::body::RigidBody;
use crate::matrix::{inverted, singular, Matrix};
use crate::quaternion::Quaternion;
use crate::scalar::Scalar;
use crate::state::{consistent, derived, runge_kutta, RigidBodyState, StateView};
use crate::vector::Vector;
use vstd::prelude::*;

verus! {

/// One body of a world: the caller's identifier, the body's state, and the two
/// constants of the body that the integrator needs.
#[derive(Clone, Copy, Debug)]
pub struct WorldObject<S: Scalar> {
    pub id: usize,
    pub state: RigidBodyState<S>,
    pub inv_mass: S,
    pub inv_inertia: Matrix<S>,
}

/// A body with its matrices seen as their entries.
pub ghost struct ObjectView<S: Scalar> {
    pub id: usize,
    pub state: StateView<S>,
    pub inv_mass: S,
    pub inv_inertia: Seq<S>,
}

impl<S: Scalar> View for WorldObject<S> {
    type V = ObjectView<S>;

    open spec fn view(&self) -> ObjectView<S> {
        ObjectView {
            id: self.id,
            state: self.state@,
            inv_mass: self.inv_mass,
            inv_inertia: self.inv_inertia@,
        }
    }
}

/// The body that enters a world with the given identifier, mass, inertia
/// tensor and initial variables.
pub open spec fn entering<S: Scalar>(
    id: usize,
    mass: S,
    inertia: Seq<S>,
    x: Vector<S>,
    q: Quaternion<S>,
    p: Vector<S>,
    l: Vector<S>,
) -> ObjectView<S> {
    let inv_mass = S::of_int(1).quotient(mass);
    let inv_inertia = inverted(inertia);
    ObjectView { id, state: derived(x, q, p, l, inv_mass, inv_inertia), inv_mass, inv_inertia }
}

/// The body `o` one step of length `dt` later.
pub open spec fn stepped<S: Scalar>(
    o: ObjectView<S>,
    force: Vector<S>,
    torque: Vector<S>,
    dt: S,
) -> ObjectView<S> {
    ObjectView {
        id: o.id,
        state: runge_kutta(o.state, o.inv_mass, o.inv_inertia, force, torque, dt),
        inv_mass: o.inv_mass,
        inv_inertia: o.inv_inertia,
    }
}

/// The body `o` after `n` steps of length `dt`.
pub open spec fn after_steps<S: Scalar>(
    o: ObjectView<S>,
    force: Vector<S>,
    torque: Vector<S>,
    dt: S,
    n: nat,
) -> ObjectView<S>
    decreases n,
{
    if n == 0 {
        o
    } else {
        stepped(after_steps(o, force, torque, dt, (n - 1) as nat), force, torque, dt)
    }
}

impl<S: Scalar> WorldObject<S> {
    /// Whether the derived variables of the state fit the body's constants.
    pub open spec fn wf(self) -> bool {
        consistent(self.state@, self.inv_mass, self.inv_inertia@)
    }

    /// Replaces the state by the one a Runge-Kutta step of length `dt` later.
    pub fn step(&mut self, force: &Vector<S>, torque: &Vector<S>, dt: S)
        ensures
            final(self)@ == stepped(old(self)@, *force, *torque, dt),
            final(self).wf(),
    {
        let s1 = self.state.step(self.inv_mass, &self.inv_inertia, force, torque, dt);
        self.state = s1;
    }
}

/// Why a body was not taken into the world.
#[derive(Clone, Copy, Debug, PartialEq, Eq)]
pub enum AddError {
    /// The determinant of the inertia tensor is within the tolerance of zero:
    /// the tensor has no inverse.
    SingularInertia,
}

/// What a world is made of.
pub ghost struct WorldView<S: Scalar> {
    /// The bodies, in the order in which they entered.
    pub objects: Seq<ObjectView<S>>,
    /// The force that acts on every body.
    pub force: Vector<S>,
    /// The torque that acts on every body.
    pub torque: Vector<S>,
}

/// The bodies `objects`, each one step of length `dt` later.
pub open spec fn all_stepped<S: Scalar>(
    objects: Seq<ObjectView<S>>,
    force: Vector<S>,
    torque: Vector<S>,
    dt: S,
) -> Seq<ObjectView<S>> {
    Seq::new(objects.len(), |i: int| stepped(objects[i], force, torque, dt))
}

/// The world `w` one step of length `dt` later.
pub open spec fn world_stepped<S: Scalar>(w: WorldView<S>, dt: S) -> WorldView<S> {
    WorldView { objects: all_stepped(w.objects, w.force, w.torque, dt), ..w }
}

/// The world `w` after `n` steps of length `dt`.
pub open spec fn world_after<S: Scalar>(w: WorldView<S>, dt: S, n: nat) -> WorldView<S>
    decreases n,
{
    if n == 0 {
        w
    } else {
        world_stepped(world_after(w, dt, (n - 1) as nat), dt)
    }
}

/// Stepping a world steps each of its bodies by itself: after `n` steps the
/// bodies are as many as before, in the same order, and each is where `n`
/// steps of its own take it.
pub proof fn lemma_bodies_step_alone<S: Scalar>(w: WorldView<S>, dt: S, n: nat)
    ensures
        world_after(w, dt, n).force == w.force,
        world_after(w, dt, n).torque == w.torque,
        world_after(w, dt, n).objects.len() == w.objects.len(),
        forall|i: int|
            0 <= i < w.objects.len() ==> (#[trigger] world_after(w, dt, n).objects[i])
                == after_steps(w.objects[i], w.force, w.torque, dt, n),
    decreases n,
{
    if n > 0 {
        lemma_bodies_step_alone(w, dt, (n - 1) as nat);
    }
}

/// A collection of rigid bodies that move independently of one another.
pub struct World<S: Scalar> {
    objects: Vec<WorldObject<S>>,
    force: Vector<S>,
    torque: Vector<S>,
}

impl<S: Scalar> View for World<S> {
    type V = WorldView<S>;

    closed spec fn view(&self) -> WorldView<S> {
        WorldView {
            objects: Seq::new(self.objects@.len(), |i: int| self.objects@[i]@),
            force: self.force,
            torque: self.torque,
        }
    }
}

impl<S: Scalar> World<S> {
    /// Every body's derived variables fit its integrated ones. A world that is
    /// made and changed by the functions of this type only is well formed.
    pub open spec fn wf(self) -> bool {
        forall|i: int|
            0 <= i < self@.objects.len() ==> consistent(
                (#[trigger] self@.objects[i]).state,
                self@.objects[i].inv_mass,
                self@.objects[i].inv_inertia,
            )
    }

    /// An empty world under the given force and no torque.
    pub fn new(force: Vector<S>) -> (w: Self)
        ensures
            w@.objects.len() == 0,
            w@.force == force,
            w@.torque == Vector::<S>::spec_zero(),
            w.wf(),
    {
        World { objects: Vec::new(), force, torque: Vector::zero() }
    }

    /// An empty world under the given force and torque.
    pub fn with_field(force: Vector<S>, torque: Vector<S>) -> (w: Self)
        ensures
            w@.objects.len() == 0,
            w@.force == force,
            w@.torque == torque,
            w.wf(),
    {
        World { objects: Vec::new(), force, torque }
    }

    /// The number of bodies.
    pub fn len(&self) -> (n: usize)
        ensures
            n == self@.objects.len(),
    {
        self.objects.len()
    }

    /// The force that acts on every body.
    pub fn force(&self) -> (f: Vector<S>)
        ensures
            f == self@.force,
    {
        self.force
    }

    /// The torque that acts on every body.
    pub fn torque(&self) -> (t: Vector<S>)
        ensures
            t == self@.torque,
    {
        self.torque
    }

    /// The `i`-th body in order of entry.
    pub fn object(&self, i: usize) -> (o: WorldObject<S>)
        requires
            i < self@.objects.len(),
        ensures
            o@ == self@.objects[i as int],
    {
        self.objects[i]
    }

    /// Takes a body of the given mass and inertia tensor into the world, behind
    /// those that are in it. Where the tensor is singular the body is refused
    /// and the world stays as it was.
    pub fn insert(
        &mut self,
        id: usize,
        mass: S,
        inertia: &Matrix<S>,
        x: &Vector<S>,
        q: &Quaternion<S>,
        p: &Vector<S>,
        l: &Vector<S>,
    ) -> (r: Result<(), AddError>)
        ensures
            old(self).wf() ==> final(self).wf(),
            r is Err <==> singular(inertia@),
            r is Err ==> final(self)@ == old(self)@,
            r is Ok ==> final(self)@ == (WorldView {
                objects: old(self)@.objects.push(entering(id, mass, inertia@, *x, *q, *p, *l)),
                ..old(self)@
            }),
    {
        let inv_mass = S::from_int(1).over(mass);
        match inertia.inverse() {
            None => {
                assert(self@.objects =~= old(self)@.objects);
                Err(AddError::SingularInertia)
            },
            Some(inv_inertia) => {
                let state = RigidBodyState::new(x, q, p, l, inv_mass, &inv_inertia);
                let object = WorldObject { id, state, inv_mass, inv_inertia };
                self.objects.push(object);
                assert(self@.objects =~= old(self)@.objects.push(
                    entering(id, mass, inertia@, *x, *q, *p, *l),
                ));
                Ok(())
            },
        }
    }

    /// Takes `body` into the world under the identifier `id`, with the given
    /// position, orientation, linear momentum and angular momentum. The body
    /// is asked for its mass and its inertia tensor, once.
    pub fn add<B: RigidBody<S>>(
        &mut self,
        id: usize,
        body: &B,
        x: &Vector<S>,
        q: &Quaternion<S>,
        p: &Vector<S>,
        l: &Vector<S>,
    ) -> (r: Result<(), AddError>)
        ensures
            old(self).wf() ==> final(self).wf(),
            r is Err <==> singular(body.spec_inertia_tensor()@),
            r is Err ==> final(self)@ == old(self)@,
            r is Ok ==> final(self)@ == (WorldView {
                objects: old(self)@.objects.push(
                    entering(id, body.spec_mass(), body.spec_inertia_tensor()@, *x, *q, *p, *l),
                ),
                ..old(self)@
            }),
    {
        let mass = body.mass();
        let inertia = body.inertia_tensor();
        self.insert(id, mass, &inertia, x, q, p, l)
    }

    /// Moves every body one Runge-Kutta step of length `dt` on, each by itself,
    /// and returns the time after the step, `t + dt`.
    pub fn step(&mut self, t: S, dt: S) -> (now: S)
        ensures
            final(self).wf(),
            now == t.sum(dt),
            final(self)@ == world_stepped(old(self)@, dt),
    {
        let n = self.objects.len();
        let mut i: usize = 0;
        while i < n
            invariant
                i <= n,
                n == self.objects@.len(),
                n == old(self).objects@.len(),
                self.force == old(self).force,
                self.torque == old(self).torque,
                forall|k: int|
                    0 <= k < i ==> (#[trigger] self.objects@[k])@ == stepped(
                        old(self).objects@[k]@,
                        self.force,
                        self.torque,
                        dt,
                    ) && self.objects@[k].wf(),
                forall|k: int|
                    i <= k < n ==> (#[trigger] self.objects@[k]) == old(self).objects@[k],
            decreases n - i,
        {
            let mut o = self.objects[i];
            o.step(&self.force, &self.torque, dt);
            self.objects.set(i, o);
            i += 1;
        }
        assert(self@.objects =~= all_stepped(
            old(self)@.objects,
            old(self)@.force,
            old(self)@.torque,
            dt,
        ));
        t.plus(dt)
    }

    /// Calls `visit` once for every body, in order of entry, with the body's
    /// identifier, its position and its orientation matrix. The world is only
    /// read. What `visit` promises of a call holds, at the end, of its call on
    /// each body.
    pub fn for_each_object<F: FnMut(usize, &Vector<S>, &Matrix<S>)>(&self, mut visit: F)
        requires
            forall|id: usize, x: &Vector<S>, r: &Matrix<S>| call_requires(visit, (id, x, r)),
        ensures
            forall|i: int|
                0 <= i < self@.objects.len() ==> call_ensures(
                    visit,
                    (
                        (#[trigger] self@.objects[i]).id,
                        &self@.objects[i].state.x,
                        &Matrix::of_entries(self@.objects[i].state.r),
                    ),
                    (),
                ),
    {
        let ghost visitor = visit;
        let n = self.objects.len();
        let mut i: usize = 0;
        while i < n
            invariant
                i <= n,
                n == self.objects@.len(),
                visit == visitor,
                forall|id: usize, x: &Vector<S>, r: &Matrix<S>| call_requires(visit, (id, x, r)),
                forall|k: int|
                    0 <= k < i ==> call_ensures(
                        visit,
                        (
                            (#[trigger] self@.objects[k]).id,
                            &self@.objects[k].state.x,
                            &Matrix::of_entries(self@.objects[k].state.r),
                        ),
                        (),
                    ),
            decreases n - i,
        {
            proof {
                let r = self.objects@[i as int].state.r;
                r.lemma_len();
                Matrix::lemma_of_entries(r@);
                Matrix::lemma_same_entries(r, Matrix::of_entries(r@));
            }
            visit(self.objects[i].id, &self.objects[i].state.x, &self.objects[i].state.r);
            i += 1;
        }
    }
}

} // verus!
