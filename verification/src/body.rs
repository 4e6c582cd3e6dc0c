//! What a shape tells the simulation: its mass and its inertia tensor.

use crate::matrix::Matrix;
use crate::scalar::{spec_sq, sq, Scalar};
use vstd::prelude::*;

verus! {

/// A rigid shape, known to the simulation by two quantities only. Both are
/// read once, when the body enters a world.
pub trait RigidBody<S: Scalar> {
    /// The mass that [`RigidBody::mass`] returns.
    spec fn spec_mass(&self) -> S;

    /// The tensor that [`RigidBody::inertia_tensor`] returns.
    spec fn spec_inertia_tensor(&self) -> Matrix<S>;

    /// The mass of the body.
    fn mass(&self) -> (m: S)
        ensures
            m == self.spec_mass(),
    ;

    /// The inertia tensor in the body's own frame.
    fn inertia_tensor(&self) -> (t: Matrix<S>)
        ensures
            t@ == self.spec_inertia_tensor()@,
    ;
}

/// A solid box of even density, centred on its own origin.
#[derive(Clone, Copy, Debug)]
pub struct RigidBox<S: Scalar> {
    pub x: S,
    pub y: S,
    pub z: S,
    pub mass: S,
}

/// One diagonal entry of a box's inertia tensor: `s (a^2 + b^2)`.
pub open spec fn box_moment<S: Scalar>(s: S, a: S, b: S) -> S {
    s.product(spec_sq(a).sum(spec_sq(b)))
}

/// Computes [`box_moment`].
fn moment<S: Scalar>(s: S, a: S, b: S) -> (r: S)
    ensures
        r == box_moment(s, a, b),
{
    s.times(sq(a).plus(sq(b)))
}

impl<S: Scalar> RigidBox<S> {
    /// The box of the given edge lengths and density: its mass is
    /// `x y z density`, multiplied from left to right.
    pub open spec fn spec_new(x: S, y: S, z: S, density: S) -> Self {
        RigidBox { x, y, z, mass: x.product(y).product(z).product(density) }
    }

    /// The box of the edge lengths `x`, `y`, `z` and the given density.
    pub fn new(x: S, y: S, z: S, density: S) -> (r: Self)
        ensures
            r == Self::spec_new(x, y, z, density),
    {
        RigidBox { x, y, z, mass: x.times(y).times(z).times(density) }
    }
}

impl<S: Scalar> RigidBody<S> for RigidBox<S> {
    open spec fn spec_mass(&self) -> S {
        self.mass
    }

    /// Diagonal, with `mass / 12` times the squares of the two other edges.
    open spec fn spec_inertia_tensor(&self) -> Matrix<S> {
        let s = self.mass.quotient(S::of_int(12));
        let o = S::of_int(0);
        Matrix::of_entries(
            seq![
                box_moment(s, self.y, self.z),
                o,
                o,
                o,
                box_moment(s, self.x, self.z),
                o,
                o,
                o,
                box_moment(s, self.x, self.y),
            ],
        )
    }

    fn mass(&self) -> (m: S) {
        self.mass
    }

    fn inertia_tensor(&self) -> (t: Matrix<S>) {
        let s = self.mass.over(S::from_int(12));
        let o = S::from_int(0);
        let elems = [
            moment(s, self.y, self.z),
            o,
            o,
            o,
            moment(s, self.x, self.z),
            o,
            o,
            o,
            moment(s, self.x, self.y),
        ];
        proof {
            let s = self.mass.quotient(S::of_int(12));
            let o = S::of_int(0);
            let entries = seq![
                box_moment(s, self.y, self.z),
                o,
                o,
                o,
                box_moment(s, self.x, self.z),
                o,
                o,
                o,
                box_moment(s, self.x, self.y),
            ];
            Matrix::lemma_of_entries(entries);
            assert(elems@ =~= entries);
        }
        Matrix::new(elems)
    }
}

} // verus!
