//! Rigid bodies in three dimensions, moved by a fourth-order Runge-Kutta
//! integrator over position, orientation quaternion, linear momentum and
//! angular momentum.
//!
//! The library is written over any number type that offers the operations of
//! [`scalar::Scalar`]:
//!
//! - [`vector`], [`matrix`] and [`quaternion`] hold the algebra, and [`ops`]
//!   its operators;
//! - [`body`] is what a shape has to tell: its mass and its inertia tensor;
//! - [`state`] derives a body's rotation matrix and velocities from the four
//!   integrated variables, and steps them forward;
//! - [`world`] keeps bodies in the order in which they entered and steps them
//!   all.
//!
//! Every function is specified by the operations it applies, in their order:
//! that is all that can be said of arithmetic that rounds. For arithmetic
//! that does not, [`exact`] says what the operations compute, [`laws`] proves
//! what then holds of the algebra and of the integrator, and [`whole`] is such
//! an arithmetic.

pub mod body;
pub mod exact;
pub mod laws;
pub mod matrix;
pub mod ops;
pub mod quaternion;
pub mod scalar;
pub mod state;
pub mod vector;
pub mod whole;
pub mod world;
