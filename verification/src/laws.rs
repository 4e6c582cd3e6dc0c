//! The laws of the algebra and of the integrator, for exact scalars.
//!
//! Each law is stated of the specification functions that the contracts of the
//! executable functions use, and holds whenever the results it speaks of are
//! exact: carried out on the real numbers, without loss.
//!
//! - [`quaternions`]: the units multiply as Hamilton's; a normalized
//!   quaternion is of norm one; the rotation matrix of a unit quaternion is
//!   orthonormal, and turns a vector as conjugation by the quaternion does.
//! - [`matrices`]: a matrix and its inverse multiply to the identity, from
//!   either side; the inverse of the inverse is the matrix.
//! - [`motion`]: a step adds the force times its length to the momentum; under
//!   a constant force a body follows the parabola of free fall, and under none
//!   a straight line; the orientation stays of norm one, and stays as it is
//!   where nothing turns the body.

mod algebra;
pub mod matrices;
pub mod motion;
pub mod quaternions;
