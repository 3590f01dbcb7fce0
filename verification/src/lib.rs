//! A rigid-body dynamics kernel on fixed-point scalars.
//!
//! The kernel tracks per-body momentum and orientation, accumulates gravity
//! and spring forces, resolves distance, fixed-length and pulley constraints
//! by sequential impulses, and integrates motion with a semi-implicit Euler
//! step.  All quantities are fixed-point numbers: an `i64` holds the value
//! times [`fx::SCALE`], so the arithmetic is exact integer arithmetic and
//! every operation has a precise mathematical description.

pub mod body;
pub mod constraint;
pub mod energy;
pub mod fx;
pub mod laws;
pub mod mat3;
pub mod quat;
pub mod settings;
pub mod solver;
pub mod springs;
pub mod vec3;

use vstd::prelude::*;

verus! {

/// The ways a kernel operation can refuse to proceed.
///
/// A missing or duplicated body handle and a singular inertia tensor are
/// precondition violations: the kernel refuses the whole operation and
/// leaves every body untouched.  An out-of-range configuration is rejected
/// when the configuration is built.
#[derive(Clone, Copy, PartialEq, Eq, Structural, Debug)]
pub enum SimError {
    /// A constraint or spring references a body index outside the body list.
    MissingBodyHandle,
    /// A constraint or spring references the same body on both ends.
    DuplicateBodyHandle,
    /// A finite-mass body was given a non-invertible inertia tensor.
    SingularInertiaTensor,
    /// A substep count of zero or a time-dilation divisor below one.
    InvalidConfiguration,
}

} // verus!
