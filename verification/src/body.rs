//! The motion of the rigid body that carries the character.
//!
//! The state machine reads the linear velocity and writes velocity, force and
//! gravity scale. A caller that keeps finer-grained values applies only the
//! components that differ from what it handed in.

use vstd::prelude::*;
use crate::units::Vector;

verus! {

/// Gravity scale of a body in free fall.
pub const DEFAULT_GRAVITY_SCALE: i32 = 16;

/// Linear velocity, in fixed-point steps per second.
#[derive(Clone, Copy, Debug, PartialEq, Eq, Structural)]
pub struct Velocity {
    pub linvel: Vector,
}

/// The force applied to the body during the coming step, in whole units.
#[derive(Clone, Copy, Debug, PartialEq, Eq, Structural)]
pub struct ExternalForce {
    pub force: Vector,
}

/// Factor by which gravity acts on the body.
#[derive(Clone, Copy, Debug, PartialEq, Eq, Structural)]
pub struct GravityScale(pub i32);

impl Velocity {
    /// A body at rest.
    pub fn zero() -> (v: Velocity)
        ensures
            v.linvel == Vector::zero(),
    {
        Velocity { linvel: Vector { x: 0, y: 0 } }
    }
}

impl ExternalForce {
    /// No force.
    pub fn zero() -> (f: ExternalForce)
        ensures
            f.force == Vector::zero(),
    {
        ExternalForce { force: Vector { x: 0, y: 0 } }
    }
}

impl GravityScale {
    /// The gravity scale of free fall.
    pub fn new() -> (g: GravityScale)
        ensures
            g.0 == DEFAULT_GRAVITY_SCALE,
    {
        GravityScale(DEFAULT_GRAVITY_SCALE)
    }
}

} // verus!
