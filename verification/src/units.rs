//! Units shared by the whole crate.

use vstd::prelude::*;

verus! {

/// Number of fixed-point steps in one world unit. Lengths and velocities are
/// expressed in these steps, so `1_000` stands for one unit (per second).
pub const SUBUNITS: i32 = 1_000;

/// Nanoseconds in one millisecond; all durations are in nanoseconds.
pub const MILLISECOND: u64 = 1_000_000;

/// A pair of fixed-point or whole-unit quantities along the two axes.
#[derive(Clone, Copy, Debug, PartialEq, Eq, Structural)]
pub struct Vector {
    pub x: i32,
    pub y: i32,
}

impl Vector {
    /// The vector with both components zero.
    pub open spec fn zero() -> Vector {
        Vector { x: 0, y: 0 }
    }

    /// Builds a vector from its components.
    pub fn new(x: i32, y: i32) -> (v: Vector)
        ensures
            v == (Vector { x, y }),
    {
        Vector { x, y }
    }
}

/// A direction made of unit steps: each component is meant to be -1, 0 or 1.
#[derive(Clone, Copy, Debug, PartialEq, Eq, Structural)]
pub struct Direction {
    pub x: i8,
    pub y: i8,
}

impl Direction {
    /// Whether both components are unit steps.
    pub open spec fn is_unit_steps(self) -> bool {
        -1 <= self.x <= 1 && -1 <= self.y <= 1
    }

    /// Whether the direction points straight left or straight right.
    pub open spec fn is_horizontal_unit(self) -> bool {
        (self.x == 1 || self.x == -1) && self.y == 0
    }

    /// Builds a direction from its components.
    pub fn new(x: i8, y: i8) -> (d: Direction)
        ensures
            d == (Direction { x, y }),
    {
        Direction { x, y }
    }
}

} // verus!
