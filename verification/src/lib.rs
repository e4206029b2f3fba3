//! Movement and ability state machine of a platformer character.
//!
//! The crate decides, once per fixed simulation step, which state the
//! character is in and which commands go to the rigid body that carries it.
//! It owns no window, no keyboard and no physics world: callers hand in a
//! snapshot of the keys, the results of the ray casts and the body's current
//! motion, and get back the updated state together with the events of the
//! step.
//!
//! All quantities are integers. Lengths and velocities are fixed-point with
//! [`units::SUBUNITS`] steps per world unit, forces and gravity scales are
//! whole units, and time is counted in nanoseconds.

pub mod body;
pub mod climbing;
pub mod controller;
pub mod holds;
pub mod laws;
pub mod movement;
pub mod player;
pub mod rules;
pub mod sensing;
pub mod sprites;
pub mod timer;
pub mod units;
pub mod world;
