//! The character's own state and the contact flags that sensing fills in.

use vstd::prelude::*;
use crate::units::Direction;

verus! {

/// How many jumps may be made before touching the ground or a wall again.
pub const PLAYER_MAX_JUMP_COUNT: u32 = 1;

/// The states of the character; exactly one is current at any time.
#[derive(Clone, Copy, Debug, PartialEq, Eq, Structural)]
pub enum PlayerState {
    /// Standing on the ground.
    Idle,
    /// Moving on the ground.
    Running,
    /// Off the ground with nothing to hold on to.
    InAir,
    /// Hanging from a ledge.
    OnEdge,
    /// Sliding down a wall.
    OnWall,
    /// Holding still on a wall in climbing mode.
    Climbing,
}

/// The character.
#[derive(Clone, Copy, Debug, PartialEq, Eq, Structural)]
pub struct Player {
    /// The state of the current step.
    pub state: PlayerState,
    /// The state at the end of the step before.
    pub previous_state: PlayerState,
    /// One step to the left or to the right.
    pub facing_direction: Direction,
    /// Jumps made since the count was last cleared.
    pub jump_count: u32,
}

impl Player {
    /// The character faces left or right and has not jumped more often than
    /// allowed.
    pub open spec fn wf(self) -> bool {
        self.facing_direction.is_horizontal_unit() && self.jump_count <= PLAYER_MAX_JUMP_COUNT
    }

    /// Another jump is allowed.
    pub open spec fn may_jump(self) -> bool {
        self.jump_count < PLAYER_MAX_JUMP_COUNT
    }

    /// The character as it enters a level: idle, facing right, no jump made.
    pub open spec fn initial() -> Player {
        Player {
            state: PlayerState::Idle,
            previous_state: PlayerState::Idle,
            facing_direction: Direction { x: 1, y: 0 },
            jump_count: 0,
        }
    }

    /// A character that is idle, faces right and has not jumped.
    pub fn new() -> (p: Player)
        ensures
            p == Player::initial(),
            p.wf(),
    {
        Player {
            state: PlayerState::Idle,
            previous_state: PlayerState::Idle,
            facing_direction: Direction { x: 1, y: 0 },
            jump_count: 0,
        }
    }

    /// Whether another jump is allowed.
    pub fn can_jump(&self) -> (r: bool)
        ensures
            r == self.may_jump(),
            r == (self.jump_count < PLAYER_MAX_JUMP_COUNT),
    {
        self.jump_count < PLAYER_MAX_JUMP_COUNT
    }
}

/// The character stands on something.
#[derive(Clone, Copy, Debug, PartialEq, Eq, Structural)]
pub struct Grounded(pub bool);

/// The character touches a wall in front of it.
#[derive(Clone, Copy, Debug, PartialEq, Eq, Structural)]
pub struct OnWall(pub bool);

/// A ledge in front of the character can be grabbed.
#[derive(Clone, Copy, Debug, PartialEq, Eq, Structural)]
pub struct EdgeGrab(pub bool);

} // verus!
