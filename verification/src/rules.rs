//! The rules of a movement step, as functions of what the step reads.
//!
//! These are the mathematical statements that the contracts of
//! [`crate::movement`] refer to. Each says what one quantity is after the
//! step.

use vstd::prelude::*;
use crate::body::DEFAULT_GRAVITY_SCALE;
use crate::controller::{Action, ActionEvent};
use crate::movement::{
    BufferedJump, CoyoteStart, JumpedFrom, EDGE_JUMP_INHIBITION, GROUND_BRAKE_FORCE,
    JUMP_CUT_FORCE, JUMP_SPEED, MAX_FALLING_SPEED, MAX_RUNNING_SPEED, MAX_WALL_SLIDING_SPEED,
    RUNNING_FORCE, STILL_SPEED, WALL_JUMP_INHIBITION,
};
use crate::player::{PlayerState, PLAYER_MAX_JUMP_COUNT};
use crate::timer::Countdown;
use crate::units::Vector;

verus! {

/// The character counts as still: no horizontal input and a horizontal speed
/// below the still speed.
pub open spec fn is_still(velocity_x: i32, direction_x: i8) -> bool {
    -STILL_SPEED < velocity_x < STILL_SPEED && direction_x == 0
}

/// The state that the surroundings call for.
///
/// Ground comes first: a grounded character is idle or running whatever else
/// it touches. Off the ground, a ledge comes before a wall: the character
/// hangs on the ledge if it holds the direction it faces and slides past it
/// otherwise. On a plain wall a climbing character keeps climbing and any
/// other slides. With nothing to touch the character is in the air.
pub open spec fn classified(
    grounded: bool,
    on_wall: bool,
    edge_grab: bool,
    still: bool,
    direction_x: i8,
    facing_x: i8,
    previous: PlayerState,
) -> PlayerState {
    if grounded {
        if still {
            PlayerState::Idle
        } else {
            PlayerState::Running
        }
    } else if edge_grab {
        if direction_x == facing_x {
            PlayerState::OnEdge
        } else {
            PlayerState::OnWall
        }
    } else if on_wall {
        if previous == PlayerState::Climbing {
            PlayerState::Climbing
        } else {
            PlayerState::OnWall
        }
    } else {
        PlayerState::InAir
    }
}

/// The state of a character off the ground after one reported action:
/// entering climbing mode on a wall makes it climb, leaving climbing mode
/// puts it on the wall, and no other action changes the state.
pub open spec fn after_action(state: PlayerState, action: Action, on_wall: bool) -> PlayerState {
    match action {
        Action::EnterClimbingMode => if on_wall {
            PlayerState::Climbing
        } else {
            state
        },
        Action::ExitClimbingMode => PlayerState::OnWall,
        _ => state,
    }
}

/// The state of a character off the ground after all reported actions, taken
/// in order.
pub open spec fn after_actions(state: PlayerState, events: Seq<ActionEvent>, on_wall: bool) -> PlayerState
    decreases events.len(),
{
    if events.len() == 0 {
        state
    } else {
        after_action(after_actions(state, events.drop_last(), on_wall), events.last().0, on_wall)
    }
}

/// A jump press is among the reported actions.
pub open spec fn jump_pressed(events: Seq<ActionEvent>) -> bool {
    exists|i: int| 0 <= i < events.len() && (#[trigger] events[i]).0 == Action::Jump
}

/// Entering or leaving climbing mode is among the reported actions.
pub open spec fn climbing_toggled(events: Seq<ActionEvent>) -> bool {
    exists|i: int|
        0 <= i < events.len() && ((#[trigger] events[i]).0 == Action::EnterClimbingMode
            || events[i].0 == Action::ExitClimbingMode)
}

/// The jump count once a step has looked at the surroundings: touching the ground
/// or a wall with the jump key released clears it.
pub open spec fn refreshed_jump_count(count: u32, grounded: bool, on_wall: bool, jump_released: bool) -> u32 {
    if (grounded || on_wall) && jump_released {
        0
    } else {
        count
    }
}

/// The jump buffer's timer after a step: restarted by a jump press, then
/// advanced by the length of the step.
pub open spec fn buffered_timer(timer: Countdown, events: Seq<ActionEvent>, delta: u64) -> Countdown {
    if jump_pressed(events) {
        timer.after_reset().after_tick(delta)
    } else {
        timer.after_tick(delta)
    }
}

/// The jump buffer after a step: a press is pending while the timer runs.
pub open spec fn buffered(buffer: BufferedJump, events: Seq<ActionEvent>, delta: u64) -> BufferedJump {
    let timer = buffered_timer(buffer.timer, events, delta);
    BufferedJump { should_jump: !timer.is_finished(), timer }
}

/// The surface left when the state changes from `previous` to `state`, if the
/// character has just come off one.
pub open spec fn coyote_origin(previous: PlayerState, state: PlayerState) -> Option<CoyoteStart> {
    if previous != PlayerState::InAir && state == PlayerState::InAir {
        if previous == PlayerState::OnEdge || previous == PlayerState::OnWall {
            Some(CoyoteStart(JumpedFrom::WallOrEdge))
        } else {
            Some(CoyoteStart(JumpedFrom::Ground))
        }
    } else {
        None
    }
}

/// The states from which a pending jump press starts a jump.
pub open spec fn launches(state: PlayerState) -> bool {
    state == PlayerState::Idle || state == PlayerState::Running || state == PlayerState::OnEdge
        || state == PlayerState::OnWall
}

/// A jump is made during the drive of a step: a press is pending, the state
/// allows a jump and the jump count has room.
pub open spec fn drive_jumps(state: PlayerState, should_jump: bool, jump_count: u32) -> bool {
    should_jump && launches(state) && jump_count < PLAYER_MAX_JUMP_COUNT
}

/// `value` limited to the range from `-limit` to `limit`.
pub open spec fn limited(value: i32, limit: i32) -> i32 {
    if value > limit {
        limit
    } else if value < -limit {
        (-limit) as i32
    } else {
        value
    }
}

/// `value`, but not below `-limit`.
pub open spec fn floored(value: i32, limit: i32) -> i32 {
    if value < -limit {
        (-limit) as i32
    } else {
        value
    }
}

/// The horizontal velocity while running or in the air: kept within the
/// running speed while a direction is held.
pub open spec fn steered(velocity_x: i32, direction_x: i8) -> i32 {
    if direction_x != 0 {
        limited(velocity_x, MAX_RUNNING_SPEED)
    } else {
        velocity_x
    }
}

/// The velocity that the drive of a step leaves the body with.
pub open spec fn driven_velocity(
    state: PlayerState,
    velocity: Vector,
    direction_x: i8,
    facing_x: i8,
    jumped: bool,
) -> Vector {
    match state {
        PlayerState::Idle => Vector {
            x: velocity.x,
            y: if jumped { JUMP_SPEED } else { velocity.y },
        },
        PlayerState::Running => Vector {
            x: steered(velocity.x, direction_x),
            y: if jumped { JUMP_SPEED } else { velocity.y },
        },
        PlayerState::InAir => Vector {
            x: steered(velocity.x, direction_x),
            y: floored(velocity.y, MAX_FALLING_SPEED),
        },
        PlayerState::OnEdge => Vector { x: 0, y: if jumped { JUMP_SPEED } else { 0 } },
        PlayerState::OnWall => if jumped {
            Vector { x: (-facing_x * MAX_RUNNING_SPEED) as i32, y: JUMP_SPEED }
        } else {
            Vector { x: velocity.x, y: floored(velocity.y, MAX_WALL_SLIDING_SPEED) }
        },
        PlayerState::Climbing => Vector { x: 0, y: 0 },
    }
}

/// The horizontal force while running or in the air: towards the held
/// direction; without input and without action, against a movement faster
/// than the still speed; none otherwise.
pub open spec fn horizontal_drive(velocity_x: i32, direction_x: i8, action: Action, brake: i32) -> i32 {
    if direction_x != 0 {
        (direction_x * RUNNING_FORCE) as i32
    } else if action == Action::Neutral && velocity_x > STILL_SPEED {
        (-brake) as i32
    } else if action == Action::Neutral && velocity_x < -STILL_SPEED {
        brake
    } else {
        0
    }
}

/// The force that the drive of a step applies to the body.
pub open spec fn driven_force(state: PlayerState, velocity: Vector, direction_x: i8, action: Action) -> Vector {
    match state {
        PlayerState::Running => Vector {
            x: horizontal_drive(velocity.x, direction_x, action, GROUND_BRAKE_FORCE),
            y: 0,
        },
        PlayerState::InAir => Vector {
            x: horizontal_drive(velocity.x, direction_x, action, RUNNING_FORCE),
            y: if action != Action::Jump && velocity.y > 0 { (-JUMP_CUT_FORCE) as i32 } else { 0 },
        },
        _ => Vector { x: 0, y: 0 },
    }
}

/// The gravity scale that the drive of a step leaves the body with.
pub open spec fn driven_gravity(state: PlayerState, gravity_scale: i32) -> i32 {
    match state {
        PlayerState::InAir | PlayerState::OnWall => DEFAULT_GRAVITY_SCALE,
        PlayerState::OnEdge | PlayerState::Climbing => 0,
        _ => gravity_scale,
    }
}

/// The inhibition timer after the drive of a step: a jump made from a ledge
/// starts the short inhibition, a jump made from a wall the long one, and
/// otherwise the timer stays as it is.
pub open spec fn driven_inhibition(state: PlayerState, jumped: bool, timer: Countdown) -> Countdown {
    if jumped && state == PlayerState::OnEdge {
        Countdown::armed(EDGE_JUMP_INHIBITION)
    } else if jumped && state == PlayerState::OnWall {
        Countdown::armed(WALL_JUMP_INHIBITION)
    } else {
        timer
    }
}

} // verus!
