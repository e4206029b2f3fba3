//! The movement state machine.
//!
//! [`player_movement`] runs once per simulation step, after the keys have been
//! translated and the surroundings sensed. It picks the state of the step,
//! keeps the jump count, remembers a recent jump press, and, unless control is
//! inhibited, drives the body according to the state. [`coyote_jump`] runs
//! right after it and grants a late jump to a character that has just left
//! the ground, a wall or a ledge.

use vstd::prelude::*;
use crate::body::{ExternalForce, GravityScale, Velocity, DEFAULT_GRAVITY_SCALE};
use crate::controller::{Action, ActionEvent, Controller};
use crate::player::{EdgeGrab, Grounded, OnWall, Player, PlayerState};
use crate::rules::{
    after_actions, buffered, classified, coyote_origin, drive_jumps, driven_force,
    driven_gravity, driven_inhibition, driven_velocity, is_still, jump_pressed, limited,
    refreshed_jump_count,
};
use crate::timer::Countdown;
use crate::units::{Vector, SUBUNITS};

verus! {

/// Fastest horizontal speed under the character's own power.
pub const MAX_RUNNING_SPEED: i32 = 250_000;

/// Upward speed right after a jump.
pub const JUMP_SPEED: i32 = 600_000;

/// Fastest fall in free air.
pub const MAX_FALLING_SPEED: i32 = 600_000;

/// Fastest slide down a wall.
pub const MAX_WALL_SLIDING_SPEED: i32 = 100_000;

/// Horizontal speed below which a character without input counts as still.
pub const STILL_SPEED: i32 = 20_000;

/// Force that brings the character to full running speed.
pub const RUNNING_FORCE: i32 = 200_000;

/// Force that brakes a character running on the ground without input.
pub const GROUND_BRAKE_FORCE: i32 = 400_000;

/// Factor between a speed in whole units and the force that cuts it short.
pub const JUMP_CUT_FACTOR: i32 = 200;

/// Downward force that cuts a jump short once the jump key is let go:
/// [`JUMP_CUT_FACTOR`] times the jump speed in whole units.
pub const JUMP_CUT_FORCE: i32 = 120_000;

/// How long a jump press is remembered, in nanoseconds.
pub const JUMP_BUFFER_WINDOW: u64 = 100_000_000;

/// How long a late jump is granted after leaving a surface, in nanoseconds.
pub const COYOTE_WINDOW: u64 = 100_000_000;

/// How long control is inhibited after a wall jump, in nanoseconds; also the
/// inhibition that a new character starts with.
pub const WALL_JUMP_INHIBITION: u64 = 250_000_000;

/// How long control is inhibited after a jump off a ledge, in nanoseconds.
pub const EDGE_JUMP_INHIBITION: u64 = 30_000_000;

/// While this timer runs, the body is not driven.
#[derive(Clone, Copy, Debug, PartialEq, Eq, Structural)]
pub struct InhibitionTimer(pub Countdown);

/// While this timer runs, a late jump is granted.
#[derive(Clone, Copy, Debug, PartialEq, Eq, Structural)]
pub struct CoyoteTimer(pub Countdown);

/// The character has just jumped.
#[derive(Clone, Copy, Debug, PartialEq, Eq, Structural, Default)]
pub struct JustJumped;

/// The surface that the character has just left.
#[derive(Clone, Copy, Debug, PartialEq, Eq, Structural, Default)]
pub enum JumpedFrom {
    #[default]
    Ground,
    WallOrEdge,
}

/// The character has just left a surface: a late jump may follow.
#[derive(Clone, Copy, Debug, PartialEq, Eq, Structural, Default)]
pub struct CoyoteStart(pub JumpedFrom);

/// The surface that a late jump would start from.
#[derive(Clone, Copy, Debug, PartialEq, Eq, Structural)]
pub struct CoyoteJumpedFrom {
    pub jumped_from: JumpedFrom,
}

/// A jump press that is remembered for a short while.
#[derive(Clone, Copy, Debug, PartialEq, Eq, Structural)]
pub struct BufferedJump {
    /// A jump press is pending.
    pub should_jump: bool,
    /// Runs from the last jump press.
    pub timer: Countdown,
}

/// The events of one step of [`player_movement`].
#[derive(Clone, Copy, Debug, PartialEq, Eq, Structural)]
pub struct MovementEvents {
    /// Set when the character jumped during the step.
    pub just_jumped: Option<JustJumped>,
    /// Set when the character left a surface during the step.
    pub coyote_start: Option<CoyoteStart>,
}

impl InhibitionTimer {
    /// The inhibition that a new character starts with.
    pub fn new() -> (t: InhibitionTimer)
        ensures
            t.0 == Countdown::armed(WALL_JUMP_INHIBITION),
    {
        InhibitionTimer(Countdown::new(WALL_JUMP_INHIBITION))
    }
}

impl CoyoteTimer {
    /// The timer of a character that has not left any surface yet: the
    /// window is closed until the first surface is left.
    pub fn new() -> (t: CoyoteTimer)
        ensures
            t.0 == Countdown::spent(COYOTE_WINDOW),
            t.0.is_finished(),
    {
        CoyoteTimer(Countdown::new_spent(COYOTE_WINDOW))
    }
}

impl CoyoteJumpedFrom {
    /// Nothing left yet: a late jump would start from the ground.
    pub fn new() -> (c: CoyoteJumpedFrom)
        ensures
            c.jumped_from == JumpedFrom::Ground,
    {
        CoyoteJumpedFrom { jumped_from: JumpedFrom::Ground }
    }
}

impl BufferedJump {
    /// The buffer before any jump press: nothing is pending, and nothing
    /// becomes pending until jump is pressed.
    pub fn new() -> (b: BufferedJump)
        ensures
            b == (BufferedJump { should_jump: false, timer: Countdown::spent(JUMP_BUFFER_WINDOW) }),
            b.timer.is_finished(),
    {
        BufferedJump { should_jump: false, timer: Countdown::new_spent(JUMP_BUFFER_WINDOW) }
    }
}

/// The velocity right after a jump straight up.
pub open spec fn jump_velocity(velocity: Vector) -> Vector {
    Vector { x: velocity.x, y: JUMP_SPEED }
}

/// The velocity right after a jump off a wall: up, and away from the wall at
/// full running speed.
pub open spec fn wall_jump_velocity(facing_x: i8) -> Vector {
    Vector { x: (-facing_x * MAX_RUNNING_SPEED) as i32, y: JUMP_SPEED }
}

/// Pushes the body towards the held direction and keeps its horizontal speed
/// within the running speed.
pub fn apply_horizontal_force(controller: &Controller, force: &mut ExternalForce, velocity: &mut Velocity)
    ensures
        final(force).force == (Vector {
            x: (controller.direction.x * RUNNING_FORCE) as i32,
            y: old(force).force.y,
        }),
        final(velocity).linvel == (Vector {
            x: limited(old(velocity).linvel.x, MAX_RUNNING_SPEED),
            y: old(velocity).linvel.y,
        }),
{
    force.force.x = (controller.direction.x as i32) * RUNNING_FORCE;
    if velocity.linvel.x > MAX_RUNNING_SPEED {
        velocity.linvel.x = MAX_RUNNING_SPEED;
    }
    if velocity.linvel.x < -MAX_RUNNING_SPEED {
        velocity.linvel.x = -MAX_RUNNING_SPEED;
    }
}

/// The force that brakes a body moving sideways faster than the still speed;
/// a slower body keeps the force it has.
pub open spec fn braked(velocity: Vector, force: Vector, brake: i32) -> Vector {
    if velocity.x > STILL_SPEED {
        Vector { x: (-brake) as i32, y: 0 }
    } else if velocity.x < -STILL_SPEED {
        Vector { x: brake, y: 0 }
    } else {
        force
    }
}

/// Brakes a body that moves sideways faster than the still speed with a force
/// of `brake` against its movement.
pub fn stop_horizontal_velocity(velocity: &Velocity, force: &mut ExternalForce, brake: i32)
    requires
        brake > i32::MIN,
    ensures
        final(force).force == braked(velocity.linvel, old(force).force, brake),
{
    if velocity.linvel.x > STILL_SPEED {
        force.force = Vector { x: -brake, y: 0 };
    } else if velocity.linvel.x < -STILL_SPEED {
        force.force = Vector { x: brake, y: 0 };
    }
}

/// The force with the jump cut added while the body still rises: a downward
/// force of [`JUMP_CUT_FACTOR`] times `max_speed`, which is a speed in whole
/// units.
pub open spec fn cut(velocity: Vector, force: Vector, max_speed: i32) -> Vector {
    if velocity.y > 0 {
        Vector { x: force.x, y: (force.y - JUMP_CUT_FACTOR * max_speed) as i32 }
    } else {
        force
    }
}

/// Pulls a rising body down, so that a jump ends early: the downward force
/// grows by [`JUMP_CUT_FACTOR`] times `max_speed`, a speed in whole units. A
/// body that does not rise keeps its force.
pub fn stop_vertical_velocity(velocity: &Velocity, force: &mut ExternalForce, max_speed: i32)
    requires
        i32::MIN <= old(force).force.y - JUMP_CUT_FACTOR * max_speed <= i32::MAX,
    ensures
        final(force).force == cut(velocity.linvel, old(force).force, max_speed),
{
    if velocity.linvel.y > 0 {
        let lowered: i64 = (force.force.y as i64) - (JUMP_CUT_FACTOR as i64) * (max_speed as i64);
        force.force.y = lowered as i32;
    }
}

/// Jumps straight up if another jump is allowed: counts the jump and sets the
/// upward speed. Returns the event of the jump, or `None` if none was made.
pub fn jump(player: &mut Player, velocity: &mut Velocity) -> (jumped: Option<JustJumped>)
    ensures
        jumped.is_some() == old(player).may_jump(),
        old(player).may_jump() ==> {
            &&& *final(player) == (Player {
                jump_count: (old(player).jump_count + 1) as u32,
                ..*old(player)
            })
            &&& final(velocity).linvel == jump_velocity(old(velocity).linvel)
        },
        !old(player).may_jump() ==> *final(player) == *old(player) && *final(velocity) == *old(
            velocity,
        ),
{
    if player.can_jump() {
        player.jump_count = player.jump_count + 1;
        velocity.linvel.y = JUMP_SPEED;
        Some(JustJumped)
    } else {
        None
    }
}

/// Jumps off a wall if another jump is allowed: counts the jump, sets the
/// upward speed and kicks the body away from the wall that the character
/// faces. Returns the event of the jump, or `None` if none was made.
pub fn wall_jump(player: &mut Player, velocity: &mut Velocity) -> (jumped: Option<JustJumped>)
    ensures
        jumped.is_some() == old(player).may_jump(),
        old(player).may_jump() ==> {
            &&& *final(player) == (Player {
                jump_count: (old(player).jump_count + 1) as u32,
                ..*old(player)
            })
            &&& final(velocity).linvel == wall_jump_velocity(old(player).facing_direction.x)
        },
        !old(player).may_jump() ==> *final(player) == *old(player) && *final(velocity) == *old(
            velocity,
        ),
{
    if player.can_jump() {
        player.jump_count = player.jump_count + 1;
        velocity.linvel.y = JUMP_SPEED;
        velocity.linvel.x = -(player.facing_direction.x as i32) * MAX_RUNNING_SPEED;
        Some(JustJumped)
    } else {
        None
    }
}

/// The state of a step. On the ground it is what the surroundings call for,
/// whatever is reported. Off the ground the reported actions are applied to
/// it in order.
pub open spec fn stepped_state(
    controller: Controller,
    player: Player,
    velocity: Velocity,
    grounded: Grounded,
    on_wall: OnWall,
    edge_grab: EdgeGrab,
    events: Seq<ActionEvent>,
) -> PlayerState {
    let called_for = classified(
        grounded.0,
        on_wall.0,
        edge_grab.0,
        is_still(velocity.linvel.x, controller.direction.x),
        controller.direction.x,
        player.facing_direction.x,
        player.previous_state,
    );
    if grounded.0 {
        called_for
    } else {
        after_actions(called_for, events, on_wall.0)
    }
}

/// One step of the state machine.
///
/// The step classifies the surroundings into a state and, off the ground,
/// applies the reported climbing-mode toggles to it; on the ground the state
/// is idle or running whatever is reported. It clears the jump count on the
/// ground or on a wall once jump has been released, remembers a jump press
/// in the buffer, and reports when the character has just left a surface.
/// The force is cleared. Then, unless the inhibition timer is still running
/// after this step's tick, the body is driven as the state demands and a
/// pending jump press is served; a jump made from a ledge or a wall starts a
/// new inhibition. The state of the step is remembered as the previous state
/// of the next one.
pub fn player_movement(
    controller: &Controller,
    player: &mut Player,
    grounded: &Grounded,
    on_wall: &OnWall,
    edge_grab: &EdgeGrab,
    force: &mut ExternalForce,
    velocity: &mut Velocity,
    gravity_scale: &mut GravityScale,
    inhibition_timer: &mut InhibitionTimer,
    action_events: &[ActionEvent],
    buffered_jump: &mut BufferedJump,
    delta: u64,
) -> (out: MovementEvents)
    ensures
        ({
            let state = stepped_state(
                *controller,
                *old(player),
                *old(velocity),
                *grounded,
                *on_wall,
                *edge_grab,
                action_events@,
            );
            let count = refreshed_jump_count(
                old(player).jump_count,
                grounded.0,
                on_wall.0,
                controller.jump_released,
            );
            let buffer = buffered(*old(buffered_jump), action_events@, delta);
            let inhibition = old(inhibition_timer).0.after_tick(delta);
            let jumped = inhibition.is_finished() && drive_jumps(state, buffer.should_jump, count);
            &&& final(player).state == state
            &&& final(player).previous_state == state
            &&& final(player).facing_direction == old(player).facing_direction
            &&& final(player).jump_count == if jumped { count + 1 } else { count as int }
            &&& *final(buffered_jump) == buffer
            &&& out.coyote_start == coyote_origin(old(player).previous_state, state)
            &&& out.just_jumped.is_some() == jumped
            &&& inhibition.is_finished() ==> {
                &&& final(velocity).linvel == driven_velocity(
                    state,
                    old(velocity).linvel,
                    controller.direction.x,
                    old(player).facing_direction.x,
                    jumped,
                )
                &&& final(force).force == driven_force(
                    state,
                    old(velocity).linvel,
                    controller.direction.x,
                    controller.action,
                )
                &&& final(gravity_scale).0 == driven_gravity(state, old(gravity_scale).0)
                &&& final(inhibition_timer).0 == driven_inhibition(state, jumped, inhibition)
            }
            &&& !inhibition.is_finished() ==> {
                &&& *final(velocity) == *old(velocity)
                &&& final(force).force == Vector::zero()
                &&& *final(gravity_scale) == *old(gravity_scale)
                &&& final(inhibition_timer).0 == inhibition
            }
        }),
        old(player).wf() ==> final(player).wf(),
{
    let player_still = velocity.linvel.x < STILL_SPEED && velocity.linvel.x > -STILL_SPEED
        && controller.direction.x == 0;

    let mut state = if grounded.0 {
        if player_still {
            PlayerState::Idle
        } else {
            PlayerState::Running
        }
    } else if edge_grab.0 {
        if controller.direction.x == player.facing_direction.x {
            PlayerState::OnEdge
        } else {
            PlayerState::OnWall
        }
    } else if on_wall.0 {
        if player.previous_state == PlayerState::Climbing {
            PlayerState::Climbing
        } else {
            PlayerState::OnWall
        }
    } else {
        PlayerState::InAir
    };
    let ghost classified_state = state;

    if (grounded.0 || on_wall.0) && controller.jump_released {
        player.jump_count = 0;
    }

    let mut pressed = false;
    let mut i: usize = 0;
    while i < action_events.len()
        invariant
            i <= action_events.len(),
            state == if grounded.0 {
                classified_state
            } else {
                after_actions(classified_state, action_events@.take(i as int), on_wall.0)
            },
            pressed == jump_pressed(action_events@.take(i as int)),
        decreases action_events.len() - i,
    {
        let ghost before = action_events@.take(i as int);
        let ghost upto = action_events@.take(i + 1);
        assert(upto.drop_last() == before);
        assert(upto.last() == action_events@[i as int]);
        match action_events[i].0 {
            Action::Jump => {
                pressed = true;
                assert(upto[i as int].0 == Action::Jump);
            },
            Action::EnterClimbingMode => {
                if !grounded.0 && on_wall.0 {
                    state = PlayerState::Climbing;
                }
            },
            Action::ExitClimbingMode => {
                if !grounded.0 {
                    state = PlayerState::OnWall;
                }
            },
            _ => {},
        }
        assert(jump_pressed(upto) == (jump_pressed(before) || action_events@[i as int].0
            == Action::Jump)) by {
            if jump_pressed(before) {
                let j = choose|j: int| 0 <= j < before.len() && (#[trigger] before[j]).0 == Action::Jump;
                assert(upto[j].0 == Action::Jump);
            }
            if jump_pressed(upto) {
                let j = choose|j: int| 0 <= j < upto.len() && (#[trigger] upto[j]).0 == Action::Jump;
                if j < i {
                    assert(before[j].0 == Action::Jump);
                }
            }
        }
        i = i + 1;
    }
    assert(action_events@.take(i as int) == action_events@);
    player.state = state;

    if pressed {
        buffered_jump.timer.reset();
    }
    buffered_jump.timer.tick(delta);
    buffered_jump.should_jump = !buffered_jump.timer.finished();
    let should_jump = buffered_jump.should_jump;

    let coyote_start = if player.previous_state != PlayerState::InAir && state == PlayerState::InAir {
        if player.previous_state == PlayerState::OnEdge || player.previous_state == PlayerState::OnWall {
            Some(CoyoteStart(JumpedFrom::WallOrEdge))
        } else {
            Some(CoyoteStart(JumpedFrom::Ground))
        }
    } else {
        None
    };
    player.previous_state = state;

    force.force = Vector { x: 0, y: 0 };

    inhibition_timer.0.tick(delta);
    if !inhibition_timer.0.finished() {
        return MovementEvents { just_jumped: None, coyote_start };
    }

    let mut just_jumped: Option<JustJumped> = None;
    match state {
        PlayerState::Idle => {
            if should_jump {
                just_jumped = jump(player, velocity);
            }
        },
        PlayerState::Running => {
            if controller.direction.x != 0 {
                apply_horizontal_force(controller, force, velocity);
            } else if controller.action == Action::Neutral {
                stop_horizontal_velocity(velocity, force, GROUND_BRAKE_FORCE);
            }
            if should_jump {
                just_jumped = jump(player, velocity);
            }
        },
        PlayerState::InAir => {
            gravity_scale.0 = DEFAULT_GRAVITY_SCALE;
            if controller.direction.x != 0 {
                apply_horizontal_force(controller, force, velocity);
            } else if controller.action == Action::Neutral {
                stop_horizontal_velocity(velocity, force, RUNNING_FORCE);
            }
            if controller.action != Action::Jump {
                stop_vertical_velocity(velocity, force, JUMP_SPEED / SUBUNITS);
            }
            if velocity.linvel.y < -MAX_FALLING_SPEED {
                velocity.linvel.y = -MAX_FALLING_SPEED;
            }
        },
        PlayerState::OnEdge => {
            velocity.linvel = Vector { x: 0, y: 0 };
            gravity_scale.0 = 0;
            if should_jump {
                just_jumped = jump(player, velocity);
                if just_jumped.is_some() {
                    inhibition_timer.0.arm(EDGE_JUMP_INHIBITION);
                }
            }
        },
        PlayerState::OnWall => {
            gravity_scale.0 = DEFAULT_GRAVITY_SCALE;
            if velocity.linvel.y < -MAX_WALL_SLIDING_SPEED {
                velocity.linvel.y = -MAX_WALL_SLIDING_SPEED;
            }
            if should_jump {
                just_jumped = wall_jump(player, velocity);
                if just_jumped.is_some() {
                    inhibition_timer.0.arm(WALL_JUMP_INHIBITION);
                }
            }
        },
        PlayerState::Climbing => {
            gravity_scale.0 = 0;
            velocity.linvel = Vector { x: 0, y: 0 };
        },
    }
    MovementEvents { just_jumped, coyote_start }
}

/// The coyote window is open after a tick of `delta`: no surface has just
/// been left, and the timer still runs once it has been advanced.
pub open spec fn coyote_window_open(timer: Countdown, events: Seq<CoyoteStart>, delta: u64) -> bool {
    events.len() == 0 && !timer.after_tick(delta).is_finished()
}

/// A late jump is made: the window is open, a jump press is pending and the
/// jump count has room.
pub open spec fn coyote_jumps(
    player: Player,
    timer: Countdown,
    should_jump: bool,
    events: Seq<CoyoteStart>,
    delta: u64,
) -> bool {
    coyote_window_open(timer, events, delta) && should_jump && player.may_jump()
}

/// The coyote timer after a step: restarted by a character that has just
/// left a surface, spent by a late jump, and advanced otherwise.
pub open spec fn coyote_timer_after(timer: Countdown, events: Seq<CoyoteStart>, delta: u64, jumped: bool) -> Countdown {
    if events.len() > 0 {
        timer.after_reset()
    } else if jumped {
        timer.after_tick(delta).after_expire()
    } else {
        timer.after_tick(delta)
    }
}

/// The velocity right after a late jump: that of a wall jump when the
/// character came off a wall or a ledge, that of a plain jump otherwise.
pub open spec fn coyote_velocity(velocity: Vector, facing_x: i8, origin: JumpedFrom) -> Vector {
    if origin == JumpedFrom::WallOrEdge {
        wall_jump_velocity(facing_x)
    } else {
        jump_velocity(velocity)
    }
}

/// Grants a late jump to a character that has just left a surface.
///
/// When the character has left a surface during this step, the surface is
/// remembered and the window opens: the timer restarts, and no jump is made.
/// Otherwise the timer advances, and while it runs a pending jump press
/// makes the character jump: off the wall if it came from a wall or a ledge,
/// straight up if it came from the ground. A late jump closes the window.
pub fn coyote_jump(
    player: &mut Player,
    velocity: &mut Velocity,
    coyote_timer: &mut CoyoteTimer,
    buffered_jump: &BufferedJump,
    coyote_events: &[CoyoteStart],
    coyote_jumped_from: &mut CoyoteJumpedFrom,
    delta: u64,
) -> (jumped: Option<JustJumped>)
    ensures
        jumped.is_some() == coyote_jumps(
            *old(player),
            old(coyote_timer).0,
            buffered_jump.should_jump,
            coyote_events@,
            delta,
        ),
        final(coyote_timer).0 == coyote_timer_after(
            old(coyote_timer).0,
            coyote_events@,
            delta,
            jumped.is_some(),
        ),
        final(coyote_jumped_from).jumped_from == if coyote_events@.len() > 0 {
            coyote_events@.last().0
        } else {
            old(coyote_jumped_from).jumped_from
        },
        jumped.is_some() ==> {
            &&& *final(player) == (Player {
                jump_count: (old(player).jump_count + 1) as u32,
                ..*old(player)
            })
            &&& final(velocity).linvel == coyote_velocity(
                old(velocity).linvel,
                old(player).facing_direction.x,
                old(coyote_jumped_from).jumped_from,
            )
        },
        jumped.is_none() ==> *final(player) == *old(player) && *final(velocity) == *old(velocity),
        old(player).wf() ==> final(player).wf(),
{
    let count = coyote_events.len();
    if count > 0 {
        coyote_jumped_from.jumped_from = coyote_events[count - 1].0;
        coyote_timer.0.reset();
        None
    } else {
        coyote_timer.0.tick(delta);
        if !coyote_timer.0.finished() && buffered_jump.should_jump {
            let jumped = if coyote_jumped_from.jumped_from == JumpedFrom::WallOrEdge {
                wall_jump(player, velocity)
            } else {
                jump(player, velocity)
            };
            if jumped.is_some() {
                coyote_timer.0.expire();
            }
            jumped
        } else {
            None
        }
    }
}

} // verus!
