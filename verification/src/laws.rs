//! What holds of every step of the state machine.
//!
//! Each proof function states one law over the rules that the contracts of
//! the executable functions refer to, so each law holds of every call of
//! those functions.

use vstd::prelude::*;
use crate::controller::{
    is_held, push_if, rises, sampled_vector, translated, translated_events,
    vector_after_climb_key, Action, ActionEvent, Controller, KeyState, CLIMBING_MODE_MASK,
    GRAB_DOWN_MASK, GRAB_LEFT_MASK, GRAB_RIGHT_MASK, GRAB_UP_MASK,
};
use crate::body::Velocity;
use crate::movement::{
    coyote_jumps, coyote_timer_after, coyote_window_open, stepped_state, BufferedJump,
    CoyoteStart, STILL_SPEED,
};
use crate::player::{EdgeGrab, Grounded, OnWall, Player, PlayerState, PLAYER_MAX_JUMP_COUNT};
use crate::rules::{
    after_actions, buffered, classified, climbing_toggled, drive_jumps, is_still, jump_pressed,
    refreshed_jump_count,
};
use crate::timer::Countdown;

verus! {

/// A step clears the jump count exactly when the character touches the
/// ground or a wall with the jump key released; otherwise the count stays.
pub proof fn lemma_jump_count_clears_iff(count: u32, grounded: bool, on_wall: bool, jump_released: bool)
    ensures
        (grounded || on_wall) && jump_released ==> refreshed_jump_count(
            count,
            grounded,
            on_wall,
            jump_released,
        ) == 0,
        !((grounded || on_wall) && jump_released) ==> refreshed_jump_count(
            count,
            grounded,
            on_wall,
            jump_released,
        ) == count,
        count > 0 ==> (refreshed_jump_count(count, grounded, on_wall, jump_released) == 0 <==> (grounded
            || on_wall) && jump_released),
{
}

/// Whether another jump is allowed is always the jump count compared with
/// its ceiling, and a jump is only ever served while it is allowed.
pub proof fn lemma_can_jump_is_count_below_ceiling(player: Player, state: PlayerState, should_jump: bool)
    ensures
        player.may_jump() <==> player.jump_count < PLAYER_MAX_JUMP_COUNT,
        drive_jumps(state, should_jump, player.jump_count) ==> player.may_jump(),
{
}

/// Reported actions that hold no jump press stay so when one more action
/// that is no jump press is appended.
proof fn lemma_push_keeps_no_jump(events: Seq<ActionEvent>, fires: bool, action: Action)
    requires
        !jump_pressed(events),
        action != Action::Jump,
    ensures
        !jump_pressed(push_if(events, fires, action)),
{
    let pushed = push_if(events, fires, action);
    if jump_pressed(pushed) {
        let i = choose|i: int| 0 <= i < pushed.len() && (#[trigger] pushed[i]).0 == Action::Jump;
        if i < events.len() {
            assert(events[i].0 == Action::Jump);
        }
    }
}

/// The translator reports a jump press exactly when the jump key is down and
/// jump has been released since the last reported press.
pub proof fn lemma_jump_press_needs_release(keys: KeyState, c: Controller)
    ensures
        jump_pressed(translated_events(keys, c)) <==> keys.jump && c.jump_released,
{
    let v = c.action_vector;
    let climbing = is_held(v, CLIMBING_MODE_MASK);
    let v0 = vector_after_climb_key(keys, v);
    let v1 = sampled_vector(v0, GRAB_LEFT_MASK, keys.grab_left);
    let v2 = sampled_vector(v1, GRAB_RIGHT_MASK, keys.grab_right);
    let v3 = sampled_vector(v2, GRAB_UP_MASK, keys.grab_up);
    let e0 = push_if(Seq::empty(), keys.jump && c.jump_released, Action::Jump);
    let e1 = push_if(e0, keys.climb && !climbing, Action::EnterClimbingMode);
    let e2 = push_if(e1, !keys.climb && climbing, Action::ExitClimbingMode);
    let left = climbing && rises(v0, GRAB_LEFT_MASK, keys.grab_left);
    let right = climbing && rises(v1, GRAB_RIGHT_MASK, keys.grab_right);
    let up = climbing && rises(v2, GRAB_UP_MASK, keys.grab_up);
    let down = climbing && rises(v3, GRAB_DOWN_MASK, keys.grab_down);
    let e3 = push_if(e2, left, Action::GrabLeft);
    let e4 = push_if(e3, right, Action::GrabRight);
    let e5 = push_if(e4, up, Action::GrabUp);
    let e6 = push_if(e5, down, Action::GrabDown);
    assert(e6 == translated_events(keys, c));
    if keys.jump && c.jump_released {
        assert(e0[0].0 == Action::Jump);
        assert(e6[0].0 == Action::Jump);
    } else {
        assert(!jump_pressed(e0));
        lemma_push_keeps_no_jump(e0, keys.climb && !climbing, Action::EnterClimbingMode);
        lemma_push_keeps_no_jump(e1, !keys.climb && climbing, Action::ExitClimbingMode);
        lemma_push_keeps_no_jump(e2, left, Action::GrabLeft);
        lemma_push_keeps_no_jump(e3, right, Action::GrabRight);
        lemma_push_keeps_no_jump(e4, up, Action::GrabUp);
        lemma_push_keeps_no_jump(e5, down, Action::GrabDown);
    }
}

/// No jump is made without a jump press.
///
/// Take a step that starts with no press pending in the buffer and in which
/// no jump press is reported. Then nothing is pending after the step, neither
/// the drive of the step nor the late jump makes a jump, and the next step
/// starts with no press pending again.
pub proof fn lemma_no_jump_without_press(
    buffer: BufferedJump,
    events: Seq<ActionEvent>,
    delta: u64,
    player: Player,
    state: PlayerState,
    coyote_timer: Countdown,
    coyote_events: Seq<CoyoteStart>,
)
    requires
        buffer.timer.is_finished(),
        !jump_pressed(events),
    ensures
        buffered(buffer, events, delta).timer.is_finished(),
        !buffered(buffer, events, delta).should_jump,
        !drive_jumps(state, buffered(buffer, events, delta).should_jump, player.jump_count),
        !coyote_jumps(
            player,
            coyote_timer,
            buffered(buffer, events, delta).should_jump,
            coyote_events,
            delta,
        ),
{
}

/// Holding the jump key never repeats a jump.
///
/// Take a step that starts with jump not released and with no press pending
/// in the buffer, during which the jump key is down. Then no jump press is
/// reported, the buffer stays empty, neither the drive of the step nor the
/// late jump makes a jump, and the next step starts in the same situation.
pub proof fn lemma_held_jump_never_repeats(
    keys: KeyState,
    c: Controller,
    buffer: BufferedJump,
    delta: u64,
    player: Player,
    state: PlayerState,
    coyote_timer: Countdown,
    coyote_events: Seq<CoyoteStart>,
)
    requires
        keys.jump,
        !c.jump_released,
        buffer.timer.is_finished(),
    ensures
        !jump_pressed(translated_events(keys, c)),
        !translated(keys, c).jump_released,
        buffered(buffer, translated_events(keys, c), delta).timer.is_finished(),
        !buffered(buffer, translated_events(keys, c), delta).should_jump,
        !drive_jumps(
            state,
            buffered(buffer, translated_events(keys, c), delta).should_jump,
            player.jump_count,
        ),
        !coyote_jumps(
            player,
            coyote_timer,
            buffered(buffer, translated_events(keys, c), delta).should_jump,
            coyote_events,
            delta,
        ),
{
    lemma_jump_press_needs_release(keys, c);
}

/// Without a pending jump press no jump is made, whatever the state.
pub proof fn lemma_no_jump_without_request(
    player: Player,
    state: PlayerState,
    coyote_timer: Countdown,
    coyote_events: Seq<CoyoteStart>,
    delta: u64,
)
    ensures
        !drive_jumps(state, false, player.jump_count),
        !coyote_jumps(player, coyote_timer, false, coyote_events, delta),
{
}

/// A jump press is remembered for the length of the buffer window: the
/// step of the press leaves the press pending exactly when it is shorter
/// than the window, and a later step without a new press keeps it pending
/// exactly while the time since the press is short of the window.
pub proof fn lemma_press_is_remembered(buffer: BufferedJump, events: Seq<ActionEvent>, delta: u64)
    ensures
        jump_pressed(events) ==> (buffered(buffer, events, delta).should_jump <==> delta
            < buffer.timer.duration),
        !jump_pressed(events) ==> (buffered(buffer, events, delta).should_jump <==> buffer.timer.elapsed
            + delta < buffer.timer.duration),
        buffered(buffer, events, delta).should_jump == !buffered(
            buffer,
            events,
            delta,
        ).timer.is_finished(),
{
}

/// A remembered jump press is served on landing.
///
/// Take a step in which the character is on the ground with the jump key
/// released, a jump press is still pending in the buffer and control is not
/// inhibited. Then the character jumps in that step, without a fresh press.
pub proof fn lemma_buffered_press_is_served_on_landing(
    controller: Controller,
    player: Player,
    velocity: Velocity,
    on_wall: OnWall,
    edge_grab: EdgeGrab,
    events: Seq<ActionEvent>,
    buffer: BufferedJump,
    delta: u64,
)
    requires
        controller.jump_released,
        buffered(buffer, events, delta).should_jump,
    ensures
        drive_jumps(
            stepped_state(controller, player, velocity, Grounded(true), on_wall, edge_grab, events),
            buffered(buffer, events, delta).should_jump,
            refreshed_jump_count(player.jump_count, true, on_wall.0, controller.jump_released),
        ),
{
    lemma_ground_precedence(controller, player, velocity, on_wall, edge_grab, events);
}

/// Leaving a surface opens the window: the step that reports it restarts
/// the timer, which then runs unless the window has no length, and in a
/// later step that is short of the window a pending jump press of a
/// character with a jump left makes the late jump.
pub proof fn lemma_leaving_a_surface_opens_the_window(
    player: Player,
    timer: Countdown,
    events: Seq<CoyoteStart>,
    delta: u64,
    later_delta: u64,
)
    requires
        events.len() > 0,
        timer.duration > 0,
        later_delta < timer.duration,
        player.may_jump(),
    ensures
        coyote_timer_after(timer, events, delta, false) == timer.after_reset(),
        !coyote_timer_after(timer, events, delta, false).is_finished(),
        coyote_jumps(
            player,
            coyote_timer_after(timer, events, delta, false),
            true,
            Seq::empty(),
            later_delta,
        ),
{
}

/// A late jump is only made inside the window: not in the step in which a
/// surface has just been left, and only while the time since then, this step
/// included, is short of the window's length.
pub proof fn lemma_coyote_jump_only_inside_window(
    player: Player,
    timer: Countdown,
    should_jump: bool,
    events: Seq<CoyoteStart>,
    delta: u64,
)
    requires
        coyote_jumps(player, timer, should_jump, events, delta),
    ensures
        events.len() == 0,
        timer.elapsed + delta < timer.duration,
        should_jump,
        player.may_jump(),
{
}

/// A late jump is made at most once per window.
///
/// After a late jump the window is closed, and while no surface is left
/// anew it stays closed and no further late jump is made, whatever is
/// pressed and however much time passes.
pub proof fn lemma_coyote_jump_once_per_window(
    player: Player,
    timer: Countdown,
    should_jump: bool,
    delta: u64,
    later_player: Player,
    later_should_jump: bool,
    later_delta: u64,
)
    requires
        coyote_jumps(player, timer, should_jump, Seq::empty(), delta),
    ensures
        coyote_timer_after(timer, Seq::empty(), delta, true).is_finished(),
        !coyote_window_open(
            coyote_timer_after(timer, Seq::empty(), delta, true),
            Seq::empty(),
            later_delta,
        ),
        !coyote_jumps(
            later_player,
            coyote_timer_after(timer, Seq::empty(), delta, true),
            later_should_jump,
            Seq::empty(),
            later_delta,
        ),
        coyote_timer_after(
            coyote_timer_after(timer, Seq::empty(), delta, true),
            Seq::empty(),
            later_delta,
            false,
        ) == coyote_timer_after(timer, Seq::empty(), delta, true),
{
}

/// A closed window stays closed until a surface is left anew.
pub proof fn lemma_closed_window_stays_closed(
    player: Player,
    timer: Countdown,
    should_jump: bool,
    delta: u64,
)
    requires
        timer.is_finished(),
    ensures
        !coyote_jumps(player, timer, should_jump, Seq::empty(), delta),
        coyote_timer_after(timer, Seq::empty(), delta, false) == timer,
{
}

/// Reported actions that do not toggle climbing mode leave the state as the
/// surroundings call for it.
pub proof fn lemma_actions_without_toggle_keep_state(state: PlayerState, events: Seq<ActionEvent>, on_wall: bool)
    requires
        !climbing_toggled(events),
    ensures
        after_actions(state, events, on_wall) == state,
    decreases events.len(),
{
    if events.len() > 0 {
        let front = events.drop_last();
        if climbing_toggled(front) {
            let i = choose|i: int|
                0 <= i < front.len() && ((#[trigger] front[i]).0 == Action::EnterClimbingMode
                    || front[i].0 == Action::ExitClimbingMode);
            assert(events[i] == front[i]);
        }
        lemma_actions_without_toggle_keep_state(state, front, on_wall);
        let last = events[events.len() - 1];
        assert(last.0 != Action::EnterClimbingMode && last.0 != Action::ExitClimbingMode);
    }
}

/// A ledge comes before a wall: off the ground, with a ledge to grab and the
/// faced direction held, the character hangs on the ledge whether or not it
/// also touches a wall.
pub proof fn lemma_edge_grab_precedence(
    controller: Controller,
    player: Player,
    velocity: Velocity,
    on_wall: OnWall,
    events: Seq<ActionEvent>,
)
    requires
        controller.direction.x == player.facing_direction.x,
        !climbing_toggled(events),
    ensures
        stepped_state(
            controller,
            player,
            velocity,
            Grounded(false),
            on_wall,
            EdgeGrab(true),
            events,
        ) == PlayerState::OnEdge,
{
    lemma_actions_without_toggle_keep_state(PlayerState::OnEdge, events, on_wall.0);
}

/// Ground comes before everything else: a grounded character is idle or
/// running whatever else it touches and whatever is reported.
pub proof fn lemma_ground_precedence(
    controller: Controller,
    player: Player,
    velocity: Velocity,
    on_wall: OnWall,
    edge_grab: EdgeGrab,
    events: Seq<ActionEvent>,
)
    ensures
        stepped_state(controller, player, velocity, Grounded(true), on_wall, edge_grab, events)
            == if is_still(velocity.linvel.x, controller.direction.x) {
            PlayerState::Idle
        } else {
            PlayerState::Running
        },
{
}

/// Off the ground, without a toggle of climbing mode, the state is what the
/// surroundings call for: in the air with nothing to touch; on a ledge that
/// can be grabbed, hanging if the faced direction is held and sliding
/// otherwise; on a plain wall, climbing if the character climbed before and
/// sliding otherwise.
pub proof fn lemma_state_off_the_ground(
    controller: Controller,
    player: Player,
    velocity: Velocity,
    on_wall: OnWall,
    edge_grab: EdgeGrab,
    events: Seq<ActionEvent>,
)
    requires
        !climbing_toggled(events),
    ensures
        stepped_state(controller, player, velocity, Grounded(false), on_wall, edge_grab, events)
            == if edge_grab.0 {
            if controller.direction.x == player.facing_direction.x {
                PlayerState::OnEdge
            } else {
                PlayerState::OnWall
            }
        } else if on_wall.0 {
            if player.previous_state == PlayerState::Climbing {
                PlayerState::Climbing
            } else {
                PlayerState::OnWall
            }
        } else {
            PlayerState::InAir
        },
{
    let called_for = classified(
        false,
        on_wall.0,
        edge_grab.0,
        is_still(velocity.linvel.x, controller.direction.x),
        controller.direction.x,
        player.facing_direction.x,
        player.previous_state,
    );
    lemma_actions_without_toggle_keep_state(called_for, events, on_wall.0);
}

/// A grounded character without horizontal input comes to rest: once its
/// horizontal speed is below the still speed it is idle, whatever state it
/// was in before and whatever is reported.
pub proof fn lemma_slow_on_ground_without_input_is_idle(
    controller: Controller,
    player: Player,
    velocity: Velocity,
    on_wall: OnWall,
    edge_grab: EdgeGrab,
    events: Seq<ActionEvent>,
)
    requires
        controller.direction.x == 0,
        -STILL_SPEED < velocity.linvel.x < STILL_SPEED,
    ensures
        stepped_state(controller, player, velocity, Grounded(true), on_wall, edge_grab, events)
            == PlayerState::Idle,
{
}

/// With no key down and climbing mode off, the translator reports nothing
/// and hands out the neutral direction and action.
pub proof fn lemma_no_key_is_neutral(c: Controller)
    requires
        !is_held(c.action_vector, CLIMBING_MODE_MASK),
    ensures
        translated_events(KeyState::released(), c) == Seq::<ActionEvent>::empty(),
        translated(KeyState::released(), c).direction.x == 0,
        translated(KeyState::released(), c).direction.y == 0,
        translated(KeyState::released(), c).action == Action::Neutral,
{
}

/// Sampling one input leaves every other input's bit as it was.
pub proof fn lemma_inputs_do_not_interfere(vector: u32, mask: u32, pressed: bool, other: u32)
    requires
        mask & other == 0,
    ensures
        is_held(sampled_vector(vector, mask, pressed), other) == is_held(vector, other),
{
    assert(mask & other == 0 ==> (vector | mask) & other == vector & other) by (bit_vector);
    assert(mask & other == 0 ==> (vector & !mask) & other == vector & other) by (bit_vector);
}

/// After a sample, a one-bit input is recorded as held exactly when it is
/// pressed, so the next sample fires only after a release.
pub proof fn lemma_sample_records_the_key(vector: u32, bit: u32, pressed: bool)
    requires
        bit < 32,
    ensures
        is_held(sampled_vector(vector, 1u32 << bit, pressed), 1u32 << bit) == pressed,
{
    let mask = 1u32 << bit;
    assert(bit < 32 ==> (1u32 << bit) != 0) by (bit_vector);
    assert(mask != 0 ==> (vector | mask) & mask != 0) by (bit_vector);
    assert((vector & !mask) & mask == 0) by (bit_vector);
}

} // verus!
