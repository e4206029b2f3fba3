//! Translation of held keys into the per-step controller snapshot.
//!
//! The translator is fed the keys that are down during one simulation step.
//! It rewrites the [`Controller`] and reports the one-shot events of the
//! step: a jump press, entering or leaving climbing mode, and a fresh grab in
//! one of four directions.

use vstd::prelude::*;
use crate::units::Direction;

verus! {

/// What the player asks for during one step.
#[derive(Clone, Copy, Debug, PartialEq, Eq, Structural, Default)]
pub enum Action {
    /// Nothing is asked for.
    #[default]
    Neutral,
    Jump,
    EnterClimbingMode,
    ExitClimbingMode,
    GrabLeft,
    GrabRight,
    GrabUp,
    GrabDown,
}

/// Bit of [`Controller::action_vector`] reserved for the jump key.
pub const JUMP_MASK: u32 = 1;

/// Bit of [`Controller::action_vector`] that is set while climbing mode is on.
pub const CLIMBING_MODE_MASK: u32 = 2;

/// Bit of [`Controller::action_vector`] that is set while grab-left is held.
pub const GRAB_LEFT_MASK: u32 = 4;

/// Bit of [`Controller::action_vector`] that is set while grab-right is held.
pub const GRAB_RIGHT_MASK: u32 = 8;

/// Bit of [`Controller::action_vector`] that is set while grab-up is held.
pub const GRAB_UP_MASK: u32 = 16;

/// Bit of [`Controller::action_vector`] that is set while grab-down is held.
pub const GRAB_DOWN_MASK: u32 = 32;

/// A one-shot action, reported once when its key goes down (or, for leaving
/// climbing mode, once when the key goes up).
#[derive(Clone, Copy, Debug, PartialEq, Eq, Structural, Default)]
pub struct ActionEvent(pub Action);

/// The keys that are down during one step, already mapped from the device.
#[derive(Clone, Copy, Debug, PartialEq, Eq, Structural, Default)]
pub struct KeyState {
    pub left: bool,
    pub right: bool,
    pub jump: bool,
    pub climb: bool,
    pub grab_left: bool,
    pub grab_right: bool,
    pub grab_up: bool,
    pub grab_down: bool,
}

impl KeyState {
    /// No key is down.
    pub open spec fn released() -> KeyState {
        KeyState {
            left: false,
            right: false,
            jump: false,
            climb: false,
            grab_left: false,
            grab_right: false,
            grab_up: false,
            grab_down: false,
        }
    }

    /// The key state with no key down.
    pub fn new() -> (keys: KeyState)
        ensures
            keys == KeyState::released(),
    {
        KeyState {
            left: false,
            right: false,
            jump: false,
            climb: false,
            grab_left: false,
            grab_right: false,
            grab_up: false,
            grab_down: false,
        }
    }
}

/// The input snapshot that the state machine reads.
#[derive(Clone, Copy, Debug, PartialEq, Eq, Structural)]
pub struct Controller {
    /// Held direction: x is -1, 0 or 1, y is 1 while jump is held.
    pub direction: Direction,
    /// `Jump` while the jump key is held, `Neutral` otherwise.
    pub action: Action,
    /// The action of the step before.
    pub previous_action: Action,
    /// The jump key has been let go since the last jump press was reported.
    pub jump_released: bool,
    /// Which one-shot inputs are currently held, one bit each.
    pub action_vector: u32,
}

/// Whether any bit of `mask` is set in `vector`.
pub open spec fn is_held(vector: u32, mask: u32) -> bool {
    vector & mask != 0
}

/// The bit vector after one sample of the input behind `mask`: a press sets
/// the bits unless one is already set, a release clears them.
pub open spec fn sampled_vector(vector: u32, mask: u32, pressed: bool) -> u32 {
    if pressed {
        if is_held(vector, mask) {
            vector
        } else {
            vector | mask
        }
    } else {
        vector & !mask
    }
}

/// Whether a sample is a rising edge: pressed now and not held before.
pub open spec fn rises(vector: u32, mask: u32, pressed: bool) -> bool {
    pressed && !is_held(vector, mask)
}

/// The held direction for a set of keys: right wins over left, and the jump
/// key adds one step upwards.
pub open spec fn held_direction(keys: KeyState) -> Direction {
    Direction {
        x: if keys.right { 1i8 } else if keys.left { -1i8 } else { 0i8 },
        y: if keys.jump { 1i8 } else { 0i8 },
    }
}

/// Whether jump counts as released after a step: a press consumes the
/// release, and letting go after a held step gives it back.
pub open spec fn released_after(keys: KeyState, c: Controller) -> bool {
    if keys.jump {
        false
    } else {
        c.jump_released || c.previous_action == Action::Jump
    }
}

/// The bit vector after the climbing-mode key has been sampled.
pub open spec fn vector_after_climb_key(keys: KeyState, vector: u32) -> u32 {
    let climbing = is_held(vector, CLIMBING_MODE_MASK);
    if keys.climb && !climbing {
        vector | CLIMBING_MODE_MASK
    } else if !keys.climb && climbing {
        vector & !CLIMBING_MODE_MASK
    } else {
        vector
    }
}

/// The bit vector after a whole step. The grab keys are only sampled when
/// climbing mode was already on at the start of the step.
pub open spec fn translated_vector(keys: KeyState, vector: u32) -> u32 {
    let v0 = vector_after_climb_key(keys, vector);
    if is_held(vector, CLIMBING_MODE_MASK) {
        let v1 = sampled_vector(v0, GRAB_LEFT_MASK, keys.grab_left);
        let v2 = sampled_vector(v1, GRAB_RIGHT_MASK, keys.grab_right);
        let v3 = sampled_vector(v2, GRAB_UP_MASK, keys.grab_up);
        sampled_vector(v3, GRAB_DOWN_MASK, keys.grab_down)
    } else {
        v0
    }
}

/// The controller after one step with `keys` held.
pub open spec fn translated(keys: KeyState, c: Controller) -> Controller {
    let action = if keys.jump { Action::Jump } else { Action::Neutral };
    Controller {
        direction: held_direction(keys),
        action,
        previous_action: action,
        jump_released: released_after(keys, c),
        action_vector: translated_vector(keys, c.action_vector),
    }
}

/// `events` with `ActionEvent(action)` appended if `fires`, unchanged otherwise.
pub open spec fn push_if(events: Seq<ActionEvent>, fires: bool, action: Action) -> Seq<ActionEvent> {
    if fires {
        events.push(ActionEvent(action))
    } else {
        events
    }
}

/// The events of one step, in the order in which they are reported: jump,
/// the climbing-mode toggle, then the grabs left, right, up and down.
pub open spec fn translated_events(keys: KeyState, c: Controller) -> Seq<ActionEvent> {
    let v = c.action_vector;
    let climbing = is_held(v, CLIMBING_MODE_MASK);
    let v0 = vector_after_climb_key(keys, v);
    let v1 = sampled_vector(v0, GRAB_LEFT_MASK, keys.grab_left);
    let v2 = sampled_vector(v1, GRAB_RIGHT_MASK, keys.grab_right);
    let v3 = sampled_vector(v2, GRAB_UP_MASK, keys.grab_up);
    let e0 = push_if(Seq::empty(), keys.jump && c.jump_released, Action::Jump);
    let e1 = push_if(e0, keys.climb && !climbing, Action::EnterClimbingMode);
    let e2 = push_if(e1, !keys.climb && climbing, Action::ExitClimbingMode);
    let e3 = push_if(e2, climbing && rises(v0, GRAB_LEFT_MASK, keys.grab_left), Action::GrabLeft);
    let e4 = push_if(e3, climbing && rises(v1, GRAB_RIGHT_MASK, keys.grab_right), Action::GrabRight);
    let e5 = push_if(e4, climbing && rises(v2, GRAB_UP_MASK, keys.grab_up), Action::GrabUp);
    push_if(e5, climbing && rises(v3, GRAB_DOWN_MASK, keys.grab_down), Action::GrabDown)
}

impl Controller {
    /// The direction is made of unit steps and does not point down.
    pub open spec fn wf(self) -> bool {
        -1 <= self.direction.x <= 1 && 0 <= self.direction.y <= 1
    }

    /// The neutral snapshot: nothing held, jump released.
    pub open spec fn neutral() -> Controller {
        Controller {
            direction: Direction { x: 0, y: 0 },
            action: Action::Neutral,
            previous_action: Action::Neutral,
            jump_released: true,
            action_vector: 0,
        }
    }

    /// A controller with nothing held and jump released.
    pub fn new() -> (c: Controller)
        ensures
            c == Controller::neutral(),
            c.wf(),
    {
        Controller {
            direction: Direction { x: 0, y: 0 },
            action: Action::Neutral,
            previous_action: Action::Neutral,
            jump_released: true,
            action_vector: 0,
        }
    }
}

/// Samples one edge-triggered input. Returns true exactly on a rising edge
/// and records in the bit vector whether the input is held.
pub fn handle_key_input(controller: &mut Controller, action_mask: u32, key_pressed: bool) -> (fired: bool)
    ensures
        fired == rises(old(controller).action_vector, action_mask, key_pressed),
        final(controller).action_vector == sampled_vector(
            old(controller).action_vector,
            action_mask,
            key_pressed,
        ),
        final(controller).direction == old(controller).direction,
        final(controller).action == old(controller).action,
        final(controller).previous_action == old(controller).previous_action,
        final(controller).jump_released == old(controller).jump_released,
{
    let held = controller.action_vector & action_mask != 0;
    if key_pressed {
        if !held {
            controller.action_vector = controller.action_vector | action_mask;
            return true;
        }
    } else {
        controller.action_vector = controller.action_vector & !action_mask;
    }
    false
}

/// Translates the keys of one step into the controller snapshot and the
/// one-shot events of the step.
pub fn keyboard_inputs(keys: &KeyState, controller: &mut Controller) -> (events: Vec<ActionEvent>)
    ensures
        *final(controller) == translated(*keys, *old(controller)),
        events@ == translated_events(*keys, *old(controller)),
        final(controller).wf(),
{
    let mut events: Vec<ActionEvent> = Vec::new();
    controller.action = Action::Neutral;
    controller.direction = Direction { x: 0, y: 0 };

    if keys.right {
        controller.direction.x = 1;
    } else if keys.left {
        controller.direction.x = -1;
    }

    if keys.jump {
        controller.direction.y = 1;
        controller.action = Action::Jump;
        if controller.jump_released {
            events.push(ActionEvent(Action::Jump));
            controller.jump_released = false;
        }
    } else if controller.previous_action == Action::Jump {
        controller.jump_released = true;
    }

    let climb_mode = controller.action_vector & CLIMBING_MODE_MASK != 0;
    if keys.climb {
        if !climb_mode {
            events.push(ActionEvent(Action::EnterClimbingMode));
            controller.action_vector = controller.action_vector | CLIMBING_MODE_MASK;
        }
    } else if climb_mode {
        events.push(ActionEvent(Action::ExitClimbingMode));
        controller.action_vector = controller.action_vector & !CLIMBING_MODE_MASK;
    }

    if climb_mode {
        if handle_key_input(controller, GRAB_LEFT_MASK, keys.grab_left) {
            events.push(ActionEvent(Action::GrabLeft));
        }
        if handle_key_input(controller, GRAB_RIGHT_MASK, keys.grab_right) {
            events.push(ActionEvent(Action::GrabRight));
        }
        if handle_key_input(controller, GRAB_UP_MASK, keys.grab_up) {
            events.push(ActionEvent(Action::GrabUp));
        }
        if handle_key_input(controller, GRAB_DOWN_MASK, keys.grab_down) {
            events.push(ActionEvent(Action::GrabDown));
        }
    }

    controller.previous_action = controller.action;
    events
}

} // verus!
