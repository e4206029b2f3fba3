//! Holds on a climbing wall and the keys shown on them.

use vstd::prelude::*;

verus! {

/// First frame of the key symbols on the tile sheet.
pub const HOLD_KEY_FRAMES: usize = 24;

/// The key that takes a hold.
#[derive(Clone, Copy, Debug, PartialEq, Eq, Structural)]
pub enum HoldKey {
    A,
    S,
    D,
    W,
}

/// A hold on a wall.
#[derive(Clone, Copy, Debug, PartialEq, Eq, Structural)]
pub struct WallHold {
    /// The key that takes the hold.
    pub key: HoldKey,
    /// The frame of the wall tile that the hold sits on.
    pub wall_index: usize,
}

/// Whether the holds show their keys.
#[derive(Clone, Copy, Debug, PartialEq, Eq, Structural, Default)]
pub enum HoldsVisibility {
    #[default]
    Hidden,
    Visible,
}

/// A request to show or to hide the keys on the holds.
#[derive(Clone, Copy, Debug, PartialEq, Eq, Structural, Default)]
pub struct ShowHolds(pub HoldsVisibility);

/// The place of a key among the key symbols: A, S, D, W.
pub open spec fn key_number(key: HoldKey) -> usize {
    match key {
        HoldKey::A => 0,
        HoldKey::S => 1,
        HoldKey::D => 2,
        HoldKey::W => 3,
    }
}

/// The frame of a hold: its key symbol while the keys are visible, the wall
/// tile it sits on while they are hidden.
pub open spec fn hold_frame(hold: WallHold, visibility: HoldsVisibility) -> usize {
    match visibility {
        HoldsVisibility::Hidden => hold.wall_index,
        HoldsVisibility::Visible => (HOLD_KEY_FRAMES + key_number(hold.key)) as usize,
    }
}

/// The key for a draw: 0, 1 and 2 give A, S and D, every other number W.
pub fn hold_key(draw: u32) -> (key: HoldKey)
    ensures
        key == match draw {
            0 => HoldKey::A,
            1 => HoldKey::S,
            2 => HoldKey::D,
            _ => HoldKey::W,
        },
        draw <= 3 ==> key_number(key) == draw,
{
    match draw {
        0 => HoldKey::A,
        1 => HoldKey::S,
        2 => HoldKey::D,
        _ => HoldKey::W,
    }
}

/// Applies the requests of a step to the frame of one hold: the last request
/// decides, and without a request the frame stays.
pub fn show_hold(show_events: &[ShowHolds], hold: &WallHold, atlas_index: &mut usize)
    ensures
        *final(atlas_index) == if show_events@.len() == 0 {
            *old(atlas_index)
        } else {
            hold_frame(*hold, show_events@.last().0)
        },
{
    let count = show_events.len();
    if count > 0 {
        match show_events[count - 1].0 {
            HoldsVisibility::Hidden => {
                *atlas_index = hold.wall_index;
            },
            HoldsVisibility::Visible => {
                let number: usize = match hold.key {
                    HoldKey::A => 0,
                    HoldKey::S => 1,
                    HoldKey::D => 2,
                    HoldKey::W => 3,
                };
                *atlas_index = HOLD_KEY_FRAMES + number;
            },
        }
    }
}

} // verus!
