//! The marker that shows a climbing character where to grab next.

use vstd::prelude::*;
use crate::player::{Player, PlayerState};
use crate::units::Vector;

verus! {

/// How far above the character's centre the hold marker floats, in
/// fixed-point steps.
pub const HOLD_MARKER_HEIGHT: i32 = 48_000;

/// Where the hold marker is shown: above a climbing character, given as an
/// offset from its centre, and nowhere for any other state.
pub fn show_hold(player: &Player) -> (offset: Option<Vector>)
    ensures
        offset == if player.state == PlayerState::Climbing {
            Some(Vector { x: 0, y: HOLD_MARKER_HEIGHT })
        } else {
            None
        },
{
    if player.state == PlayerState::Climbing {
        Some(Vector { x: 0, y: HOLD_MARKER_HEIGHT })
    } else {
        None
    }
}

} // verus!
