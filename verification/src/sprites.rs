//! Choice of the sprite-sheet frame, the sprite's orientation and the burst
//! of particles under a jump, from the character's state.
//!
//! Nothing here feeds back into the state machine.

use vstd::prelude::*;
use crate::player::{Player, PlayerState};
use crate::timer::Countdown;

verus! {

/// First and last frame of the running animation.
pub const SPRITE_RUN_IDX: (usize, usize) = (0, 7);

/// First and last frame of the walking animation.
pub const SPRITE_WALK_IDX: (usize, usize) = (8, 15);

/// First and last frame of the idle animation.
pub const SPRITE_IDLE_IDX: (usize, usize) = (16, 23);

/// First and last frame of the jump animation.
pub const SPRITE_JUMP_IDX: (usize, usize) = (25, 26);

/// The frame shown while the character holds on to a wall or a ledge.
pub const SPRITE_HOLD_IDX: usize = 13;

/// Time between two frames of an animation, in nanoseconds.
pub const FRAME_TIME: u64 = 100_000_000;

/// How long particles are emitted after a jump, in nanoseconds.
pub const PARTICLE_TIME: u64 = 100_000_000;

/// How far below the character's centre the particles start, in fixed-point
/// steps.
pub const PARTICLE_DROP: i32 = 32_000;

/// A range of frames on the sprite sheet.
#[derive(Clone, Copy, Debug, PartialEq, Eq, Structural)]
pub struct AnimationIndices {
    pub first: usize,
    pub last: usize,
}

/// The timer that paces an animation. It restarts by itself whenever it has
/// run for its duration and carries the surplus over.
#[derive(Clone, Copy, Debug, PartialEq, Eq, Structural)]
pub struct AnimationTimer(pub Countdown);

/// The timer that ends the burst of particles after a jump.
#[derive(Clone, Copy, Debug, PartialEq, Eq, Structural)]
pub struct JumpParticulesTimer(pub Countdown);

/// What to do with the particle emitter.
#[derive(Clone, Copy, Debug, PartialEq, Eq, Structural)]
pub enum Emission {
    /// Move the emitter under the character and start it.
    Start,
    /// Leave the emitter as it is.
    Keep,
    /// Stop the emitter.
    Stop,
}

/// The next frame of an animation that runs round from `first` to `last`:
/// a frame outside the range, or the last one, is followed by the first.
pub open spec fn next_in_cycle(index: usize, first: usize, last: usize) -> usize {
    if index < first || index >= last {
        first
    } else {
        (index + 1) as usize
    }
}

/// The next frame of an animation that runs once from `first` to `last` and
/// stays there.
pub open spec fn next_in_run(index: usize, first: usize, last: usize) -> usize {
    if index < first {
        first
    } else if index >= last {
        last
    } else {
        (index + 1) as usize
    }
}

/// The frame to show after a step. On a wall or a ledge the hold frame is
/// shown at once; a climbing character keeps its frame; otherwise the
/// animation of the state advances whenever a frame is due.
pub open spec fn next_frame(state: PlayerState, index: usize, frame_due: bool) -> usize {
    match state {
        PlayerState::OnEdge | PlayerState::OnWall => SPRITE_HOLD_IDX,
        PlayerState::Climbing => index,
        PlayerState::Idle => if frame_due {
            next_in_cycle(index, SPRITE_IDLE_IDX.0, SPRITE_IDLE_IDX.1)
        } else {
            index
        },
        PlayerState::Running => if frame_due {
            next_in_cycle(index, SPRITE_RUN_IDX.0, SPRITE_RUN_IDX.1)
        } else {
            index
        },
        PlayerState::InAir => if frame_due {
            next_in_run(index, SPRITE_JUMP_IDX.0, SPRITE_JUMP_IDX.1)
        } else {
            index
        },
    }
}

impl AnimationTimer {
    /// A frame is due after `delta` more nanoseconds.
    pub open spec fn is_due(self, delta: u64) -> bool {
        self.0.elapsed + delta >= self.0.duration
    }

    /// The timer after `delta` more nanoseconds: once the duration is
    /// reached it starts over with what is left of the time.
    pub open spec fn after_tick(self, delta: u64) -> AnimationTimer {
        if !self.is_due(delta) {
            AnimationTimer(
                Countdown { elapsed: (self.0.elapsed + delta) as u64, duration: self.0.duration },
            )
        } else if self.0.duration == 0 {
            AnimationTimer(Countdown { elapsed: 0, duration: 0 })
        } else {
            AnimationTimer(
                Countdown {
                    elapsed: ((self.0.elapsed + delta) % (self.0.duration as int)) as u64,
                    duration: self.0.duration,
                },
            )
        }
    }

    /// A timer that makes a frame due every [`FRAME_TIME`].
    pub fn new() -> (t: AnimationTimer)
        ensures
            t.0 == Countdown::armed(FRAME_TIME),
    {
        AnimationTimer(Countdown::new(FRAME_TIME))
    }

    /// Advances the timer by `delta` nanoseconds and says whether a frame
    /// has become due.
    pub fn tick(&mut self, delta: u64) -> (due: bool)
        ensures
            due == old(self).is_due(delta),
            *final(self) == old(self).after_tick(delta),
    {
        let total: u128 = self.0.elapsed as u128 + delta as u128;
        let duration: u128 = self.0.duration as u128;
        if total < duration {
            self.0.elapsed = total as u64;
            false
        } else if self.0.duration == 0 {
            self.0.elapsed = 0;
            true
        } else {
            self.0.elapsed = (total % duration) as u64;
            true
        }
    }
}

impl JumpParticulesTimer {
    /// A timer that has just started a burst of [`PARTICLE_TIME`].
    pub fn new() -> (t: JumpParticulesTimer)
        ensures
            t.0 == Countdown::armed(PARTICLE_TIME),
    {
        JumpParticulesTimer(Countdown::new(PARTICLE_TIME))
    }
}

/// Advances the animation by one step of `delta` nanoseconds and picks the
/// frame for the character's state.
pub fn animate_sprite(delta: u64, timer: &mut AnimationTimer, atlas_index: &mut usize, player: &Player)
    ensures
        *final(timer) == old(timer).after_tick(delta),
        *final(atlas_index) == next_frame(player.state, *old(atlas_index), old(timer).is_due(delta)),
{
    let due = timer.tick(delta);
    let index = *atlas_index;
    match player.state {
        PlayerState::Idle => {
            if due {
                *atlas_index = if index < SPRITE_IDLE_IDX.0 || index >= SPRITE_IDLE_IDX.1 {
                    SPRITE_IDLE_IDX.0
                } else {
                    index + 1
                };
            }
        },
        PlayerState::Running => {
            if due {
                *atlas_index = if index < SPRITE_RUN_IDX.0 || index >= SPRITE_RUN_IDX.1 {
                    SPRITE_RUN_IDX.0
                } else {
                    index + 1
                };
            }
        },
        PlayerState::InAir => {
            if due {
                *atlas_index = if index < SPRITE_JUMP_IDX.0 {
                    SPRITE_JUMP_IDX.0
                } else if index >= SPRITE_JUMP_IDX.1 {
                    SPRITE_JUMP_IDX.1
                } else {
                    index + 1
                };
            }
        },
        PlayerState::OnEdge | PlayerState::OnWall => {
            *atlas_index = SPRITE_HOLD_IDX;
        },
        PlayerState::Climbing => {},
    }
}

/// Whether the sprite is mirrored: it is drawn facing right and flipped for
/// every other facing direction.
pub fn animate_direction(player: &Player) -> (flip_x: bool)
    ensures
        flip_x == !(player.facing_direction.x == 1 && player.facing_direction.y == 0),
{
    !(player.facing_direction.x == 1 && player.facing_direction.y == 0)
}

/// Decides what the particle emitter does during a step of `delta`
/// nanoseconds. A jump starts a burst and restarts the timer; otherwise the
/// timer advances and the emitter is stopped once the timer has run out.
pub fn jump_particules(delta: u64, jumped: bool, timer: &mut JumpParticulesTimer) -> (emission: Emission)
    ensures
        final(timer).0 == if jumped {
            old(timer).0.after_reset()
        } else {
            old(timer).0.after_tick(delta)
        },
        emission == if jumped {
            Emission::Start
        } else if old(timer).0.after_tick(delta).is_finished() {
            Emission::Stop
        } else {
            Emission::Keep
        },
{
    if jumped {
        timer.0.reset();
        Emission::Start
    } else {
        timer.0.tick(delta);
        if timer.0.finished() {
            Emission::Stop
        } else {
            Emission::Keep
        }
    }
}

} // verus!
