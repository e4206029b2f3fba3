//! Count-up timers that the state machine arms and queries.

use vstd::prelude::*;

verus! {

/// A timer that counts elapsed time up to a duration and then stays there.
///
/// Both fields are in nanoseconds. The timer is finished as soon as the
/// elapsed time has reached the duration; it never restarts by itself.
#[derive(Clone, Copy, Debug, PartialEq, Eq, Structural)]
pub struct Countdown {
    pub elapsed: u64,
    pub duration: u64,
}

impl Countdown {
    /// The timer has run for its whole duration.
    pub open spec fn is_finished(self) -> bool {
        self.elapsed >= self.duration
    }

    /// The timer after `delta` more nanoseconds: a finished timer stays as it
    /// is, a running one advances and stops at its duration.
    pub open spec fn after_tick(self, delta: u64) -> Countdown {
        if self.is_finished() {
            self
        } else if self.elapsed + delta >= self.duration {
            Countdown { elapsed: self.duration, duration: self.duration }
        } else {
            Countdown { elapsed: (self.elapsed + delta) as u64, duration: self.duration }
        }
    }

    /// The timer with its elapsed time back at zero.
    pub open spec fn after_reset(self) -> Countdown {
        Countdown { elapsed: 0, duration: self.duration }
    }

    /// The timer started afresh for `duration` nanoseconds.
    pub open spec fn armed(duration: u64) -> Countdown {
        Countdown { elapsed: 0, duration }
    }

    /// The timer for `duration` nanoseconds that has already run out.
    pub open spec fn spent(duration: u64) -> Countdown {
        Countdown { elapsed: duration, duration }
    }

    /// The timer with its elapsed time moved to the end of its duration.
    pub open spec fn after_expire(self) -> Countdown {
        if self.is_finished() {
            self
        } else {
            Countdown { elapsed: self.duration, duration: self.duration }
        }
    }

    /// A timer for `duration` nanoseconds with nothing elapsed yet.
    pub fn new(duration: u64) -> (t: Countdown)
        ensures
            t == Countdown::armed(duration),
    {
        Countdown { elapsed: 0, duration }
    }

    /// A timer for `duration` nanoseconds that has already run out. It stays
    /// finished until it is reset.
    pub fn new_spent(duration: u64) -> (t: Countdown)
        ensures
            t == Countdown::spent(duration),
            t.is_finished(),
    {
        Countdown { elapsed: duration, duration }
    }

    /// Whether the elapsed time has reached the duration.
    pub fn finished(&self) -> (r: bool)
        ensures
            r == self.is_finished(),
    {
        self.elapsed >= self.duration
    }

    /// Advances the timer by `delta` nanoseconds.
    pub fn tick(&mut self, delta: u64)
        ensures
            *final(self) == old(self).after_tick(delta),
    {
        if self.elapsed < self.duration {
            if delta >= self.duration - self.elapsed {
                self.elapsed = self.duration;
            } else {
                self.elapsed = self.elapsed + delta;
            }
        }
    }

    /// Sets the elapsed time back to zero and keeps the duration.
    pub fn reset(&mut self)
        ensures
            *final(self) == old(self).after_reset(),
    {
        self.elapsed = 0;
    }

    /// Changes the duration and keeps the elapsed time.
    pub fn set_duration(&mut self, duration: u64)
        ensures
            *final(self) == (Countdown { elapsed: old(self).elapsed, duration }),
    {
        self.duration = duration;
    }

    /// Starts the timer afresh for `duration` nanoseconds.
    pub fn arm(&mut self, duration: u64)
        ensures
            *final(self) == Countdown::armed(duration),
    {
        self.duration = duration;
        self.elapsed = 0;
    }

    /// Ends the timer now: a running timer jumps to its duration.
    pub fn expire(&mut self)
        ensures
            *final(self) == old(self).after_expire(),
            final(self).is_finished(),
    {
        if self.elapsed < self.duration {
            self.elapsed = self.duration;
        }
    }
}

/// Ticking never moves the elapsed time backwards and never changes the
/// duration.
pub proof fn lemma_tick_is_monotonic(t: Countdown, delta: u64)
    ensures
        t.after_tick(delta).elapsed >= t.elapsed,
        t.after_tick(delta).duration == t.duration,
{
}

/// A finished timer stays finished, and unchanged, however long it is ticked.
pub proof fn lemma_finished_is_stable(t: Countdown, delta: u64)
    requires
        t.is_finished(),
    ensures
        t.after_tick(delta) == t,
        t.after_tick(delta).is_finished(),
{
}

/// A running timer is finished after a tick exactly when the tick covers the
/// time that was left.
pub proof fn lemma_tick_finishes_when_due(t: Countdown, delta: u64)
    requires
        !t.is_finished(),
    ensures
        t.after_tick(delta).is_finished() <==> t.elapsed + delta >= t.duration,
{
}

/// A timer whose elapsed time is within its duration advances to the lesser
/// of the time run so far and the duration, and stays within the duration.
pub proof fn lemma_tick_advances_to_the_lesser(t: Countdown, delta: u64)
    requires
        t.elapsed <= t.duration,
    ensures
        t.after_tick(delta).elapsed == if t.elapsed + delta <= t.duration {
            t.elapsed + delta
        } else {
            t.duration as int
        },
        t.after_tick(delta).elapsed <= t.after_tick(delta).duration,
{
}

/// A reset starts the timer over: it runs again, unless its duration is zero.
pub proof fn lemma_reset_starts_over(t: Countdown)
    ensures
        t.after_reset().is_finished() <==> t.duration == 0,
        t.after_reset().elapsed <= t.after_reset().duration,
{
}

/// Resetting twice is the same as resetting once.
pub proof fn lemma_reset_is_idempotent(t: Countdown)
    ensures
        t.after_reset().after_reset() == t.after_reset(),
        t.after_reset().elapsed == 0,
{
}

} // verus!
