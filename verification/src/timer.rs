//! A countdown timer over integer milliseconds, in one-shot or repeating
//! form. One-shot timers saturate at their duration and stay finished;
//! repeating timers wrap their elapsed time and report finishing only on the
//! tick that crossed the duration.

use vstd::prelude::*;

verus! {

/// Durations and deltas are kept below this bound (about 34 years) so that
/// ticking can never overflow.
pub const TIME_LIMIT_MS: u64 = 0x10000000000;

#[derive(Clone, Copy, Debug, PartialEq, Eq, Structural)]
pub struct Timer {
    pub duration_ms: u64,
    pub elapsed_ms: u64,
    pub repeating: bool,
    pub finished: bool,
}

impl Timer {
    /// A timer is well formed when its duration is positive and bounded and
    /// its elapsed time never exceeds the duration (never reaches it, for a
    /// repeating timer, which wraps).
    pub open spec fn wf(&self) -> bool {
        &&& 0 < self.duration_ms <= TIME_LIMIT_MS
        &&& self.elapsed_ms <= self.duration_ms
        &&& self.repeating ==> self.elapsed_ms < self.duration_ms
    }

    pub fn new(duration_ms: u64, repeating: bool) -> (r: Timer)
        requires
            0 < duration_ms <= TIME_LIMIT_MS,
        ensures
            r.wf(),
            r.duration_ms == duration_ms,
            r.elapsed_ms == 0,
            r.repeating == repeating,
            !r.finished,
    {
        Timer { duration_ms, elapsed_ms: 0, repeating, finished: false }
    }

    /// Advances the timer. A one-shot timer saturates at its duration and
    /// then stays finished; a repeating timer wraps its elapsed time and is
    /// finished exactly when this tick reached the duration.
    pub fn tick(&mut self, delta_ms: u64)
        requires
            old(self).wf(),
            delta_ms <= TIME_LIMIT_MS,
        ensures
            final(self).wf(),
            *final(self) == spec_tick(*old(self), delta_ms as int),
    {
        let total: u64 = self.elapsed_ms + delta_ms;
        if total >= self.duration_ms {
            self.finished = true;
            if self.repeating {
                self.elapsed_ms = total % self.duration_ms;
            } else {
                self.elapsed_ms = self.duration_ms;
            }
        } else {
            self.finished = false;
            self.elapsed_ms = total;
        }
    }

    /// Whether the timer has reached its duration: permanently for a one-shot
    /// timer, on the last tick for a repeating one.
    pub fn is_finished(&self) -> (r: bool)
        ensures
            r == self.finished,
    {
        self.finished
    }

    /// Rewinds the timer to the start.
    pub fn reset(&mut self)
        ensures
            *final(self) == (Timer { elapsed_ms: 0, finished: false, ..*old(self) }),
    {
        self.elapsed_ms = 0;
        self.finished = false;
    }

    /// Replaces the duration, keeping the elapsed time. An elapsed time now
    /// past the new duration is clamped onto it (just below it, for a
    /// repeating timer, which never rests at its duration).
    pub fn set_duration(&mut self, duration_ms: u64)
        requires
            old(self).wf(),
            0 < duration_ms <= TIME_LIMIT_MS,
        ensures
            final(self).wf(),
            final(self).duration_ms == duration_ms,
            final(self).repeating == old(self).repeating,
            final(self).finished == old(self).finished,
            final(self).elapsed_ms == min_elapsed(
                old(self).elapsed_ms as int,
                duration_ms as int,
                old(self).repeating,
            ),
    {
        self.duration_ms = duration_ms;
        if self.repeating {
            if self.elapsed_ms >= duration_ms {
                self.elapsed_ms = duration_ms - 1;
            }
        } else {
            if self.elapsed_ms > duration_ms {
                self.elapsed_ms = duration_ms;
            }
        }
    }

    /// Time left until the duration is reached.
    pub fn remaining_ms(&self) -> (r: u64)
        requires
            self.wf(),
        ensures
            r == self.duration_ms - self.elapsed_ms,
    {
        self.duration_ms - self.elapsed_ms
    }
}

/// The state of a timer after one tick of `delta` milliseconds: the elapsed
/// time grows, saturating at the duration for a one-shot timer and wrapping
/// for a repeating one, and `finished` records whether the duration was
/// reached.
pub open spec fn spec_tick(t: Timer, delta: int) -> Timer {
    let total = t.elapsed_ms + delta;
    let d = t.duration_ms as int;
    if total >= d {
        Timer {
            elapsed_ms: if t.repeating {
                (total % d) as u64
            } else {
                t.duration_ms
            },
            finished: true,
            ..t
        }
    } else {
        Timer { elapsed_ms: total as u64, finished: false, ..t }
    }
}

/// The elapsed time after a duration change: clamped onto the new duration,
/// staying strictly below it for a repeating timer.
pub open spec fn min_elapsed(elapsed: int, duration: int, repeating: bool) -> int {
    if repeating {
        if elapsed >= duration {
            duration - 1
        } else {
            elapsed
        }
    } else {
        if elapsed > duration {
            duration
        } else {
            elapsed
        }
    }
}

} // verus!
