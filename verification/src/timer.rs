//! A millisecond-resolution game timer: it accumulates elapsed time each
//! frame and reports the tick on which it reaches its duration. A repeating
//! timer wraps around its duration; a one-shot timer stops there.

use vstd::prelude::*;

verus! {

/// Longest duration a timer may be created with, in milliseconds.
pub const MAX_TIMER_MS: u64 = 1_000_000_000;

#[derive(Clone, Copy, PartialEq, Eq, Structural, Debug)]
pub struct Timer {
    /// Time accumulated so far, in milliseconds.
    pub elapsed_ms: u64,
    /// Duration after which the timer finishes, in milliseconds.
    pub duration_ms: u64,
    /// A repeating timer starts over each time it finishes.
    pub repeating: bool,
    /// Whether the timer finished during the most recent tick.
    pub just_finished: bool,
}

impl Timer {
    /// The timer's fields are consistent: the duration is positive and
    /// bounded, and the elapsed time never runs past the duration.
    pub open spec fn wf(self) -> bool {
        &&& 0 < self.duration_ms <= MAX_TIMER_MS
        &&& self.repeating ==> self.elapsed_ms < self.duration_ms
        &&& !self.repeating ==> self.elapsed_ms <= self.duration_ms
    }

    pub fn new(duration_ms: u64, repeating: bool) -> (r: Timer)
        requires
            0 < duration_ms <= MAX_TIMER_MS,
        ensures
            r == (Timer { elapsed_ms: 0, duration_ms, repeating, just_finished: false }),
            r.wf(),
    {
        Timer { elapsed_ms: 0, duration_ms, repeating, just_finished: false }
    }

    /// Advance the timer by `delta_ms`. A repeating timer wraps its elapsed
    /// time modulo the duration; a one-shot timer clamps it at the duration
    /// and finishes only once.
    pub fn tick(&mut self, delta_ms: u32)
        requires
            old(self).wf(),
        ensures
            final(self).wf(),
            final(self).duration_ms == old(self).duration_ms,
            final(self).repeating == old(self).repeating,
            ({
                let total = old(self).elapsed_ms as int + delta_ms as int;
                let dur = old(self).duration_ms as int;
                if old(self).repeating {
                    &&& final(self).elapsed_ms as int == total % dur
                    &&& final(self).just_finished == (total >= dur)
                } else {
                    &&& final(self).elapsed_ms as int == if total >= dur { dur } else { total }
                    &&& final(self).just_finished == (old(self).elapsed_ms < old(self).duration_ms
                        && total >= dur)
                }
            }),
    {
        let total: u64 = self.elapsed_ms + delta_ms as u64;
        if self.repeating {
            self.just_finished = total >= self.duration_ms;
            self.elapsed_ms = total % self.duration_ms;
        } else {
            self.just_finished = self.elapsed_ms < self.duration_ms && total >= self.duration_ms;
            self.elapsed_ms = if total >= self.duration_ms { self.duration_ms } else { total };
        }
    }

    /// A one-shot timer has finished; a repeating timer finished on the most
    /// recent tick.
    pub fn finished(&self) -> (r: bool)
        ensures
            r == if self.repeating { self.just_finished } else { self.elapsed_ms >= self.duration_ms },
    {
        if self.repeating {
            self.just_finished
        } else {
            self.elapsed_ms >= self.duration_ms
        }
    }
}

} // verus!
