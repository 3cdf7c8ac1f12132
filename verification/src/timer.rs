//! Fixed-interval timers that gate the movement tick and the food spawn.
//! Each is an explicit elapsed-time accumulator checked once per frame with
//! the frame's elapsed wall-clock time; it fires at most once per frame, with
//! no catch-up firing for missed frames, and wraps the surplus time into the
//! next period.
use vstd::prelude::*;

verus! {

/// An elapsed-time accumulator with a fixed firing interval, both in
/// milliseconds.
#[derive(Clone, Copy, Debug, PartialEq, Eq, Structural)]
pub struct IntervalTimer {
    pub interval_ms: u64,
    pub elapsed_ms: u64,
}

impl IntervalTimer {
    /// A timer is well formed when its interval is positive and the
    /// accumulated time has not yet reached the interval.
    pub open spec fn wf(self) -> bool {
        self.interval_ms > 0 && self.elapsed_ms < self.interval_ms
    }

    /// Whether adding a frame's elapsed time makes the timer fire.
    pub open spec fn spec_fires(self, delta_ms: u64) -> bool {
        self.elapsed_ms + delta_ms >= self.interval_ms
    }

    /// A fresh timer with the given interval and no accumulated time.
    pub fn new(interval_ms: u64) -> (t: IntervalTimer)
        requires
            interval_ms > 0,
        ensures
            t.wf(),
            t.interval_ms == interval_ms,
            t.elapsed_ms == 0,
    {
        IntervalTimer { interval_ms, elapsed_ms: 0 }
    }

    /// Advance the timer by one frame's elapsed time. Returns whether the
    /// timer fired this frame: it fires exactly when the accumulated time
    /// reaches the interval, at most once per frame, and on firing keeps only
    /// the surplus beyond a whole number of intervals (no catch-up firing for
    /// missed frames).
    pub fn tick(&mut self, delta_ms: u64) -> (fired: bool)
        requires
            old(self).wf(),
            delta_ms <= u64::MAX - old(self).interval_ms,
        ensures
            final(self).wf(),
            final(self).interval_ms == old(self).interval_ms,
            fired == old(self).spec_fires(delta_ms),
            fired ==> final(self).elapsed_ms
                == (old(self).elapsed_ms + delta_ms) % (old(self).interval_ms as int),
            !fired ==> final(self).elapsed_ms == old(self).elapsed_ms + delta_ms,
    {
        let total = self.elapsed_ms + delta_ms;
        if total >= self.interval_ms {
            self.elapsed_ms = total % self.interval_ms;
            true
        } else {
            self.elapsed_ms = total;
            false
        }
    }
}

} // verus!
