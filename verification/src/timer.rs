use vstd::prelude::*;

use crate::frac::UnitFrac;

verus! {

/// A saturating duration counter, the primitive under every splash stage.
///
/// Durations and elapsed time are integer time units; the host picks the
/// granularity (milliseconds, for instance). `elapsed` starts at zero, only
/// grows, and is clamped to `duration` once the timer finishes. A timer of
/// duration zero is finished from the start and is never advanced.
#[derive(Clone, Copy, Debug, PartialEq, Eq, Structural)]
pub struct Timer {
    pub duration: u64,
    pub elapsed: u64,
}

impl Timer {
    /// Well-formed: elapsed time never exceeds the duration.
    pub open spec fn inv(self) -> bool {
        self.elapsed <= self.duration
    }

    /// Finished: the elapsed time has reached the duration.
    pub open spec fn spec_finished(self) -> bool {
        self.elapsed >= self.duration
    }

    /// The timer after advancing by `delta`, saturating at the duration.
    pub open spec fn spec_advanced(self, delta: u64) -> Timer {
        if self.elapsed + delta >= self.duration {
            Timer { duration: self.duration, elapsed: self.duration }
        } else {
            Timer { duration: self.duration, elapsed: (self.elapsed + delta) as u64 }
        }
    }

    /// The fraction of the duration already elapsed; one for a zero duration.
    pub open spec fn spec_fraction_elapsed(self) -> UnitFrac {
        if self.duration == 0 {
            UnitFrac { num: 1, den: 1 }
        } else {
            UnitFrac { num: self.elapsed, den: self.duration }
        }
    }

    /// The fraction of the duration still to run; zero for a zero duration.
    pub open spec fn spec_fraction_remaining(self) -> UnitFrac {
        if self.duration == 0 {
            UnitFrac { num: 0, den: 1 }
        } else {
            UnitFrac { num: (self.duration - self.elapsed) as u64, den: self.duration }
        }
    }

    /// A fresh timer with the given duration and nothing elapsed.
    pub fn new(duration: u64) -> (r: Timer)
        ensures
            r == (Timer { duration, elapsed: 0u64 }),
            r.inv(),
    {
        Timer { duration, elapsed: 0 }
    }

    /// Add `delta` to the elapsed time, saturating at the duration.
    pub fn advance(&mut self, delta: u64)
        requires
            old(self).inv(),
        ensures
            final(self).inv(),
            *final(self) == old(self).spec_advanced(delta),
    {
        let remaining = self.duration - self.elapsed;
        if delta >= remaining {
            self.elapsed = self.duration;
        } else {
            self.elapsed = self.elapsed + delta;
        }
    }

    pub fn is_finished(&self) -> (r: bool)
        ensures
            r == self.spec_finished(),
    {
        self.elapsed >= self.duration
    }

    pub fn fraction_elapsed(&self) -> (r: UnitFrac)
        requires
            self.inv(),
        ensures
            r == self.spec_fraction_elapsed(),
            r.inv(),
    {
        if self.duration == 0 {
            UnitFrac { num: 1, den: 1 }
        } else {
            UnitFrac { num: self.elapsed, den: self.duration }
        }
    }

    pub fn fraction_remaining(&self) -> (r: UnitFrac)
        requires
            self.inv(),
        ensures
            r == self.spec_fraction_remaining(),
            r.inv(),
    {
        if self.duration == 0 {
            UnitFrac { num: 0, den: 1 }
        } else {
            UnitFrac { num: self.duration - self.elapsed, den: self.duration }
        }
    }
}

/// For every duration `d` and starting point `e` with `e <= d`, advancing a
/// timer by exactly the missing `d - e` units finishes it and leaves no
/// fraction of the duration remaining.
pub proof fn lemma_advance_to_completion(d: u64, e: u64)
    requires
        e <= d,
    ensures
        (Timer { duration: d, elapsed: e }).spec_advanced((d - e) as u64).spec_finished(),
        (Timer { duration: d, elapsed: e }).spec_advanced((d - e) as u64).spec_fraction_remaining().spec_is_zero(),
{
}

} // verus!
