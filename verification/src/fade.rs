use vstd::prelude::*;

use crate::frac::UnitFrac;
use crate::timer::Timer;

verus! {

/// The stage a splash item is in: the four timed stages in their fixed
/// order, or `Done` once all four have finished.
#[derive(Clone, Copy, Debug, PartialEq, Eq, Structural)]
pub enum Stage {
    Wait,
    Intro,
    Hold,
    Fade,
    Done,
}

/// Per-item four-stage timing state: `wait -> intro -> hold -> fade`, each
/// stage with its own independently configured duration (possibly zero).
///
/// A stage of duration zero is finished from the start, is never advanced,
/// and never blocks the next stage. Exactly one stage is active per tick;
/// the item is finished once all four timers are.
#[derive(Clone, Copy, Debug, PartialEq, Eq, Structural)]
pub struct FadeItem {
    pub wait: Timer,
    pub intro: Timer,
    pub hold: Timer,
    pub fade: Timer,
}

impl FadeItem {
    /// Well-formed: all four stage timers are.
    pub open spec fn inv(self) -> bool {
        self.wait.inv() && self.intro.inv() && self.hold.inv() && self.fade.inv()
    }

    /// The first stage whose timer has not finished, in the fixed order;
    /// `Done` when every timer has. A zero-duration stage is finished from
    /// the start, so it is skipped without consuming a tick.
    pub open spec fn spec_stage(self) -> Stage {
        if !self.wait.spec_finished() {
            Stage::Wait
        } else if !self.intro.spec_finished() {
            Stage::Intro
        } else if !self.hold.spec_finished() {
            Stage::Hold
        } else if !self.fade.spec_finished() {
            Stage::Fade
        } else {
            Stage::Done
        }
    }

    /// All four stages report finished.
    pub open spec fn spec_item_finished(self) -> bool {
        self.wait.spec_finished() && self.intro.spec_finished() && self.hold.spec_finished()
            && self.fade.spec_finished()
    }

    /// The item after one tick: only the active stage's timer advances.
    pub open spec fn spec_ticked(self, delta: u64) -> FadeItem {
        match self.spec_stage() {
            Stage::Wait => FadeItem { wait: self.wait.spec_advanced(delta), ..self },
            Stage::Intro => FadeItem { intro: self.intro.spec_advanced(delta), ..self },
            Stage::Hold => FadeItem { hold: self.hold.spec_advanced(delta), ..self },
            Stage::Fade => FadeItem { fade: self.fade.spec_advanced(delta), ..self },
            Stage::Done => self,
        }
    }

    /// The opacity reported for the tick, read from the state after the
    /// advance: zero while waiting, the elapsed fraction of `intro` on the
    /// rising ramp, one while holding, the remaining fraction of `fade` on
    /// the falling ramp, and zero (the last ramp value, clamped) once done.
    pub open spec fn spec_tick_opacity(self, delta: u64) -> UnitFrac {
        match self.spec_stage() {
            Stage::Wait => UnitFrac { num: 0, den: 1 },
            Stage::Intro => self.intro.spec_advanced(delta).spec_fraction_elapsed(),
            Stage::Hold => UnitFrac { num: 1, den: 1 },
            Stage::Fade => self.fade.spec_advanced(delta).spec_fraction_remaining(),
            Stage::Done => UnitFrac { num: 0, den: 1 },
        }
    }

    /// A fresh item from its four stage durations, nothing elapsed yet.
    pub fn new(wait: u64, intro: u64, hold: u64, fade: u64) -> (r: FadeItem)
        ensures
            r == (FadeItem {
                wait: Timer { duration: wait, elapsed: 0u64 },
                intro: Timer { duration: intro, elapsed: 0u64 },
                hold: Timer { duration: hold, elapsed: 0u64 },
                fade: Timer { duration: fade, elapsed: 0u64 },
            }),
            r.inv(),
    {
        FadeItem {
            wait: Timer::new(wait),
            intro: Timer::new(intro),
            hold: Timer::new(hold),
            fade: Timer::new(fade),
        }
    }

    pub fn item_finished(&self) -> (r: bool)
        ensures
            r == self.spec_item_finished(),
    {
        self.wait.is_finished() && self.intro.is_finished() && self.hold.is_finished()
            && self.fade.is_finished()
    }

    /// Advance the item by one tick of `delta` time units: exactly the
    /// first unfinished stage's timer is advanced, and the new opacity and
    /// whether the item has now finished are returned. A pure step: the
    /// result depends on this item's state and the delta alone.
    pub fn tick(&mut self, delta: u64) -> (r: (UnitFrac, bool))
        requires
            old(self).inv(),
        ensures
            final(self).inv(),
            *final(self) == old(self).spec_ticked(delta),
            r.0 == old(self).spec_tick_opacity(delta),
            r.0.inv(),
            r.1 == final(self).spec_item_finished(),
    {
        let op: UnitFrac;
        if !self.wait.is_finished() {
            self.wait.advance(delta);
            op = UnitFrac::zero();
        } else if !self.intro.is_finished() {
            self.intro.advance(delta);
            op = self.intro.fraction_elapsed();
        } else if !self.hold.is_finished() {
            self.hold.advance(delta);
            op = UnitFrac::one();
        } else if !self.fade.is_finished() {
            self.fade.advance(delta);
            op = self.fade.fraction_remaining();
        } else {
            op = UnitFrac::zero();
        }
        let fin = self.item_finished();
        (op, fin)
    }
}

/// An item whose four stage durations are all zero is finished before and
/// after its very first tick, whatever the delta: every stage is treated as
/// pre-finished, none is ever advanced, and none blocks completion.
pub proof fn lemma_zero_durations_finish_immediately(item: FadeItem, delta: u64)
    requires
        item.wait == (Timer { duration: 0u64, elapsed: 0u64 }),
        item.intro == (Timer { duration: 0u64, elapsed: 0u64 }),
        item.hold == (Timer { duration: 0u64, elapsed: 0u64 }),
        item.fade == (Timer { duration: 0u64, elapsed: 0u64 }),
    ensures
        item.spec_item_finished(),
        item.spec_ticked(delta) == item,
        item.spec_ticked(delta).spec_item_finished(),
{
}

} // verus!
