use vstd::prelude::*;

use crate::aggregate::FadeAggregator;
use crate::fade::FadeItem;
use crate::frac::UnitFrac;
use crate::skip::InputEvent;
use crate::skip::SkipDetector;

verus! {

/// Configuration of the autonomous splash variant: the phase it runs in,
/// the phase to switch to when it completes, and whether input may skip it
/// (on by default). Phases are the host's identifiers, carried as plain
/// numbers; the host decides, by `state`, when to drive the controller.
#[derive(Clone, Copy, Debug, PartialEq, Eq, Structural)]
pub struct SplashPlugin {
    pub state: u64,
    pub next: u64,
    pub skippable: bool,
}

impl SplashPlugin {
    /// A splash that runs in `state` and transitions to `next`, skippable.
    pub fn new(state: u64, next: u64) -> (r: SplashPlugin)
        ensures
            r == (SplashPlugin { state, next, skippable: true }),
    {
        SplashPlugin { state, next, skippable: true }
    }
}

/// Configuration of the cooperative splash variant: the phase it runs in
/// and whether input may skip its own contribution (on by default). It has
/// no next phase of its own; the external progress tracker decides when the
/// host moves on.
#[derive(Clone, Copy, Debug, PartialEq, Eq, Structural)]
pub struct SplashProgressPlugin {
    pub state: u64,
    pub skippable: bool,
}

impl SplashProgressPlugin {
    /// A splash that runs in `state` and reports completion to the tracker.
    pub fn new(state: u64) -> (r: SplashProgressPlugin)
        ensures
            r == (SplashProgressPlugin { state, skippable: true }),
    {
        SplashProgressPlugin { state, skippable: true }
    }
}

/// The run state of one autonomous splash instance.
#[derive(Clone, Copy, Debug, PartialEq, Eq, Structural)]
pub enum RunState {
    /// The splash phase is running and items are being advanced.
    Active,
    /// Completion was detected and the transition has been requested;
    /// nothing further happens until the host re-enters the phase.
    Transitioning,
}

/// The autonomous controller: owns the items of one splash run and, the
/// tick the set finishes or a skip is requested, asks the host exactly once
/// to switch to the configured next phase.
pub struct SplashController {
    pub next: u64,
    pub detector: SkipDetector,
    pub run_state: RunState,
    pub aggregator: FadeAggregator,
}

impl SplashController {
    /// Well-formed: the owned items are.
    pub open spec fn inv(self) -> bool {
        self.aggregator.inv()
    }

    /// The transition fires this tick: the controller is still active, and
    /// either every item finished in this tick's evaluation or the batch
    /// requested a skip. Both conditions are read from the same tick.
    pub open spec fn spec_fires(self, delta: u64, events: Seq<InputEvent>) -> bool {
        self.run_state == RunState::Active && (self.aggregator.spec_all_done(delta)
            || self.detector.spec_poll(events))
    }

    /// Enter the splash phase: a fresh active run with no items yet; the
    /// host attaches one item per display object it spawns.
    pub fn enter(config: &SplashPlugin) -> (r: SplashController)
        ensures
            r.next == config.next,
            r.detector == (SkipDetector { skippable: config.skippable }),
            r.run_state == RunState::Active,
            r.aggregator.items@.len() == 0,
            r.inv(),
    {
        SplashController {
            next: config.next,
            detector: SkipDetector::new(config.skippable),
            run_state: RunState::Active,
            aggregator: FadeAggregator::new(),
        }
    }

    /// Attach one item to the run.
    pub fn add_item(&mut self, item: FadeItem)
        requires
            old(self).inv(),
            item.inv(),
        ensures
            final(self).inv(),
            final(self).aggregator.items@ == old(self).aggregator.items@.push(item),
            final(self).next == old(self).next,
            final(self).detector == old(self).detector,
            final(self).run_state == old(self).run_state,
    {
        self.aggregator.add_item(item);
    }

    /// One tick: advance every item exactly once, poll the batch, and OR
    /// the two results — the transition is requested exactly when the set
    /// is done or a skip came in, and only from an active run. After the
    /// requesting tick the run is `Transitioning` and later ticks do
    /// nothing, so the request is made exactly once per run.
    pub fn tick(&mut self, delta: u64, events: &Vec<InputEvent>) -> (r: (Vec<UnitFrac>, Option<
        u64,
    >))
        requires
            old(self).inv(),
        ensures
            final(self).inv(),
            final(self).next == old(self).next,
            final(self).detector == old(self).detector,
            old(self).run_state == RunState::Transitioning ==> *final(self) == *old(self),
            old(self).run_state == RunState::Transitioning ==> r.1 == None::<u64> && r.0@.len()
                == 0,
            old(self).run_state == RunState::Active ==> final(self).aggregator.items@.len() == old(
                self,
            ).aggregator.items@.len(),
            old(self).run_state == RunState::Active ==> forall|i: int|
                0 <= i < old(self).aggregator.items@.len() ==> final(self).aggregator.items@[i]
                    == old(self).aggregator.items@[i].spec_ticked(delta),
            old(self).run_state == RunState::Active ==> r.0@.len() == old(
                self,
            ).aggregator.items@.len(),
            old(self).run_state == RunState::Active ==> forall|i: int|
                0 <= i < old(self).aggregator.items@.len() ==> r.0@[i] == old(
                    self,
                ).aggregator.items@[i].spec_tick_opacity(delta),
            r.1 == if old(self).spec_fires(delta, events@) {
                Some(old(self).next)
            } else {
                None::<u64>
            },
            final(self).run_state == if old(self).spec_fires(delta, events@) {
                RunState::Transitioning
            } else {
                old(self).run_state
            },
    {
        if self.run_state == RunState::Transitioning {
            return (Vec::new(), None);
        }
        let ticked = self.aggregator.tick_all(delta);
        let skip_requested = self.detector.poll(events);
        if ticked.1 || skip_requested {
            self.run_state = RunState::Transitioning;
            (ticked.0, Some(self.next))
        } else {
            (ticked.0, None)
        }
    }

    /// Leave the splash phase: tear every item down and reset the run, so a
    /// later re-entry starts clean. The host calls this on every exit, on
    /// the normal completion path and on an external override alike.
    pub fn exit(&mut self)
        ensures
            final(self).aggregator.items@.len() == 0,
            final(self).run_state == RunState::Active,
            final(self).next == old(self).next,
            final(self).detector == old(self).detector,
            final(self).inv(),
    {
        self.aggregator.clear();
        self.run_state = RunState::Active;
    }
}

/// The cooperative controller: owns the items of one splash run and each
/// tick reports a single completion boolean to the external progress
/// tracker. It never requests a phase transition — no operation of this
/// type does — and a skip only accelerates this report, never the tracker's
/// other contributions.
pub struct SplashProgressController {
    pub detector: SkipDetector,
    pub completed: bool,
    pub aggregator: FadeAggregator,
}

impl SplashProgressController {
    /// Well-formed: the owned items are.
    pub open spec fn inv(self) -> bool {
        self.aggregator.inv()
    }

    /// What this tick reports: true from the first tick the set finishes or
    /// a skip comes in, and latched true from then on.
    pub open spec fn spec_report(self, delta: u64, events: Seq<InputEvent>) -> bool {
        self.completed || self.aggregator.spec_all_done(delta) || self.detector.spec_poll(events)
    }

    /// Enter the splash phase: a fresh run, not yet completed, no items.
    pub fn enter(config: &SplashProgressPlugin) -> (r: SplashProgressController)
        ensures
            r.detector == (SkipDetector { skippable: config.skippable }),
            r.completed == false,
            r.aggregator.items@.len() == 0,
            r.inv(),
    {
        SplashProgressController {
            detector: SkipDetector::new(config.skippable),
            completed: false,
            aggregator: FadeAggregator::new(),
        }
    }

    /// Attach one item to the run.
    pub fn add_item(&mut self, item: FadeItem)
        requires
            old(self).inv(),
            item.inv(),
        ensures
            final(self).inv(),
            final(self).aggregator.items@ == old(self).aggregator.items@.push(item),
            final(self).detector == old(self).detector,
            final(self).completed == old(self).completed,
    {
        self.aggregator.add_item(item);
    }

    /// One tick: advance every item exactly once, poll the batch, and hand
    /// the tracker this run's completion boolean — true the first tick the
    /// set is done or a skip comes in, and on every later tick of the run.
    pub fn tick(&mut self, delta: u64, events: &Vec<InputEvent>) -> (r: (Vec<UnitFrac>, bool))
        requires
            old(self).inv(),
        ensures
            final(self).inv(),
            final(self).detector == old(self).detector,
            final(self).aggregator.items@.len() == old(self).aggregator.items@.len(),
            forall|i: int|
                0 <= i < old(self).aggregator.items@.len() ==> final(self).aggregator.items@[i]
                    == old(self).aggregator.items@[i].spec_ticked(delta),
            r.0@.len() == old(self).aggregator.items@.len(),
            forall|i: int|
                0 <= i < old(self).aggregator.items@.len() ==> r.0@[i] == old(
                    self,
                ).aggregator.items@[i].spec_tick_opacity(delta),
            r.1 == old(self).spec_report(delta, events@),
            final(self).completed == r.1,
    {
        let ticked = self.aggregator.tick_all(delta);
        let skip_requested = self.detector.poll(events);
        let report = self.completed || ticked.1 || skip_requested;
        self.completed = report;
        (ticked.0, report)
    }

    /// Leave the splash phase: tear every item down and reset the run.
    pub fn exit(&mut self)
        ensures
            final(self).aggregator.items@.len() == 0,
            final(self).completed == false,
            final(self).detector == old(self).detector,
            final(self).inv(),
    {
        self.aggregator.clear();
        self.completed = false;
    }
}

/// An autonomous run fires at most once: while nothing is done and no skip
/// is requested an active run does not fire, and a run that has already
/// transitioned never fires again, whatever the delta or the batch.
pub proof fn lemma_fires_only_once(c: SplashController, delta: u64, events: Seq<InputEvent>)
    ensures
        !c.aggregator.spec_all_done(delta) && !c.detector.spec_poll(events) ==> !c.spec_fires(
            delta,
            events,
        ),
        c.run_state == RunState::Transitioning ==> !c.spec_fires(delta, events),
{
}

/// The cooperative report latches: once a run has completed, every later
/// tick reports true again, whatever the delta or the batch.
pub proof fn lemma_report_latches(c: SplashProgressController, delta: u64, events: Seq<InputEvent>)
    ensures
        c.completed ==> c.spec_report(delta, events),
{
}

} // verus!
