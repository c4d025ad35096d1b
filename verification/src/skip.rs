use vstd::prelude::*;

verus! {

/// One input event delivered by the host, reduced to the transition kind
/// the skip rule distinguishes. Only press/start transitions may skip;
/// releases, held keys, movements and connection changes never do.
#[derive(Clone, Copy, Debug, PartialEq, Eq, Structural)]
pub enum InputEvent {
    KeyPress,
    KeyRelease,
    MouseButtonPress,
    MouseButtonRelease,
    GamepadButtonChange,
    GamepadConnection,
    TouchStart,
    TouchMove,
    TouchEnd,
}

impl InputEvent {
    /// A qualifying press/start transition: a key press, a mouse button
    /// press, a gamepad button change, or a started touch.
    pub open spec fn spec_qualifies(self) -> bool {
        self == InputEvent::KeyPress || self == InputEvent::MouseButtonPress
            || self == InputEvent::GamepadButtonChange || self == InputEvent::TouchStart
    }

    pub fn qualifies(&self) -> (r: bool)
        ensures
            r == self.spec_qualifies(),
    {
        match *self {
            InputEvent::KeyPress => true,
            InputEvent::MouseButtonPress => true,
            InputEvent::GamepadButtonChange => true,
            InputEvent::TouchStart => true,
            _ => false,
        }
    }
}

/// The batch holds at least one qualifying press/start event.
pub open spec fn spec_batch_has_press(events: Seq<InputEvent>) -> bool {
    exists|i: int| 0 <= i < events.len() && events[i].spec_qualifies()
}

/// Watches one tick's batch of input events for a skip request.
///
/// When `skippable` is false the detector is disabled outright: it returns
/// false whatever the batch holds.
#[derive(Clone, Copy, Debug, PartialEq, Eq, Structural)]
pub struct SkipDetector {
    pub skippable: bool,
}

impl SkipDetector {
    /// What one poll of a batch returns.
    pub open spec fn spec_poll(self, events: Seq<InputEvent>) -> bool {
        self.skippable && spec_batch_has_press(events)
    }

    pub fn new(skippable: bool) -> (r: SkipDetector)
        ensures
            r == (SkipDetector { skippable }),
    {
        SkipDetector { skippable }
    }

    /// Read one tick's event batch: skip is requested exactly when the
    /// detector is skippable and the batch holds at least one press/start
    /// event. The caller drains the batch; nothing is re-delivered.
    pub fn poll(&self, events: &Vec<InputEvent>) -> (r: bool)
        ensures
            r == self.spec_poll(events@),
    {
        if !self.skippable {
            return false;
        }
        let mut found = false;
        let mut i: usize = 0;
        while i < events.len()
            invariant
                i <= events@.len(),
                found == (exists|j: int| 0 <= j < i && events@[j].spec_qualifies()),
            decreases events@.len() - i,
        {
            if events[i].qualifies() {
                proof {
                    assert(events@[i as int].spec_qualifies());
                }
                found = true;
            }
            i = i + 1;
        }
        found
    }
}

/// The skip rule in full: a disabled detector never requests a skip; an
/// enabled one requests a skip exactly when the batch holds a press/start
/// event, so a batch of only releases, held keys and movements never skips.
pub proof fn lemma_skip_rule(d: SkipDetector, events: Seq<InputEvent>)
    ensures
        !d.skippable ==> !d.spec_poll(events),
        d.skippable ==> d.spec_poll(events) == spec_batch_has_press(events),
        (forall|i: int| 0 <= i < events.len() ==> !events[i].spec_qualifies()) ==> !d.spec_poll(
            events,
        ),
{
}

} // verus!
