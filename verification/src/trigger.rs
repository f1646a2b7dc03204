//! The release trigger: the strategy that decides when the controller may
//! relinquish control again.
//!
//! Two interchangeable strategies share the interface: a fixed-duration
//! timer, and a blocking wait for the first keyboard-class event from a
//! seat's polled event source. The blocking and draining happen outside the
//! library; the decision — does this drained batch end the wait? — is made
//! here, and exactly one firing terminates the wait.

use vstd::prelude::*;

verus! {

/// The closed set of event classes an input event source delivers. Only
/// `Keyboard` ends the wait; every other class is observed and discarded.
#[derive(Clone, Copy, Debug, PartialEq, Eq, Structural)]
pub enum EventClass {
    Device,
    Keyboard,
    Pointer,
    Touch,
    Tablet,
    TabletPad,
    Gesture,
    Switch,
}

/// A release-trigger strategy: fire after a fixed duration, or on the first
/// keyboard-class event from the named seat.
#[derive(Debug)]
pub enum ReleaseTrigger {
    /// Fires once the duration, in milliseconds, has elapsed.
    Timer(u64),
    /// Fires on the first keyboard-class event from this seat.
    InputEvent(String),
}

/// The two states of a wait: it has not fired yet, or it has fired once and
/// is over.
#[derive(Clone, Copy, Debug, PartialEq, Eq, Structural)]
pub enum TriggerState {
    Waiting,
    Fired,
}

/// Whether a drained batch holds at least one keyboard-class event.
pub open spec fn has_keyboard(events: Seq<EventClass>) -> bool {
    exists|i: int| 0 <= i < events.len() && events[i] is Keyboard
}

/// Scans a drained batch for a keyboard-class event.
pub fn scan_for_keyboard(events: &Vec<EventClass>) -> (found: bool)
    ensures
        found == has_keyboard(events@),
{
    let mut i: usize = 0;
    while i < events.len()
        invariant
            i <= events@.len(),
            forall|j: int| 0 <= j < i ==> !((#[trigger] events@[j]) is Keyboard),
        decreases events@.len() - i,
    {
        match events[i] {
            EventClass::Keyboard => {
                proof {
                    assert(events@[i as int] is Keyboard);
                }
                return true;
            },
            _ => {},
        }
        i = i + 1;
    }
    false
}

/// One wait for an input-event release trigger.
pub struct InputWait {
    pub state: TriggerState,
}

impl InputWait {
    /// A fresh wait, not fired yet.
    pub fn new() -> (wait: InputWait)
        ensures
            wait.state is Waiting,
    {
        InputWait { state: TriggerState::Waiting }
    }

    /// One wake of the blocking wait: the caller blocked on the event
    /// source, drained every ready event, and hands the batch over. The
    /// wait fires exactly when the batch holds a keyboard-class event;
    /// otherwise it stays waiting and the caller blocks again.
    pub fn observe_batch(&mut self, drained: &Vec<EventClass>) -> (fired: bool)
        requires
            old(self).state is Waiting,
        ensures
            fired == has_keyboard(drained@),
            final(self).state == if fired {
                TriggerState::Fired
            } else {
                TriggerState::Waiting
            },
    {
        let found = scan_for_keyboard(drained);
        if found {
            self.state = TriggerState::Fired;
        }
        found
    }
}

/// Whether a timer trigger of the given duration has fired after waiting
/// the given time: exactly when the duration has elapsed, so a zero
/// duration fires immediately.
pub fn timer_elapsed(waited_ms: u64, duration_ms: u64) -> (done: bool)
    ensures
        done == (waited_ms >= duration_ms),
{
    waited_ms >= duration_ms
}

/// Law: a drained batch with no keyboard-class event never ends the wait.
pub proof fn lemma_non_keyboard_never_fires(events: Seq<EventClass>)
    requires
        forall|i: int| 0 <= i < events.len() ==> !((#[trigger] events[i]) is Keyboard),
    ensures
        !has_keyboard(events),
{
}

/// Law: a single keyboard-class event anywhere in a drained batch always
/// ends the wait.
pub proof fn lemma_keyboard_always_fires(events: Seq<EventClass>, witness: int)
    requires
        0 <= witness < events.len(),
        events[witness] is Keyboard,
    ensures
        has_keyboard(events),
{
}

} // verus!
