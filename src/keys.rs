use vstd::prelude::*;

verus! {

/// The keys the stop rule tells apart.
#[derive(Clone, Copy, Debug, PartialEq, Eq, Structural)]
pub enum Key {
    Escape,
    Other,
}

/// One event from the global input stream, reduced to what the stop rule reads.
#[derive(Clone, Copy, Debug, PartialEq, Eq, Structural)]
pub enum KeyEvent {
    Press(Key),
    Release(Key),
    /// Anything that is not a key transition (pointer motion, wheel, ...).
    Other,
}

pub open spec fn is_stop_spec(event: KeyEvent) -> bool {
    event == KeyEvent::Press(Key::Escape)
}

/// The stop key has just gone down.
#[verifier::when_used_as_spec(is_stop_spec)]
pub fn is_stop_press(event: KeyEvent) -> (r: bool)
    ensures
        r == is_stop_spec(event),
{
    match event {
        KeyEvent::Press(Key::Escape) => true,
        _ => false,
    }
}

/// Watches the event stream and asks for a stop exactly once: on the first
/// press of the stop key.
pub struct StopKeyWatch {
    pub fired: bool,
}

/// Whether a watch in state `fired` has fired after seeing `events`.
pub open spec fn fired_after(fired: bool, events: Seq<KeyEvent>) -> bool {
    fired || exists|i: int| 0 <= i < events.len() && is_stop_spec(#[trigger] events[i])
}

/// How many stop requests a watch in state `fired` makes over `events`.
pub open spec fn requests_over(fired: bool, events: Seq<KeyEvent>) -> nat
    decreases events.len(),
{
    if events.len() == 0 {
        0
    } else {
        let before = fired_after(fired, events.drop_last());
        requests_over(fired, events.drop_last()) + if !before && is_stop_spec(events.last()) {
            1nat
        } else {
            0nat
        }
    }
}

impl StopKeyWatch {
    pub fn new() -> (r: StopKeyWatch)
        ensures
            !r.fired,
    {
        StopKeyWatch { fired: false }
    }

    /// Takes one event; the result says whether to send the stop signal now.
    pub fn on_event(&mut self, event: KeyEvent) -> (r: bool)
        ensures
            r == (!old(self).fired && is_stop_spec(event)),
            final(self).fired == (old(self).fired || is_stop_spec(event)),
    {
        if !self.fired && is_stop_press(event) {
            self.fired = true;
            true
        } else {
            false
        }
    }
}

/// Over any stream of events, a fresh watch asks for a stop once if the stop
/// key is pressed somewhere in it, and never otherwise.
pub proof fn lemma_requests_stop_at_most_once(events: Seq<KeyEvent>)
    ensures
        requests_over(false, events) == if fired_after(false, events) {
            1nat
        } else {
            0nat
        },
    decreases events.len(),
{
    if events.len() > 0 {
        let prefix = events.drop_last();
        lemma_requests_stop_at_most_once(prefix);
        if fired_after(false, prefix) {
            let i = choose|i: int| 0 <= i < prefix.len() && is_stop_spec(#[trigger] prefix[i]);
            assert(events[i] == prefix[i]);
        }
        if is_stop_spec(events.last()) {
            assert(events[events.len() - 1] == events.last());
        }
        if fired_after(false, events) {
            let i = choose|i: int| 0 <= i < events.len() && is_stop_spec(#[trigger] events[i]);
            if i < prefix.len() {
                assert(prefix[i] == events[i]);
            }
        }
    }
}

} // verus!
