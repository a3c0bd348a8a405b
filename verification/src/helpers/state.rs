use vstd::prelude::*;

verus! {

/// In-memory reconciler state: the heartbeat exposed on the state endpoint.
#[derive(Debug, Clone, PartialEq, Eq)]
pub struct State {
    /// When the last reconcile event was observed, in milliseconds since the
    /// Unix epoch.
    pub last_event: i64,
}

/// Relies on chrono::Utc::now for the current wall-clock time; nothing is
/// assumed of the value.
#[verifier::external_body]
fn current_time_millis() -> i64 {
    chrono::Utc::now().timestamp_millis()
}

impl State {
    /// A fresh state stamped with the present moment.
    pub fn new() -> State {
        State { last_event: current_time_millis() }
    }

    /// Marks the moment a reconcile event was observed.
    pub fn record_event(&mut self, now: i64)
        ensures
            final(self).last_event == now,
    {
        self.last_event = now;
    }
}

} // verus!
