use vstd::prelude::*;

verus! {

/// What one receive on the session's event channel gave.
#[derive(Clone, Copy, Debug, PartialEq, Eq, Structural)]
pub enum Received {
    /// The next event, in the order the transport emitted it.
    Event,
    /// The observer fell behind and this many of the oldest events were dropped.
    Lagged(u64),
    /// The channel is closed: the session was torn down.
    Closed,
}

/// What the observer task does next.
#[derive(Clone, Copy, Debug, PartialEq, Eq, Structural)]
pub enum ObserverAction {
    /// Print the event, then receive again.
    Log,
    /// Print how many events were dropped, then receive again.
    ReportDropped(u64),
    /// End the task.
    Stop,
}

/// Drains the session's event channel for logging.
///
/// Back-pressure: the channel is bounded and never blocks the transport. An observer that
/// falls behind loses the oldest events, is told how many, reports that and goes on.
/// The task ends when the channel closes, and only then.
pub struct EventObserver {
    pub logged: u64,
    pub dropped: u64,
    pub stopped: bool,
}

/// The sum, capped at the largest `u64`.
pub open spec fn capped_add(a: u64, b: u64) -> u64 {
    if a + b > u64::MAX { u64::MAX } else { (a + b) as u64 }
}

impl EventObserver {
    /// An observer that has seen nothing yet.
    pub fn new() -> (r: EventObserver)
        ensures
            r.logged == 0,
            r.dropped == 0,
            !r.stopped,
    {
        EventObserver { logged: 0, dropped: 0, stopped: false }
    }

    /// Takes in what a receive gave and returns what to do. Once stopped, it stays
    /// stopped. The counters saturate.
    pub fn on_received(&mut self, received: Received) -> (r: ObserverAction)
        ensures
            old(self).stopped ==> r == ObserverAction::Stop && *final(self) == *old(self),
            !old(self).stopped ==> match received {
                Received::Event => {
                    &&& r == ObserverAction::Log
                    &&& final(self).logged == capped_add(old(self).logged, 1)
                    &&& final(self).dropped == old(self).dropped
                    &&& !final(self).stopped
                },
                Received::Lagged(n) => {
                    &&& r == ObserverAction::ReportDropped(n)
                    &&& final(self).logged == old(self).logged
                    &&& final(self).dropped == capped_add(old(self).dropped, n)
                    &&& !final(self).stopped
                },
                Received::Closed => {
                    &&& r == ObserverAction::Stop
                    &&& final(self).logged == old(self).logged
                    &&& final(self).dropped == old(self).dropped
                    &&& final(self).stopped
                },
            },
    {
        if self.stopped {
            return ObserverAction::Stop;
        }
        match received {
            Received::Event => {
                self.logged = self.logged.saturating_add(1);
                ObserverAction::Log
            },
            Received::Lagged(n) => {
                self.dropped = self.dropped.saturating_add(n);
                ObserverAction::ReportDropped(n)
            },
            Received::Closed => {
                self.stopped = true;
                ObserverAction::Stop
            },
        }
    }
}

} // verus!
