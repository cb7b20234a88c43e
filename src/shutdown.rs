use vstd::prelude::*;

verus! {

/// Where the node stands with respect to shutting down.
#[derive(Clone, Copy, Debug, PartialEq, Eq, Structural)]
pub enum ShutdownPhase {
    /// Serving; waiting for an interrupt.
    Running,
    /// An interrupt came in; the session is being torn down.
    TearingDown,
    /// Teardown is over; the process may exit.
    Stopped,
}

/// What the controller is told.
#[derive(Clone, Copy, Debug, PartialEq, Eq, Structural)]
pub enum ShutdownEvent {
    /// The platform's interrupt signal arrived.
    Interrupt,
    /// The session's endpoint closed and the event observer ended.
    TeardownComplete,
}

/// What the controller asks the process to do.
#[derive(Clone, Copy, Debug, PartialEq, Eq, Structural)]
pub enum ShutdownAction {
    /// Close the session's endpoint and cancel the event observer.
    BeginTeardown,
    /// Nothing: the event changes nothing.
    Ignore,
    /// Exit the process cleanly.
    Exit,
}

/// The next phase and the action for `event` in `phase`. An interrupt starts teardown
/// once; any later interrupt is ignored.
pub open spec fn shutdown_step(phase: ShutdownPhase, event: ShutdownEvent) -> (
    ShutdownPhase,
    ShutdownAction,
) {
    match (phase, event) {
        (ShutdownPhase::Running, ShutdownEvent::Interrupt) => (
            ShutdownPhase::TearingDown,
            ShutdownAction::BeginTeardown,
        ),
        (ShutdownPhase::TearingDown, ShutdownEvent::TeardownComplete) => (
            ShutdownPhase::Stopped,
            ShutdownAction::Exit,
        ),
        _ => (phase, ShutdownAction::Ignore),
    }
}

/// The single-shot trigger that turns an interrupt into teardown and exit.
pub struct ShutdownController {
    pub phase: ShutdownPhase,
}

impl ShutdownController {
    /// A controller of a running node.
    pub fn new() -> (r: ShutdownController)
        ensures
            r.phase == ShutdownPhase::Running,
    {
        ShutdownController { phase: ShutdownPhase::Running }
    }

    /// Takes in `event` and returns what to do about it.
    pub fn on_event(&mut self, event: ShutdownEvent) -> (r: ShutdownAction)
        ensures
            (final(self).phase, r) == shutdown_step(old(self).phase, event),
    {
        match (self.phase, event) {
            (ShutdownPhase::Running, ShutdownEvent::Interrupt) => {
                self.phase = ShutdownPhase::TearingDown;
                ShutdownAction::BeginTeardown
            },
            (ShutdownPhase::TearingDown, ShutdownEvent::TeardownComplete) => {
                self.phase = ShutdownPhase::Stopped;
                ShutdownAction::Exit
            },
            _ => ShutdownAction::Ignore,
        }
    }
}

/// The phase after `n` interrupts from `phase`, and how many of them began teardown.
pub open spec fn after_interrupts(phase: ShutdownPhase, n: nat) -> (ShutdownPhase, nat)
    decreases n,
{
    if n == 0 {
        (phase, 0)
    } else {
        let (p, k) = after_interrupts(phase, (n - 1) as nat);
        let (q, a) = shutdown_step(p, ShutdownEvent::Interrupt);
        (q, if a == ShutdownAction::BeginTeardown { k + 1 } else { k })
    }
}

/// However many interrupts a running node receives, teardown begins exactly once, and
/// once teardown completes the node exits.
pub proof fn lemma_repeated_interrupts(n: nat)
    requires
        n >= 1,
    ensures
        after_interrupts(ShutdownPhase::Running, n) == (ShutdownPhase::TearingDown, 1nat),
        shutdown_step(after_interrupts(ShutdownPhase::Running, n).0, ShutdownEvent::TeardownComplete)
            == (ShutdownPhase::Stopped, ShutdownAction::Exit),
    decreases n,
{
    reveal_with_fuel(after_interrupts, 2);
    if n > 1 {
        lemma_repeated_interrupts((n - 1) as nat);
    }
}

} // verus!
