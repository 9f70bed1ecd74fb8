//! The listener's admission and drain discipline. The caller polls the
//! listening socket, spawns and joins handler threads; this state decides
//! whether to admit, back off or stop, and when the process may exit.

use vstd::prelude::*;

verus! {

/// Pause between polls of an idle listener, in milliseconds.
pub const BACKOFF_MILLIS: u64 = 100;

/// What one non-blocking accept on the listening socket gave.
#[derive(Debug, Clone, Copy, PartialEq, Eq, Structural)]
pub enum AcceptOutcome {
    /// A peer connected.
    Connected,
    /// No peer was waiting.
    Idle,
    /// The accept failed.
    Failed,
}

/// What the listener does next.
#[derive(Debug, Clone, Copy, PartialEq, Eq, Structural)]
pub enum ListenerAction {
    /// Hand the new connection to a handler of its own.
    Spawn,
    /// Sleep for `BACKOFF_MILLIS`, then poll again.
    Backoff,
    /// Poll again at once.
    Retry,
    /// Stop accepting; drop the connection, if any, and wait for the handlers.
    Drain,
}

/// The admission state as plain values.
pub struct SupervisorView {
    pub accepting: bool,
    pub active: nat,
}

/// Admission state of the listener: whether it still accepts connections and
/// how many handlers are running.
pub struct Supervisor {
    accepting: bool,
    active: u64,
}

impl View for Supervisor {
    type V = SupervisorView;

    closed spec fn view(&self) -> SupervisorView {
        SupervisorView { accepting: self.accepting, active: self.active as nat }
    }
}

/// The state and action after an accept.
pub open spec fn after_accept(s: SupervisorView, outcome: AcceptOutcome) -> (SupervisorView, ListenerAction) {
    if !s.accepting {
        (s, ListenerAction::Drain)
    } else {
        match outcome {
            AcceptOutcome::Connected => (SupervisorView { active: s.active + 1, ..s }, ListenerAction::Spawn),
            AcceptOutcome::Idle => (s, ListenerAction::Backoff),
            AcceptOutcome::Failed => (s, ListenerAction::Retry),
        }
    }
}

/// The state after a handler has finished and been joined.
pub open spec fn after_finish(s: SupervisorView) -> SupervisorView {
    SupervisorView { active: (s.active - 1) as nat, ..s }
}

/// The state after the shutdown signal.
pub open spec fn after_shutdown(s: SupervisorView) -> SupervisorView {
    SupervisorView { accepting: false, ..s }
}

/// The process may exit once it has stopped accepting and every handler is done.
pub open spec fn may_exit(s: SupervisorView) -> bool {
    !s.accepting && s.active == 0
}

/// Shutdown is final: once it is signalled no accept is admitted again, no
/// later event reopens admission, and a poll after it neither adds a handler
/// nor lets the process exit while one is still running.
pub proof fn lemma_shutdown_is_final(s: SupervisorView, outcome: AcceptOutcome)
    requires
        !s.accepting,
    ensures
        after_accept(s, outcome).1 == ListenerAction::Drain,
        !after_accept(s, outcome).0.accepting,
        !after_finish(s).accepting,
        !after_shutdown(s).accepting,
        after_accept(s, outcome).0 == s,
        may_exit(after_accept(s, outcome).0) == (s.active == 0),
{
}

impl Supervisor {
    /// A listener that accepts, with no handler running.
    pub fn new() -> (r: Supervisor)
        ensures
            r@ == (SupervisorView { accepting: true, active: 0 }),
    {
        Supervisor { accepting: true, active: 0 }
    }

    /// Whether connections are still admitted.
    pub fn accepting(&self) -> (r: bool)
        ensures
            r == self@.accepting,
    {
        self.accepting
    }

    /// How many handlers are running.
    pub fn active(&self) -> (r: u64)
        ensures
            r == self@.active,
    {
        self.active
    }

    /// Records the shutdown signal: admission stops for good.
    pub fn shutdown(&mut self)
        ensures
            final(self)@ == after_shutdown(old(self)@),
    {
        self.accepting = false;
    }

    /// Decides what to do with the outcome of one accept.
    pub fn on_accept(&mut self, outcome: AcceptOutcome) -> (r: ListenerAction)
        requires
            old(self)@.active < u64::MAX,
        ensures
            (final(self)@, r) == after_accept(old(self)@, outcome),
    {
        if !self.accepting {
            return ListenerAction::Drain;
        }
        match outcome {
            AcceptOutcome::Connected => {
                self.active = self.active + 1;
                ListenerAction::Spawn
            },
            AcceptOutcome::Idle => ListenerAction::Backoff,
            AcceptOutcome::Failed => ListenerAction::Retry,
        }
    }

    /// Records that a handler has finished and been joined.
    pub fn on_handler_done(&mut self)
        requires
            old(self)@.active > 0,
        ensures
            final(self)@ == after_finish(old(self)@),
    {
        self.active = self.active - 1;
    }

    /// Whether the process may exit now.
    pub fn may_exit(&self) -> (r: bool)
        ensures
            r == may_exit(self@),
    {
        !self.accepting && self.active == 0
    }
}

} // verus!
