//! The listener's decisions: bind, back off and retry on failure, accept
//! and hand each connection off. The caller performs each action and reports
//! what came of it; no event ever stops the listener.

use vstd::prelude::*;

verus! {

/// Seconds to wait before binding again after a failed bind.
pub const BIND_BACKOFF_SECS: u64 = 5;

/// Where the listener stands.
#[derive(Debug, Clone, Copy, PartialEq, Eq, Structural)]
pub enum ListenerState {
    Idle,
    Binding,
    Bound,
    BindFailed,
}

/// What the caller reports after performing an action.
#[derive(Debug, Clone, Copy, PartialEq, Eq, Structural)]
pub enum ListenerEvent {
    Start,
    BindSucceeded,
    BindFailed,
    BackoffElapsed,
    Accepted,
    AcceptFailed,
}

/// What the caller is to do next.
#[derive(Debug, Clone, Copy, PartialEq, Eq, Structural)]
pub enum ListenerAction {
    /// Bind all interfaces on the port.
    Bind { port: u16 },
    /// Wait this many seconds, then report `BackoffElapsed`.
    Sleep { secs: u64 },
    /// Wait for the next connection.
    Accept,
    /// Hand the accepted connection to a task of its own, then accept again.
    DispatchAndAccept,
}

/// The next state, and the action, after `event` in `state`. An event that
/// does not fit the state repeats what the state waits for.
pub open spec fn listener_next(port: u16, state: ListenerState, event: ListenerEvent) -> (ListenerState, ListenerAction) {
    match (state, event) {
        (ListenerState::Idle, _) => (ListenerState::Binding, ListenerAction::Bind { port }),
        (ListenerState::Binding, ListenerEvent::BindSucceeded) => (ListenerState::Bound, ListenerAction::Accept),
        (ListenerState::Binding, ListenerEvent::BindFailed) =>
            (ListenerState::BindFailed, ListenerAction::Sleep { secs: BIND_BACKOFF_SECS }),
        (ListenerState::Binding, _) => (ListenerState::Binding, ListenerAction::Bind { port }),
        (ListenerState::BindFailed, ListenerEvent::BackoffElapsed) => (ListenerState::Binding, ListenerAction::Bind { port }),
        (ListenerState::BindFailed, _) => (ListenerState::BindFailed, ListenerAction::Sleep { secs: BIND_BACKOFF_SECS }),
        (ListenerState::Bound, ListenerEvent::Accepted) => (ListenerState::Bound, ListenerAction::DispatchAndAccept),
        (ListenerState::Bound, _) => (ListenerState::Bound, ListenerAction::Accept),
    }
}

/// A listener on one port.
pub struct Listener {
    pub port: u16,
    pub state: ListenerState,
}

impl Listener {
    /// A listener that has not bound yet.
    pub fn new(port: u16) -> (r: Listener)
        ensures
            r.port == port,
            r.state == ListenerState::Idle,
    {
        Listener { port, state: ListenerState::Idle }
    }

    /// Takes in what came of the last action and says what to do next.
    pub fn handle(&mut self, event: ListenerEvent) -> (r: ListenerAction)
        ensures
            final(self).port == old(self).port,
            (final(self).state, r) == listener_next(old(self).port, old(self).state, event),
    {
        let port = self.port;
        let (state, action) = match (self.state, event) {
            (ListenerState::Idle, _) => (ListenerState::Binding, ListenerAction::Bind { port }),
            (ListenerState::Binding, ListenerEvent::BindSucceeded) => (ListenerState::Bound, ListenerAction::Accept),
            (ListenerState::Binding, ListenerEvent::BindFailed) =>
                (ListenerState::BindFailed, ListenerAction::Sleep { secs: BIND_BACKOFF_SECS }),
            (ListenerState::Binding, _) => (ListenerState::Binding, ListenerAction::Bind { port }),
            (ListenerState::BindFailed, ListenerEvent::BackoffElapsed) =>
                (ListenerState::Binding, ListenerAction::Bind { port }),
            (ListenerState::BindFailed, _) => (ListenerState::BindFailed, ListenerAction::Sleep { secs: BIND_BACKOFF_SECS }),
            (ListenerState::Bound, ListenerEvent::Accepted) => (ListenerState::Bound, ListenerAction::DispatchAndAccept),
            (ListenerState::Bound, _) => (ListenerState::Bound, ListenerAction::Accept),
        };
        self.state = state;
        action
    }
}

/// A failed bind leads to a wait of the backoff interval and then to a new
/// bind on the same port; no state and event ever take the listener back to
/// idle, so nothing ends it, and a failed accept only leads to the next accept.
pub proof fn lemma_bind_failure_retries(port: u16, state: ListenerState, event: ListenerEvent)
    ensures
        listener_next(port, ListenerState::Binding, ListenerEvent::BindFailed)
            == (ListenerState::BindFailed, ListenerAction::Sleep { secs: BIND_BACKOFF_SECS }),
        listener_next(port, ListenerState::BindFailed, ListenerEvent::BackoffElapsed)
            == (ListenerState::Binding, ListenerAction::Bind { port }),
        listener_next(port, ListenerState::Bound, ListenerEvent::AcceptFailed)
            == (ListenerState::Bound, ListenerAction::Accept),
        listener_next(port, state, event).0 != ListenerState::Idle,
{
}

} // verus!
