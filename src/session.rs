//! The life of one connected push client: `Connecting -> Open -> Closed`.
//!
//! While open, two loops run: one forwards hub events to the client, the
//! other reads what the client sends. Each reports what happened as a
//! `SessionEvent`; `session_step` says what to do next. The first event that
//! closes the session ends both loops.
use vstd::prelude::*;

verus! {

#[derive(Clone, Copy, Debug, PartialEq, Eq, Structural)]
pub enum SessionState {
    Connecting,
    Open,
    Closed,
}

/// What one of the two loops observed.
#[derive(Clone, Copy, Debug, PartialEq, Eq, Structural)]
pub enum SessionEvent {
    /// The connection was upgraded to a push channel.
    Upgraded,
    /// The hub delivered an event for this client.
    HubDelivered,
    /// The client fell behind and the hub dropped events for it.
    HubLagged,
    /// The hub shut down.
    HubClosed,
    /// Sending to the client failed.
    SendFailed,
    /// The client sent an ordinary content frame.
    ClientContent,
    /// The client sent a protocol control frame (ping or pong).
    ClientControl,
    /// The client asked to close.
    ClientClose,
    /// Reading from the client failed or its stream ended.
    ClientError,
}

/// What to do about an event.
#[derive(Clone, Copy, Debug, PartialEq, Eq, Structural)]
pub enum SessionAction {
    /// Subscribe to the hub and start both loops.
    Subscribe,
    /// Send the delivered event to the client.
    Forward,
    /// Nothing.
    Ignore,
    /// Stop both loops and unsubscribe.
    Close,
}

/// The state after `e` in state `s`, and the action it calls for. The channel
/// is one-way: content from the client is ignored, and a client that falls
/// behind just misses events.
pub open spec fn step_spec(s: SessionState, e: SessionEvent) -> (SessionState, SessionAction) {
    match s {
        SessionState::Connecting => match e {
            SessionEvent::Upgraded => (SessionState::Open, SessionAction::Subscribe),
            SessionEvent::ClientClose | SessionEvent::ClientError | SessionEvent::SendFailed => (
                SessionState::Closed,
                SessionAction::Close,
            ),
            _ => (SessionState::Connecting, SessionAction::Ignore),
        },
        SessionState::Open => match e {
            SessionEvent::HubDelivered => (SessionState::Open, SessionAction::Forward),
            SessionEvent::HubClosed | SessionEvent::SendFailed | SessionEvent::ClientClose
            | SessionEvent::ClientError => (SessionState::Closed, SessionAction::Close),
            _ => (SessionState::Open, SessionAction::Ignore),
        },
        SessionState::Closed => (SessionState::Closed, SessionAction::Ignore),
    }
}

/// The state after a run of events from `s`.
pub open spec fn run(s: SessionState, events: Seq<SessionEvent>) -> SessionState
    decreases events.len(),
{
    if events.len() == 0 {
        s
    } else {
        run(step_spec(s, events[0]).0, events.drop_first())
    }
}

/// The next state of a session and what to do.
pub fn session_step(state: SessionState, event: SessionEvent) -> (r: (SessionState, SessionAction))
    ensures
        r == step_spec(state, event),
{
    match state {
        SessionState::Connecting => match event {
            SessionEvent::Upgraded => (SessionState::Open, SessionAction::Subscribe),
            SessionEvent::ClientClose | SessionEvent::ClientError | SessionEvent::SendFailed => (
                SessionState::Closed,
                SessionAction::Close,
            ),
            _ => (SessionState::Connecting, SessionAction::Ignore),
        },
        SessionState::Open => match event {
            SessionEvent::HubDelivered => (SessionState::Open, SessionAction::Forward),
            SessionEvent::HubClosed | SessionEvent::SendFailed | SessionEvent::ClientClose
            | SessionEvent::ClientError => (SessionState::Closed, SessionAction::Close),
            _ => (SessionState::Open, SessionAction::Ignore),
        },
        SessionState::Closed => (SessionState::Closed, SessionAction::Ignore),
    }
}

/// A closed session stays closed, whatever happens after.
pub proof fn lemma_closed_is_final(events: Seq<SessionEvent>)
    ensures
        run(SessionState::Closed, events) == SessionState::Closed,
    decreases events.len(),
{
    if events.len() > 0 {
        lemma_closed_is_final(events.drop_first());
    }
}

/// Events reach the client only while the session is open, and only the
/// upgrade subscribes.
pub proof fn lemma_forward_only_when_open(s: SessionState, e: SessionEvent)
    ensures
        step_spec(s, e).1 == SessionAction::Forward ==> s == SessionState::Open && e
            == SessionEvent::HubDelivered,
        step_spec(s, e).1 == SessionAction::Subscribe ==> s == SessionState::Connecting && e
            == SessionEvent::Upgraded,
{
}

} // verus!
