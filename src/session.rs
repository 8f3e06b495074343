use vstd::prelude::*;
use crate::message::MessageBody;

verus! {

/// The lifecycle of one client's connection.
pub enum SessionState {
    Connecting,
    Open,
    Closing,
    Closed,
}

/// What the transport reports to a session.
pub enum Event {
    /// The session's outbound handle is now in the registry.
    Registered,
    /// A text frame that decoded as a chat message; `frame` is its exact text.
    Chat { message: MessageBody, frame: String },
    /// A text frame that is not valid JSON or lacks a required field.
    Malformed,
    /// A frame that carries no text (binary, ping, pong).
    NonText,
    /// The peer closed the connection, or reading from it failed.
    Ended,
    /// The read loop has exited.
    Finished,
}

/// What the session asks its runner to do next.
pub enum Action {
    /// Wait for the next frame.
    Continue,
    /// Store `record` (best effort), then broadcast `frame` verbatim.
    PersistAndBroadcast { record: MessageBody, frame: String },
    /// Drop the frame and emit a diagnostic; the session stays open.
    Discard,
    /// Leave the read loop.
    Stop,
}

/// The next state of a session in `state` that receives `event`.
pub open spec fn next_state(state: SessionState, event: Event) -> SessionState {
    match (state, event) {
        (SessionState::Connecting, Event::Registered) => SessionState::Open,
        (SessionState::Connecting, Event::Ended) => SessionState::Closing,
        (SessionState::Open, Event::Ended) => SessionState::Closing,
        (SessionState::Closing, Event::Finished) => SessionState::Closed,
        (s, _) => s,
    }
}

/// Decides what a session does with one event: a decoded message in an open
/// session is stored and broadcast; a malformed or non-text frame never ends
/// the session; the end of the transport moves it to closing, and the exit of
/// the read loop to closed. Events that do not apply to the state change nothing.
pub fn step(state: SessionState, event: Event) -> (r: (SessionState, Action))
    ensures
        r.0 == next_state(state, event),
        state is Open && event is Chat ==> r.1 == (Action::PersistAndBroadcast {
            record: event->Chat_message,
            frame: event->Chat_frame,
        }),
        state is Open && event is Malformed ==> r.1 is Discard,
        (state is Connecting || state is Open) && event is Ended ==> r.1 is Stop,
        !(state is Open && (event is Chat || event is Malformed))
            && !((state is Connecting || state is Open) && event is Ended) ==> r.1 is Continue,
{
    match (state, event) {
        (SessionState::Connecting, Event::Registered) => (SessionState::Open, Action::Continue),
        (SessionState::Connecting, Event::Ended) => (SessionState::Closing, Action::Stop),
        (SessionState::Open, Event::Chat { message, frame }) => (
            SessionState::Open,
            Action::PersistAndBroadcast { record: message, frame },
        ),
        (SessionState::Open, Event::Malformed) => (SessionState::Open, Action::Discard),
        (SessionState::Open, Event::Ended) => (SessionState::Closing, Action::Stop),
        (SessionState::Closing, Event::Finished) => (SessionState::Closed, Action::Continue),
        (s, _) => (s, Action::Continue),
    }
}

/// A malformed frame never moves a session: whatever state it is in, the
/// session stays there (an open session stays open).
pub proof fn lemma_malformed_frame_is_harmless(state: SessionState)
    ensures
        next_state(state, Event::Malformed) == state,
{
}

} // verus!
