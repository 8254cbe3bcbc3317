//! The handshake as a state machine: each event of the transport moves the
//! attempt to its next state and names what the transport does next.

use vstd::prelude::*;
use crate::ack::{frame_verdict, verify_ack};
use crate::endpoint::{parse_endpoint, parsed_url};
use crate::error::{ConnectionError, HandshakeError};

verus! {

/// One WebSocket frame as the handshake sees it. Only a text frame carries
/// anything the handshake reads.
#[derive(Debug, PartialEq, Eq)]
pub enum Frame {
    Text(String),
    Binary,
    Ping,
    Pong,
    Close,
    Fragment,
}

/// Where an attempt stands.
#[derive(Clone, Copy, Debug, PartialEq, Eq, Structural)]
pub enum HandshakeState {
    /// Nothing has happened yet.
    Disconnected,
    /// The transport is opening the connection.
    Connecting,
    /// The connection is open; the server has the first move.
    AwaitingAck,
    /// The server acknowledged the connection.
    Verified,
    /// The attempt failed, for the reason given.
    Failed(HandshakeError),
}

/// What the transport reports.
#[derive(Debug, PartialEq, Eq)]
pub enum Event {
    /// A connection URL is presented.
    Start(String),
    /// The connection is open.
    Opened,
    /// The connection could not be established.
    Refused,
    /// A frame arrived.
    Received(Frame),
    /// Reading from the connection failed.
    Interrupted,
    /// The deadline of the attempt passed.
    TimedOut,
    /// The caller called the attempt off.
    Cancelled,
}

/// What the transport is to do next.
#[derive(Debug, PartialEq, Eq)]
pub enum Action {
    /// Open a secure WebSocket connection to the URL.
    Connect(url::Url),
    /// Read the next frame.
    Receive,
    /// Close the connection; the attempt is over.
    Close,
    /// Nothing: there is no connection to act on.
    Stop,
}

impl HandshakeState {
    /// Whether the attempt is over.
    pub open spec fn terminal(self) -> bool {
        self is Verified || self is Failed
    }

    /// Whether the attempt is over.
    pub fn is_terminal(&self) -> (over: bool)
        ensures
            over == self.terminal(),
    {
        match self {
            HandshakeState::Verified => true,
            HandshakeState::Failed(_) => true,
            _ => false,
        }
    }
}

/// The failed state for a broken transport.
pub open spec fn connection_failure(error: ConnectionError) -> HandshakeState {
    HandshakeState::Failed(HandshakeError::Connection(error))
}

/// The transition relation of the handshake.
///
/// - Presenting a URL to a disconnected attempt starts the connection, or
///   fails the attempt where the URL is malformed.
/// - While connecting, the transport's report opens the wait for the
///   acknowledgement or fails the attempt.
/// - While waiting, a text frame decides the attempt; a failed read fails
///   it; every other frame is discarded and the wait goes on.
/// - A deadline or a cancellation ends an attempt that is under way. Once a
///   connection is open, every way out closes it.
/// - Nothing else changes the state, and a finished attempt stays finished.
pub open spec fn transition(state: HandshakeState, event: Event) -> (HandshakeState, Action) {
    match state {
        HandshakeState::Disconnected => match event {
            Event::Start(text) => match parsed_url(text@) {
                Some(url) => (HandshakeState::Connecting, Action::Connect(url)),
                None => (connection_failure(ConnectionError::MalformedUrl), Action::Stop),
            },
            _ => (state, Action::Stop),
        },
        HandshakeState::Connecting => match event {
            Event::Opened => (HandshakeState::AwaitingAck, Action::Receive),
            Event::Refused => (connection_failure(ConnectionError::Unreachable), Action::Stop),
            Event::TimedOut => (HandshakeState::Failed(HandshakeError::Timeout), Action::Stop),
            Event::Cancelled => (HandshakeState::Failed(HandshakeError::Cancelled), Action::Stop),
            _ => (state, Action::Stop),
        },
        HandshakeState::AwaitingAck => match event {
            Event::Received(Frame::Text(text)) => match frame_verdict(text@) {
                Ok(_) => (HandshakeState::Verified, Action::Close),
                Err(error) => (
                    HandshakeState::Failed(HandshakeError::Protocol(error)),
                    Action::Close,
                ),
            },
            Event::Interrupted => (
                connection_failure(ConnectionError::Interrupted),
                Action::Close,
            ),
            Event::TimedOut => (HandshakeState::Failed(HandshakeError::Timeout), Action::Close),
            Event::Cancelled => (
                HandshakeState::Failed(HandshakeError::Cancelled),
                Action::Close,
            ),
            _ => (state, Action::Receive),
        },
        HandshakeState::Verified => (state, Action::Stop),
        HandshakeState::Failed(_) => (state, Action::Stop),
    }
}

/// Where a run of events leaves an attempt that starts in `state`.
pub open spec fn run(state: HandshakeState, events: Seq<Event>) -> HandshakeState
    decreases events.len(),
{
    if events.len() == 0 {
        state
    } else {
        run(transition(state, events[0]).0, events.drop_first())
    }
}

/// Whether an event is a frame that is not a text frame.
pub open spec fn is_control(event: Event) -> bool {
    event matches Event::Received(frame) && !(frame is Text)
}

/// Moves the attempt by one event.
pub fn step(state: HandshakeState, event: &Event) -> (next: (HandshakeState, Action))
    ensures
        next == transition(state, *event),
{
    match state {
        HandshakeState::Disconnected => match event {
            Event::Start(text) => match parse_endpoint(text.as_str()) {
                Ok(url) => (HandshakeState::Connecting, Action::Connect(url)),
                Err(error) => (
                    HandshakeState::Failed(HandshakeError::Connection(error)),
                    Action::Stop,
                ),
            },
            _ => (state, Action::Stop),
        },
        HandshakeState::Connecting => match event {
            Event::Opened => (HandshakeState::AwaitingAck, Action::Receive),
            Event::Refused => (
                HandshakeState::Failed(HandshakeError::Connection(ConnectionError::Unreachable)),
                Action::Stop,
            ),
            Event::TimedOut => (HandshakeState::Failed(HandshakeError::Timeout), Action::Stop),
            Event::Cancelled => (HandshakeState::Failed(HandshakeError::Cancelled), Action::Stop),
            _ => (state, Action::Stop),
        },
        HandshakeState::AwaitingAck => match event {
            Event::Received(Frame::Text(text)) => match verify_ack(text.as_str()) {
                Ok(_) => (HandshakeState::Verified, Action::Close),
                Err(error) => (
                    HandshakeState::Failed(HandshakeError::Protocol(error)),
                    Action::Close,
                ),
            },
            Event::Interrupted => (
                HandshakeState::Failed(HandshakeError::Connection(ConnectionError::Interrupted)),
                Action::Close,
            ),
            Event::TimedOut => (HandshakeState::Failed(HandshakeError::Timeout), Action::Close),
            Event::Cancelled => (
                HandshakeState::Failed(HandshakeError::Cancelled),
                Action::Close,
            ),
            _ => (state, Action::Receive),
        },
        HandshakeState::Verified => (state, Action::Stop),
        HandshakeState::Failed(_) => (state, Action::Stop),
    }
}

/// Runs an attempt over a recorded sequence of events.
pub fn replay(state: HandshakeState, events: &Vec<Event>) -> (end: HandshakeState)
    ensures
        end == run(state, events@),
{
    let mut current = state;
    let mut done: usize = 0;
    assert(events@.skip(0) =~= events@);
    while done < events.len()
        invariant
            done <= events.len(),
            run(state, events@) == run(current, events@.skip(done as int)),
        decreases events.len() - done,
    {
        let ghost rest = events@.skip(done as int);
        let (next, _) = step(current, &events[done]);
        proof {
            assert(rest[0] == events@[done as int]);
            assert(rest.drop_first() =~= events@.skip(done + 1));
        }
        current = next;
        done = done + 1;
    }
    assert(events@.skip(done as int) =~= Seq::<Event>::empty());
    current
}

/// A finished attempt stays as it is, whatever is reported afterwards.
pub proof fn lemma_terminal_states_absorb(state: HandshakeState, events: Seq<Event>)
    requires
        state.terminal(),
    ensures
        run(state, events) == state,
    decreases events.len(),
{
    if events.len() > 0 {
        lemma_terminal_states_absorb(state, events.drop_first());
    }
}

/// Frames other than text frames never advance or fail the handshake: the
/// attempt goes on waiting, and the transport is told to read again.
pub proof fn lemma_control_frame_keeps_waiting(event: Event)
    requires
        is_control(event),
    ensures
        transition(HandshakeState::AwaitingAck, event) == (
            HandshakeState::AwaitingAck,
            Action::Receive,
        ),
{
}

/// However many control frames come first, the text frame that follows them
/// decides the attempt: an accepted acknowledgement verifies it, a rejected
/// one fails it with its protocol error.
pub proof fn lemma_control_frames_are_skipped(noise: Seq<Event>, text: String)
    requires
        forall|i: int| 0 <= i < noise.len() ==> is_control(#[trigger] noise[i]),
    ensures
        run(HandshakeState::AwaitingAck, noise.push(Event::Received(Frame::Text(text))))
            == match frame_verdict(text@) {
            Ok(_) => HandshakeState::Verified,
            Err(error) => HandshakeState::Failed(HandshakeError::Protocol(error)),
        },
    decreases noise.len(),
{
    let ack = Event::Received(Frame::Text(text));
    let events = noise.push(ack);
    if noise.len() == 0 {
        let decided = transition(HandshakeState::AwaitingAck, ack).0;
        assert(events[0] == ack);
        assert(events.drop_first() =~= Seq::<Event>::empty());
        assert(run(decided, Seq::<Event>::empty()) == decided);
    } else {
        assert(events[0] == noise[0]);
        assert(is_control(noise[0]));
        assert(events.drop_first() =~= noise.drop_first().push(ack));
        assert forall|i: int| 0 <= i < noise.drop_first().len() implies is_control(
            #[trigger] noise.drop_first()[i],
        ) by {
            assert(noise.drop_first()[i] == noise[i + 1]);
        }
        lemma_control_frames_are_skipped(noise.drop_first(), text);
    }
}

/// An attempt is verified only by an accepted acknowledgement that arrives
/// while it waits for one.
pub proof fn lemma_verified_only_by_ack(state: HandshakeState, event: Event)
    requires
        !(state is Verified),
        transition(state, event).0 is Verified,
    ensures
        state is AwaitingAck,
        event matches Event::Received(Frame::Text(text)) && frame_verdict(text@) is Ok,
{
}

/// Every way out of an open connection closes it: a step that ends an
/// attempt which was waiting for the acknowledgement tells the transport to
/// close.
pub proof fn lemma_leaving_closes_the_connection(event: Event)
    requires
        transition(HandshakeState::AwaitingAck, event).0.terminal(),
    ensures
        transition(HandshakeState::AwaitingAck, event).1 == Action::Close,
{
}

} // verus!
