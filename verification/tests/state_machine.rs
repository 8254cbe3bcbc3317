use atlas_canary::error::{ConnectionError, HandshakeError, ProtocolError};
use atlas_canary::handshake::{replay, step, Action, Event, Frame, HandshakeState};
use atlas_canary::session::{conclude, FailureResponse, SuccessResponse};

const URL: &str = "wss://atlas.bailoutapp.io/api/v1/?client_id=abc123&client_platform=canary\
                   &client_version=0.1.0&auth_timestamp=1700000000&auth_signature=5790dc69";
const VALID_ACK: &str = r#"{"type":"connect","status":210,"message":"Connected"}"#;
const FORBIDDEN_ACK: &str = r#"{"type":"connect","status":403,"message":"Forbidden"}"#;

fn text(frame: &str) -> Event {
    Event::Received(Frame::Text(String::from(frame)))
}

fn awaiting_ack() -> HandshakeState {
    let (state, action) = step(HandshakeState::Disconnected, &Event::Start(String::from(URL)));
    assert_eq!(state, HandshakeState::Connecting);
    assert!(matches!(action, Action::Connect(_)));
    let (state, action) = step(state, &Event::Opened);
    assert_eq!(action, Action::Receive);
    state
}

#[test]
fn presenting_a_url_starts_the_connection() {
    let (state, action) = step(HandshakeState::Disconnected, &Event::Start(String::from(URL)));
    assert_eq!(state, HandshakeState::Connecting);
    match action {
        Action::Connect(url) => {
            assert_eq!(url.as_str(), URL);
            assert_eq!(url.scheme(), "wss");
            assert_eq!(url.host_str(), Some("atlas.bailoutapp.io"));
        }
        other => panic!("unexpected action {:?}", other),
    }
}

#[test]
fn a_malformed_url_fails_the_attempt() {
    let (state, action) = step(
        HandshakeState::Disconnected,
        &Event::Start(String::from("atlas.bailoutapp.io/api/v1/")),
    );
    assert_eq!(
        state,
        HandshakeState::Failed(HandshakeError::Connection(ConnectionError::MalformedUrl))
    );
    assert_eq!(action, Action::Stop);
}

#[test]
fn an_open_connection_awaits_the_acknowledgement() {
    let (state, action) = step(HandshakeState::Connecting, &Event::Opened);
    assert_eq!(state, HandshakeState::AwaitingAck);
    assert_eq!(action, Action::Receive);
}

#[test]
fn a_refused_connection_fails_the_attempt() {
    let (state, action) = step(HandshakeState::Connecting, &Event::Refused);
    assert_eq!(
        state,
        HandshakeState::Failed(HandshakeError::Connection(ConnectionError::Unreachable))
    );
    assert_eq!(action, Action::Stop);
}

#[test]
fn handshake_succeeds_on_the_expected_ack() {
    let state = awaiting_ack();
    assert_eq!(state, HandshakeState::AwaitingAck);
    let (state, action) = step(state, &text(VALID_ACK));
    assert_eq!(state, HandshakeState::Verified);
    assert_eq!(action, Action::Close);
    assert!(state.is_terminal());
    assert_eq!(
        conclude(state),
        Some(Ok(SuccessResponse { body: String::from("Successfully connected") }))
    );
}

#[test]
fn handshake_rejects_a_forbidden_ack() {
    let (state, action) = step(awaiting_ack(), &text(FORBIDDEN_ACK));
    assert_eq!(
        state,
        HandshakeState::Failed(HandshakeError::Protocol(ProtocolError::WrongStatus))
    );
    assert_eq!(action, Action::Close);
    assert_eq!(
        conclude(state),
        Some(Err(FailureResponse {
            body: String::from("protocol error: the acknowledgement status is not 210")
        }))
    );
}

#[test]
fn handshake_rejects_a_frame_that_is_not_structured() {
    let (state, action) = step(awaiting_ack(), &text("welcome"));
    assert_eq!(
        state,
        HandshakeState::Failed(HandshakeError::Protocol(ProtocolError::NotStructured))
    );
    assert_eq!(action, Action::Close);
}

#[test]
fn a_ping_before_the_ack_is_skipped() {
    let (state, action) = step(awaiting_ack(), &Event::Received(Frame::Ping));
    assert_eq!(state, HandshakeState::AwaitingAck);
    assert_eq!(action, Action::Receive);
    let (state, action) = step(state, &text(VALID_ACK));
    assert_eq!(state, HandshakeState::Verified);
    assert_eq!(action, Action::Close);
}

#[test]
fn every_frame_but_text_is_skipped() {
    let mut state = awaiting_ack();
    for frame in [Frame::Binary, Frame::Ping, Frame::Pong, Frame::Close, Frame::Fragment] {
        let (next, action) = step(state, &Event::Received(frame));
        assert_eq!(next, HandshakeState::AwaitingAck);
        assert_eq!(action, Action::Receive);
        state = next;
    }
    let (state, _) = step(state, &text(FORBIDDEN_ACK));
    assert_eq!(
        state,
        HandshakeState::Failed(HandshakeError::Protocol(ProtocolError::WrongStatus))
    );
}

#[test]
fn a_failed_read_fails_the_attempt() {
    let (state, action) = step(awaiting_ack(), &Event::Interrupted);
    assert_eq!(
        state,
        HandshakeState::Failed(HandshakeError::Connection(ConnectionError::Interrupted))
    );
    assert_eq!(action, Action::Close);
}

#[test]
fn a_finished_attempt_stays_finished() {
    let failed = HandshakeState::Failed(HandshakeError::Protocol(ProtocolError::WrongType));
    for state in [HandshakeState::Verified, failed] {
        let events = vec![
            Event::Start(String::from(URL)),
            Event::Opened,
            Event::Refused,
            text(VALID_ACK),
            text(FORBIDDEN_ACK),
            Event::Received(Frame::Ping),
            Event::Interrupted,
            Event::TimedOut,
            Event::Cancelled,
        ];
        for event in events {
            let (next, action) = step(state, &event);
            assert_eq!(next, state);
            assert_eq!(action, Action::Stop);
        }
    }
}

#[test]
fn events_out_of_turn_change_nothing() {
    let (state, action) = step(HandshakeState::Disconnected, &text(VALID_ACK));
    assert_eq!(state, HandshakeState::Disconnected);
    assert_eq!(action, Action::Stop);
    let (state, action) = step(HandshakeState::Disconnected, &Event::Opened);
    assert_eq!(state, HandshakeState::Disconnected);
    assert_eq!(action, Action::Stop);
    let (state, action) = step(HandshakeState::Connecting, &text(VALID_ACK));
    assert_eq!(state, HandshakeState::Connecting);
    assert_eq!(action, Action::Stop);
    let (state, action) = step(HandshakeState::Connecting, &Event::Start(String::from(URL)));
    assert_eq!(state, HandshakeState::Connecting);
    assert_eq!(action, Action::Stop);
    let (state, action) = step(HandshakeState::AwaitingAck, &Event::Opened);
    assert_eq!(state, HandshakeState::AwaitingAck);
    assert_eq!(action, Action::Receive);
    let (state, action) = step(HandshakeState::AwaitingAck, &Event::Refused);
    assert_eq!(state, HandshakeState::AwaitingAck);
    assert_eq!(action, Action::Receive);
}

#[test]
fn only_finished_attempts_have_a_response() {
    assert!(!HandshakeState::Disconnected.is_terminal());
    assert!(!HandshakeState::Connecting.is_terminal());
    assert!(!HandshakeState::AwaitingAck.is_terminal());
    assert!(HandshakeState::Verified.is_terminal());
    assert_eq!(conclude(HandshakeState::Disconnected), None);
    assert_eq!(conclude(HandshakeState::Connecting), None);
    assert_eq!(conclude(HandshakeState::AwaitingAck), None);
}

#[test]
fn a_deadline_ends_an_attempt_under_way() {
    let (state, action) = step(HandshakeState::Connecting, &Event::TimedOut);
    assert_eq!(state, HandshakeState::Failed(HandshakeError::Timeout));
    assert_eq!(action, Action::Stop);
    let (state, action) = step(HandshakeState::AwaitingAck, &Event::TimedOut);
    assert_eq!(state, HandshakeState::Failed(HandshakeError::Timeout));
    assert_eq!(action, Action::Close);
    let (state, action) = step(HandshakeState::Disconnected, &Event::TimedOut);
    assert_eq!(state, HandshakeState::Disconnected);
    assert_eq!(action, Action::Stop);
}

#[test]
fn a_cancellation_ends_an_attempt_under_way() {
    let (state, action) = step(HandshakeState::Connecting, &Event::Cancelled);
    assert_eq!(state, HandshakeState::Failed(HandshakeError::Cancelled));
    assert_eq!(action, Action::Stop);
    let (state, action) = step(HandshakeState::AwaitingAck, &Event::Cancelled);
    assert_eq!(state, HandshakeState::Failed(HandshakeError::Cancelled));
    assert_eq!(action, Action::Close);
    assert_eq!(
        conclude(state),
        Some(Err(FailureResponse {
            body: String::from("cancelled: the handshake was called off")
        }))
    );
}

#[test]
fn server_that_acknowledges_verifies_the_attempt() {
    let script = vec![Event::Start(String::from(URL)), Event::Opened, text(VALID_ACK)];
    let end = replay(HandshakeState::Disconnected, &script);
    assert_eq!(end, HandshakeState::Verified);
    assert_eq!(
        conclude(end),
        Some(Ok(SuccessResponse { body: String::from("Successfully connected") }))
    );
}

#[test]
fn server_that_forbids_fails_the_attempt_with_a_protocol_error() {
    let script = vec![Event::Start(String::from(URL)), Event::Opened, text(FORBIDDEN_ACK)];
    let end = replay(HandshakeState::Disconnected, &script);
    assert_eq!(
        end,
        HandshakeState::Failed(HandshakeError::Protocol(ProtocolError::WrongStatus))
    );
    assert!(matches!(conclude(end), Some(Err(_))));
}

#[test]
fn server_that_pings_first_still_verifies_the_attempt() {
    let script = vec![
        Event::Start(String::from(URL)),
        Event::Opened,
        Event::Received(Frame::Ping),
        text(VALID_ACK),
    ];
    assert_eq!(replay(HandshakeState::Disconnected, &script), HandshakeState::Verified);
}

#[test]
fn only_the_first_text_frame_counts() {
    let script = vec![text(FORBIDDEN_ACK), text(VALID_ACK)];
    assert_eq!(
        replay(HandshakeState::AwaitingAck, &script),
        HandshakeState::Failed(HandshakeError::Protocol(ProtocolError::WrongStatus))
    );
    let script = vec![text(VALID_ACK), text(FORBIDDEN_ACK), Event::Interrupted];
    assert_eq!(replay(HandshakeState::AwaitingAck, &script), HandshakeState::Verified);
}

#[test]
fn replaying_nothing_changes_nothing() {
    assert_eq!(replay(HandshakeState::Connecting, &Vec::new()), HandshakeState::Connecting);
}

#[test]
fn a_silent_server_leaves_the_attempt_waiting() {
    let script = vec![
        Event::Received(Frame::Pong),
        Event::Received(Frame::Binary),
        Event::Received(Frame::Ping),
    ];
    assert_eq!(replay(HandshakeState::AwaitingAck, &script), HandshakeState::AwaitingAck);
}
