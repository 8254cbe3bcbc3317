use atlas_canary::clock::{current_time, timestamp_at};
use atlas_canary::error::{ConfigurationError, ConnectionError, HandshakeError, ProtocolError};
use atlas_canary::session::{conclude, get_signed_url, signed_url_for, FailureResponse};
use atlas_canary::handshake::HandshakeState;
use atlas_canary::text::{is_decimal_text, render_decimal};

use std::time::{SystemTime, UNIX_EPOCH};

fn value_of(pairs: &[(String, String)], name: &str) -> String {
    let found: Vec<&(String, String)> = pairs.iter().filter(|pair| pair.0 == name).collect();
    assert_eq!(found.len(), 1);
    found[0].1.clone()
}

#[test]
fn decimal_rendering_is_exact() {
    assert_eq!(render_decimal(0), "0");
    assert_eq!(render_decimal(7), "7");
    assert_eq!(render_decimal(10), "10");
    assert_eq!(render_decimal(109), "109");
    assert_eq!(render_decimal(1700000000), "1700000000");
    assert_eq!(render_decimal(u64::MAX), "18446744073709551615");
}

#[test]
fn decimal_rendering_agrees_with_the_standard_library() {
    let mut n: u64 = 1;
    for _ in 0..64 {
        assert_eq!(render_decimal(n), n.to_string());
        assert_eq!(render_decimal(n - 1), (n - 1).to_string());
        n = n.wrapping_mul(2);
    }
}

#[test]
fn decimal_check_accepts_only_runs_of_ascii_digits() {
    assert!(is_decimal_text("0"));
    assert!(is_decimal_text("1700000000"));
    assert!(is_decimal_text("007"));
    assert!(is_decimal_text("18446744073709551616"));
    assert!(!is_decimal_text(""));
    assert!(!is_decimal_text("12a"));
    assert!(!is_decimal_text("-1"));
    assert!(!is_decimal_text("+1"));
    assert!(!is_decimal_text(" 1"));
    assert!(!is_decimal_text("1.5"));
    assert!(!is_decimal_text("/"));
    assert!(!is_decimal_text(":"));
    assert!(!is_decimal_text("١٢٣"));
    assert!(!is_decimal_text("12é"));
}

#[test]
fn rendered_numbers_pass_the_decimal_check() {
    for n in [0u64, 9, 10, 1700000000, u64::MAX] {
        assert!(is_decimal_text(&render_decimal(n)));
    }
}

#[test]
fn timestamp_is_the_decimal_count_of_seconds() {
    assert_eq!(timestamp_at(1700000000), "1700000000");
    assert_eq!(timestamp_at(0), "0");
}

#[test]
fn current_time_is_a_decimal_timestamp_of_now() {
    let before = SystemTime::now().duration_since(UNIX_EPOCH).unwrap().as_secs();
    let timestamp = current_time().unwrap();
    let after = SystemTime::now().duration_since(UNIX_EPOCH).unwrap().as_secs();
    assert!(!timestamp.is_empty());
    assert!(timestamp.chars().all(|c| c.is_ascii_digit()));
    let seconds: u64 = timestamp.parse().unwrap();
    assert!(before <= seconds && seconds <= after);
    assert_eq!(seconds.to_string(), timestamp);
}

#[test]
fn signed_url_binds_identity_timestamp_and_signature() {
    let url = signed_url_for("abc123", "1700000000", String::from("k"));
    assert_eq!(
        url,
        "wss://atlas.bailoutapp.io/api/v1/?client_id=abc123&client_platform=canary\
         &client_version=0.1.0&auth_timestamp=1700000000\
         &auth_signature=5790dc69a1273b517ae38d0092a463fed4d3a4752651d1ff92251250c2b11a58"
    );
}

#[test]
fn empty_credential_is_a_configuration_error() {
    assert_eq!(get_signed_url(String::new()), Err(ConfigurationError::EmptyCredential));
}

#[test]
fn fresh_signed_url_is_well_formed_and_signed() {
    let before = SystemTime::now().duration_since(UNIX_EPOCH).unwrap().as_secs();
    let text = get_signed_url(String::from("k")).unwrap();
    let after = SystemTime::now().duration_since(UNIX_EPOCH).unwrap().as_secs();
    let parsed = url::Url::parse(&text).unwrap();
    assert_eq!(parsed.scheme(), "wss");
    let pairs: Vec<(String, String)> = parsed
        .query_pairs()
        .map(|(name, value)| (name.into_owned(), value.into_owned()))
        .collect();
    assert_eq!(pairs.len(), 5);
    let names: Vec<&str> = pairs.iter().map(|pair| pair.0.as_str()).collect();
    assert_eq!(
        names,
        vec!["client_id", "client_platform", "client_version", "auth_timestamp", "auth_signature"]
    );
    assert_eq!(value_of(&pairs, "client_platform"), "canary");
    assert_eq!(value_of(&pairs, "client_version"), "0.1.0");

    let identity = value_of(&pairs, "client_id");
    assert_eq!(identity.len(), 36);
    let as_uuid = uuid::Uuid::parse_str(&identity).unwrap();
    assert_eq!(as_uuid.get_version_num(), 4);
    assert_eq!(as_uuid.to_string(), identity);

    let timestamp = value_of(&pairs, "auth_timestamp");
    let seconds: u64 = timestamp.parse().unwrap();
    assert!(before <= seconds && seconds <= after);

    let payload = format!("connect:{}:{}:k", identity, timestamp);
    assert_eq!(value_of(&pairs, "auth_signature"), sha256::digest(payload));
}

#[test]
fn each_attempt_has_its_own_identity() {
    let first = get_signed_url(String::from("k")).unwrap();
    let second = get_signed_url(String::from("k")).unwrap();
    let id = |text: &str| {
        let parsed = url::Url::parse(text).unwrap();
        let found = parsed.query_pairs().find(|pair| pair.0 == "client_id").unwrap();
        found.1.into_owned()
    };
    assert_ne!(id(&first), id(&second));
}

#[test]
fn every_failure_has_its_description() {
    let cases = vec![
        (
            HandshakeError::Configuration(ConfigurationError::EmptyCredential),
            "configuration error: the API key is missing or empty",
        ),
        (
            HandshakeError::Configuration(ConfigurationError::ClockBeforeEpoch),
            "configuration error: the system clock is set before the UNIX epoch",
        ),
        (
            HandshakeError::Connection(ConnectionError::MalformedUrl),
            "connection error: the connection URL is malformed",
        ),
        (
            HandshakeError::Connection(ConnectionError::Unreachable),
            "connection error: the WebSocket connection could not be established",
        ),
        (
            HandshakeError::Connection(ConnectionError::Interrupted),
            "connection error: the connection broke before the acknowledgement arrived",
        ),
        (
            HandshakeError::Protocol(ProtocolError::NotStructured),
            "protocol error: the acknowledgement is not structured data",
        ),
        (
            HandshakeError::Protocol(ProtocolError::WrongType),
            "protocol error: the acknowledgement type is not \"connect\"",
        ),
        (
            HandshakeError::Protocol(ProtocolError::WrongStatus),
            "protocol error: the acknowledgement status is not 210",
        ),
        (
            HandshakeError::Protocol(ProtocolError::WrongMessage),
            "protocol error: the acknowledgement message is not \"Connected\"",
        ),
        (HandshakeError::Timeout, "timeout: the handshake did not finish in time"),
        (HandshakeError::Cancelled, "cancelled: the handshake was called off"),
    ];
    for (error, expected) in cases {
        assert_eq!(error.describe(), expected);
        assert_eq!(
            conclude(HandshakeState::Failed(error)),
            Some(Err(FailureResponse { body: String::from(expected) }))
        );
    }
}
