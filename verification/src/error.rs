//! The ways a connection attempt can fail.

use vstd::prelude::*;
use vstd::string::*;

verus! {

/// The caller's configuration cannot produce a signed URL.
#[derive(Clone, Copy, Debug, PartialEq, Eq, Structural)]
pub enum ConfigurationError {
    /// The credential is missing or empty.
    EmptyCredential,
    /// The system clock reads a time before the UNIX epoch.
    ClockBeforeEpoch,
}

/// The transport could not carry the handshake.
#[derive(Clone, Copy, Debug, PartialEq, Eq, Structural)]
pub enum ConnectionError {
    /// The connection URL is not an absolute URL.
    MalformedUrl,
    /// The secure WebSocket connection could not be established.
    Unreachable,
    /// The connection broke while waiting for the acknowledgement.
    Interrupted,
}

/// The server's first text frame is not the expected acknowledgement.
#[derive(Clone, Copy, Debug, PartialEq, Eq, Structural)]
pub enum ProtocolError {
    /// The frame is not structured data.
    NotStructured,
    /// The `type` field is not the string `connect`.
    WrongType,
    /// The `status` field is not the integer 210.
    WrongStatus,
    /// The `message` field is not the string `Connected`.
    WrongMessage,
}

/// Why an attempt ended in failure.
#[derive(Clone, Copy, Debug, PartialEq, Eq, Structural)]
pub enum HandshakeError {
    Configuration(ConfigurationError),
    Connection(ConnectionError),
    Protocol(ProtocolError),
    /// The deadline passed before the attempt was decided.
    Timeout,
    /// The caller withdrew the attempt.
    Cancelled,
}

/// The human-readable description of each failure.
pub open spec fn description(error: HandshakeError) -> Seq<char> {
    match error {
        HandshakeError::Configuration(ConfigurationError::EmptyCredential) =>
            "configuration error: the API key is missing or empty"@,
        HandshakeError::Configuration(ConfigurationError::ClockBeforeEpoch) =>
            "configuration error: the system clock is set before the UNIX epoch"@,
        HandshakeError::Connection(ConnectionError::MalformedUrl) =>
            "connection error: the connection URL is malformed"@,
        HandshakeError::Connection(ConnectionError::Unreachable) =>
            "connection error: the WebSocket connection could not be established"@,
        HandshakeError::Connection(ConnectionError::Interrupted) =>
            "connection error: the connection broke before the acknowledgement arrived"@,
        HandshakeError::Protocol(ProtocolError::NotStructured) =>
            "protocol error: the acknowledgement is not structured data"@,
        HandshakeError::Protocol(ProtocolError::WrongType) =>
            "protocol error: the acknowledgement type is not \"connect\""@,
        HandshakeError::Protocol(ProtocolError::WrongStatus) =>
            "protocol error: the acknowledgement status is not 210"@,
        HandshakeError::Protocol(ProtocolError::WrongMessage) =>
            "protocol error: the acknowledgement message is not \"Connected\""@,
        HandshakeError::Timeout => "timeout: the handshake did not finish in time"@,
        HandshakeError::Cancelled => "cancelled: the handshake was called off"@,
    }
}

impl HandshakeError {
    /// Renders the failure as the message shown to the caller.
    pub fn describe(&self) -> (text: String)
        ensures
            text@ == description(*self),
    {
        let text: &str = match *self {
            HandshakeError::Configuration(ConfigurationError::EmptyCredential) =>
                "configuration error: the API key is missing or empty",
            HandshakeError::Configuration(ConfigurationError::ClockBeforeEpoch) =>
                "configuration error: the system clock is set before the UNIX epoch",
            HandshakeError::Connection(ConnectionError::MalformedUrl) =>
                "connection error: the connection URL is malformed",
            HandshakeError::Connection(ConnectionError::Unreachable) =>
                "connection error: the WebSocket connection could not be established",
            HandshakeError::Connection(ConnectionError::Interrupted) =>
                "connection error: the connection broke before the acknowledgement arrived",
            HandshakeError::Protocol(ProtocolError::NotStructured) =>
                "protocol error: the acknowledgement is not structured data",
            HandshakeError::Protocol(ProtocolError::WrongType) =>
                "protocol error: the acknowledgement type is not \"connect\"",
            HandshakeError::Protocol(ProtocolError::WrongStatus) =>
                "protocol error: the acknowledgement status is not 210",
            HandshakeError::Protocol(ProtocolError::WrongMessage) =>
                "protocol error: the acknowledgement message is not \"Connected\"",
            HandshakeError::Timeout => "timeout: the handshake did not finish in time",
            HandshakeError::Cancelled => "cancelled: the handshake was called off",
        };
        String::from_str(text)
    }
}

} // verus!
