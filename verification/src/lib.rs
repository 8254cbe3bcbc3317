//! Signed WebSocket handshake for the Atlas real-time service.
//!
//! A client authenticates by presenting a URL that carries a fresh identity,
//! the current time and a signature over both and the API key. The server
//! has the first move: its first text frame must be the acknowledgement
//! `{"type":"connect","status":210,"message":"Connected"}`.
//!
//! - [`signer`]: the payload that is hashed and the signature over it.
//! - [`endpoint`]: the connection URL and what it means for it to be well
//!   formed.
//! - [`clock`], [`identity`], [`text`]: the timestamp, the identity and the
//!   decimal numerals they are written with.
//! - [`ack`]: decoding and checking the acknowledgement.
//! - [`handshake`]: the attempt as a state machine over the transport's
//!   events.
//! - [`session`]: the signed URL an attempt starts with and the response it
//!   ends with.
//! - [`error`]: the ways an attempt can fail.
//!
//! The library performs no I/O. It calls other crates for hashing, JSON
//! decoding, URL parsing, random identifiers and the clock; each such call
//! stands in a small function of its own whose contract is assumed, and whose
//! doc comment says what is assumed. Everything else is proved.

pub mod ack;
pub mod clock;
pub mod endpoint;
pub mod error;
pub mod handshake;
pub mod identity;
pub mod session;
pub mod signer;
pub mod text;
