//! Credential signing: the payload that is hashed and the signature over it.

use vstd::prelude::*;
use vstd::string::*;
use crate::text::{is_decimal, is_lower_hex_text};

verus! {

/// The SHA-256 digest of the UTF-8 encoding of `text`, written as lower-case
/// hexadecimal: what `sha256::digest` returns for a string.
pub uninterp spec fn sha256_hex(text: Seq<char>) -> Seq<char>;

/// Whether `s` has the form of a hex-encoded 256-bit digest: 64 lower-case
/// hexadecimal digits.
pub open spec fn is_digest_text(s: Seq<char>) -> bool {
    s.len() == 64 && is_lower_hex_text(s)
}

/// Calls `sha256::digest` on a string. The crate hashes the string's bytes
/// with SHA-256 and hex-encodes the 32-byte digest in lower case, so the
/// result depends on the text alone and is 64 hexadecimal digits long.
#[verifier::external_body]
fn digest_hex(text: String) -> (digest: String)
    ensures
        digest@ == sha256_hex(text@),
        is_digest_text(digest@),
{
    sha256::digest(text)
}

/// The text that is hashed to authenticate a connection attempt:
/// `connect:<identity>:<timestamp>:<credential>`.
pub open spec fn payload_text(
    identity: Seq<char>,
    timestamp: Seq<char>,
    credential: Seq<char>,
) -> Seq<char> {
    "connect:"@ + identity + ":"@ + timestamp + ":"@ + credential
}

/// The authentication signature: the hex-encoded digest of the payload.
pub open spec fn signature_text(
    identity: Seq<char>,
    timestamp: Seq<char>,
    credential: Seq<char>,
) -> Seq<char> {
    sha256_hex(payload_text(identity, timestamp, credential))
}

/// Builds the unsigned payload for one connection attempt.
pub fn get_identifier(client_id: &str, auth_timestamp: &str, api_key: String) -> (payload: String)
    ensures
        payload@ == payload_text(client_id@, auth_timestamp@, api_key@),
{
    let mut payload = String::from_str("connect:");
    payload.append(client_id);
    payload.append(":");
    payload.append(auth_timestamp);
    payload.append(":");
    payload.append(api_key.as_str());
    payload
}

/// Signs one connection attempt. The signature is a function of the three
/// texts alone: equal inputs always give the same signature. What crosses
/// the wire is the digest, never the credential that went into it.
pub fn sign(identity: &str, timestamp: &str, credential: String) -> (signature: String)
    requires
        identity@.len() > 0,
        is_decimal(timestamp@),
        credential@.len() > 0,
    ensures
        signature@ == signature_text(identity@, timestamp@, credential@),
        is_digest_text(signature@),
{
    digest_hex(get_identifier(identity, timestamp, credential))
}

/// The signature depends on nothing but the three texts: attempts that agree
/// in identity, timestamp and credential have the same signature.
pub proof fn lemma_signature_is_deterministic(
    identity: Seq<char>,
    timestamp: Seq<char>,
    credential: Seq<char>,
    other_identity: Seq<char>,
    other_timestamp: Seq<char>,
    other_credential: Seq<char>,
)
    requires
        identity =~= other_identity,
        timestamp =~= other_timestamp,
        credential =~= other_credential,
    ensures
        signature_text(identity, timestamp, credential) == signature_text(
            other_identity,
            other_timestamp,
            other_credential,
        ),
{
}

/// Two payloads that differ only in the credential are different texts, so
/// distinct credentials are never hashed from the same input.
pub proof fn lemma_payload_separates_credentials(
    identity: Seq<char>,
    timestamp: Seq<char>,
    first: Seq<char>,
    second: Seq<char>,
)
    requires
        first != second,
    ensures
        payload_text(identity, timestamp, first) != payload_text(identity, timestamp, second),
{
    let prefix = "connect:"@ + identity + ":"@ + timestamp + ":"@;
    let a = payload_text(identity, timestamp, first);
    let b = payload_text(identity, timestamp, second);
    assert(a == prefix + first);
    assert(b == prefix + second);
    if a == b {
        assert(first =~= a.skip(prefix.len() as int));
        assert(second =~= b.skip(prefix.len() as int));
    }
}

} // verus!
