//! One connection attempt from the caller's side: the signed URL it starts
//! with and the response it ends with.

use vstd::prelude::*;
use vstd::string::*;
use crate::clock::current_time;
use crate::endpoint::{
    get_url, is_query_safe, lemma_url_well_formed, query_pairs, scheme_of, url_text,
    CLIENT_PLATFORM, CLIENT_VERSION,
};
use crate::error::{description, ConfigurationError};
use crate::handshake::HandshakeState;
use crate::identity::{fresh_identity, is_hyphenated_uuid};
use crate::signer::{is_digest_text, sign, signature_text};
use crate::text::{decimal_text, is_decimal, lemma_decimal_text_is_decimal};

verus! {

/// The response of a verified attempt.
#[derive(Debug, PartialEq, Eq)]
pub struct SuccessResponse {
    pub body: String,
}

/// The response of a failed attempt.
#[derive(Debug, PartialEq, Eq)]
pub struct FailureResponse {
    pub body: String,
}

/// The signed URL of an attempt: the connection URL for this client, with
/// the signature over the same identity and timestamp that the URL shows.
pub open spec fn signed_url_text(
    identity: Seq<char>,
    timestamp: Seq<char>,
    credential: Seq<char>,
) -> Seq<char> {
    url_text(
        identity,
        CLIENT_PLATFORM@,
        CLIENT_VERSION@,
        timestamp,
        signature_text(identity, timestamp, credential),
    )
}

/// Signs an attempt and assembles its connection URL.
pub fn signed_url_for(identity: &str, timestamp: &str, api_key: String) -> (url: String)
    requires
        identity@.len() > 0,
        is_decimal(timestamp@),
        api_key@.len() > 0,
    ensures
        url@ == signed_url_text(identity@, timestamp@, api_key@),
        is_digest_text(signature_text(identity@, timestamp@, api_key@)),
{
    let signature = sign(identity, timestamp, api_key);
    get_url(identity, CLIENT_PLATFORM, CLIENT_VERSION, timestamp, signature.as_str())
}

/// Whether `url` is the signed URL of the attempt that `identity` makes at
/// `seconds` after the epoch with `credential`: a hyphenated UUID and a
/// decimal timestamp, signed, in a well-formed URL whose query shows them.
pub open spec fn is_attempt_url(
    url: Seq<char>,
    identity: Seq<char>,
    seconds: u64,
    credential: Seq<char>,
) -> bool {
    let timestamp = decimal_text(seconds as nat);
    let signature = signature_text(identity, timestamp, credential);
    &&& is_hyphenated_uuid(identity)
    &&& is_digest_text(signature)
    &&& url == signed_url_text(identity, timestamp, credential)
    &&& scheme_of(url) == "wss"@
    &&& query_pairs(url) == seq![
        ("client_id"@, identity),
        ("client_platform"@, CLIENT_PLATFORM@),
        ("client_version"@, CLIENT_VERSION@),
        ("auth_timestamp"@, timestamp),
        ("auth_signature"@, signature),
    ]
}

/// Whether `url` is the signed URL of some attempt made with `credential`,
/// whatever its identity and its time.
pub open spec fn is_signed_url(url: Seq<char>, credential: Seq<char>) -> bool {
    exists|identity: Seq<char>, seconds: u64| is_attempt_url(url, identity, seconds, credential)
}

/// Produces the signed URL for a new attempt: a fresh identity, the current
/// time, and the signature that binds them to the credential.
///
/// An empty credential is refused before anything else is done. Otherwise
/// the clock decides: from a clock set before the epoch no URL can be made.
/// A URL that comes back is the signed URL of some identity and some time.
pub fn get_signed_url(api_key: String) -> (signed: Result<String, ConfigurationError>)
    ensures
        api_key@.len() == 0 <==> signed == Err::<String, ConfigurationError>(
            ConfigurationError::EmptyCredential,
        ),
        match signed {
            Ok(url) => is_signed_url(url@, api_key@),
            Err(error) => error == ConfigurationError::EmptyCredential || error
                == ConfigurationError::ClockBeforeEpoch,
        },
{
    if api_key.as_str().is_empty() {
        return Err(ConfigurationError::EmptyCredential);
    }
    let timestamp = match current_time() {
        Ok(text) => text,
        Err(error) => {
            return Err(error);
        },
    };
    let identity = fresh_identity();
    let ghost credential = api_key@;
    proof {
        let seconds = choose|seconds: u64| timestamp@ == decimal_text(seconds as nat);
        lemma_decimal_text_is_decimal(seconds as nat);
    }
    let url = signed_url_for(identity.as_str(), timestamp.as_str(), api_key);
    proof {
        let seconds = choose|seconds: u64| timestamp@ == decimal_text(seconds as nat);
        lemma_production_values_are_safe(
            identity@,
            timestamp@,
            signature_text(identity@, timestamp@, credential),
        );
        lemma_url_well_formed(
            identity@,
            CLIENT_PLATFORM@,
            CLIENT_VERSION@,
            timestamp@,
            signature_text(identity@, timestamp@, credential),
        );
        assert(is_attempt_url(url@, identity@, seconds, credential));
    }
    Ok(url)
}

/// The values that an attempt puts into its URL need no escaping: a
/// hyphenated UUID, a decimal numeral, a hex digest, and the client's fixed
/// platform and version.
pub proof fn lemma_production_values_are_safe(
    identity: Seq<char>,
    timestamp: Seq<char>,
    signature: Seq<char>,
)
    requires
        is_hyphenated_uuid(identity),
        is_decimal(timestamp),
        is_digest_text(signature),
    ensures
        is_query_safe(identity),
        is_query_safe(timestamp),
        is_query_safe(signature),
        is_query_safe(CLIENT_PLATFORM@),
        is_query_safe(CLIENT_VERSION@),
{
    reveal_strlit("canary");
    reveal_strlit("0.1.0");
    assert forall|i: int| 0 <= i < identity.len() implies #[trigger] identity[i] != '&'
        && identity[i] != '#' by {
        if i == 8 || i == 13 || i == 18 || i == 23 {
            assert(identity[i] == '-');
        }
    }
}

/// What the caller is told at the end of an attempt: the confirmation for a
/// verified attempt, the failure's description for a failed one.
pub open spec fn response_text(state: HandshakeState) -> Option<Result<Seq<char>, Seq<char>>> {
    match state {
        HandshakeState::Verified => Some(Ok("Successfully connected"@)),
        HandshakeState::Failed(error) => Some(Err(description(error))),
        _ => None,
    }
}

/// The text of a response, on either side.
pub open spec fn body_of(response: Result<SuccessResponse, FailureResponse>) -> Result<
    Seq<char>,
    Seq<char>,
> {
    match response {
        Ok(success) => Ok(success.body@),
        Err(failure) => Err(failure.body@),
    }
}

/// Maps the state of an attempt to the caller's response. There is one
/// exactly when the attempt is over.
pub fn conclude(state: HandshakeState) -> (response: Option<
    Result<SuccessResponse, FailureResponse>,
>)
    ensures
        response is Some <==> state.terminal(),
        match response {
            Some(outcome) => response_text(state) == Some(body_of(outcome)),
            None => response_text(state) is None,
        },
{
    match state {
        HandshakeState::Verified => Some(
            Ok(SuccessResponse { body: String::from_str("Successfully connected") }),
        ),
        HandshakeState::Failed(error) => Some(Err(FailureResponse { body: error.describe() })),
        _ => None,
    }
}

} // verus!
