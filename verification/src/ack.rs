//! The server's acknowledgement: decoding the first text frame and checking
//! it against the expected shape.

use vstd::prelude::*;
use vstd::string::*;
use crate::error::ProtocolError;

verus! {

/// The status code of an accepted connection.
pub const ACK_STATUS: i64 = 210;

/// A JSON value as mathematics: what a decoded document holds.
pub enum JsonModel {
    Null,
    Bool(bool),
    /// A number. It carries its value where the library holds the number as
    /// a 64-bit integer, signed or unsigned, and `None` for every other
    /// number.
    Number(Option<int>),
    Text(Seq<char>),
    Array(Seq<JsonModel>),
    Object(Map<Seq<char>, JsonModel>),
}

/// A decoded JSON document, as the JSON library represents it.
#[verifier::external_type_specification]
#[verifier::external_body]
pub struct ExJsonValue(serde_json::Value);

/// The JSON library's decoding error.
#[verifier::external_type_specification]
#[verifier::external_body]
pub struct ExJsonError(serde_json::Error);

/// What a `serde_json::Value` holds.
pub uninterp spec fn json_model(value: serde_json::Value) -> JsonModel;

/// The document that `serde_json::from_str` decodes from `text`, or `None`
/// where it reports an error.
pub uninterp spec fn json_parse(text: Seq<char>) -> Option<JsonModel>;

/// The member `key` of an object, JSON null where `document` is no object or
/// has no such member.
pub open spec fn member_of(document: JsonModel, key: Seq<char>) -> JsonModel {
    match document {
        JsonModel::Object(members) => if members.contains_key(key) {
            members[key]
        } else {
            JsonModel::Null
        },
        _ => JsonModel::Null,
    }
}

/// The text of a JSON string, `None` for every other kind of value.
pub open spec fn text_in(value: JsonModel) -> Option<Seq<char>> {
    match value {
        JsonModel::Text(text) => Some(text),
        _ => None,
    }
}

/// The value of a JSON integer that fits in 64 signed bits, `None` for
/// every other value.
pub open spec fn integer_in(value: JsonModel) -> Option<i64> {
    match value {
        JsonModel::Number(Some(n)) => if i64::MIN <= n <= i64::MAX {
            Some(n as i64)
        } else {
            None
        },
        _ => None,
    }
}

/// Calls `serde_json::from_str` for a `serde_json::Value`. Decoding depends
/// on the text alone, so the outcome is `json_parse` of the text: the
/// decoded document on success, an error exactly where there is none.
#[verifier::external_body]
fn decode_json(text: &str) -> (decoded: Result<serde_json::Value, serde_json::Error>)
    ensures
        match decoded {
            Ok(value) => json_parse(text@) == Some(json_model(value)),
            Err(_) => json_parse(text@) is None,
        },
{
    serde_json::from_str::<serde_json::Value>(text)
}

/// Indexes a `serde_json::Value` by a string key (`value[key]`), which
/// never fails: a missing member, or a value that is no object, yields JSON
/// null.
#[verifier::external_body]
fn member<'a>(value: &'a serde_json::Value, key: &str) -> (found: &'a serde_json::Value)
    ensures
        json_model(*found) == member_of(json_model(*value), key@),
{
    &value[key]
}

/// Calls `serde_json::Value::as_str` and copies the borrowed text: the text
/// of a string value, `None` for any other value.
#[verifier::external_body]
fn string_of(value: &serde_json::Value) -> (text: Option<String>)
    ensures
        text_of(text) == text_in(json_model(*value)),
{
    value.as_str().map(String::from)
}

/// Calls `serde_json::Value::as_i64`: the number where the value is an
/// integer that fits in 64 signed bits, `None` otherwise.
#[verifier::external_body]
fn integer_of(value: &serde_json::Value) -> (number: Option<i64>)
    ensures
        number == integer_in(json_model(*value)),
{
    value.as_i64()
}

/// The three fields of an acknowledgement that the handshake reads. A field
/// is `None` where the frame lacks it or holds a value of another kind.
#[derive(Debug, PartialEq, Eq)]
pub struct AckMessage {
    /// The `type` field, where it is a string.
    pub kind: Option<String>,
    /// The `status` field, where it is an integer.
    pub status: Option<i64>,
    /// The `message` field, where it is a string.
    pub message: Option<String>,
}

/// The mathematical content of an [`AckMessage`].
pub struct AckFields {
    pub kind: Option<Seq<char>>,
    pub status: Option<int>,
    pub message: Option<Seq<char>>,
}

/// The text of an optional string.
pub open spec fn text_of(field: Option<String>) -> Option<Seq<char>> {
    match field {
        Some(s) => Some(s@),
        None => None,
    }
}

/// The value of an optional integer.
pub open spec fn number_of(field: Option<i64>) -> Option<int> {
    match field {
        Some(n) => Some(n as int),
        None => None,
    }
}

impl View for AckMessage {
    type V = AckFields;

    open spec fn view(&self) -> AckFields {
        AckFields {
            kind: text_of(self.kind),
            status: number_of(self.status),
            message: text_of(self.message),
        }
    }
}

/// The fields that a decoded document presents to the handshake. Members
/// other than these three are not looked at.
pub open spec fn ack_fields(document: JsonModel) -> AckFields {
    AckFields {
        kind: text_in(member_of(document, "type"@)),
        status: number_of(integer_in(member_of(document, "status"@))),
        message: text_in(member_of(document, "message"@)),
    }
}

/// The verdict on an acknowledgement: accepted when `type` is `connect`,
/// `status` is 210 and `message` is `Connected`; otherwise the first field,
/// in that order, that differs.
pub open spec fn ack_verdict(fields: AckFields) -> Result<(), ProtocolError> {
    if fields.kind != Some("connect"@) {
        Err(ProtocolError::WrongType)
    } else if fields.status != Some(210int) {
        Err(ProtocolError::WrongStatus)
    } else if fields.message != Some("Connected"@) {
        Err(ProtocolError::WrongMessage)
    } else {
        Ok(())
    }
}

/// The verdict on a text frame: a protocol error where it is not structured
/// data, else the verdict on its fields.
pub open spec fn frame_verdict(text: Seq<char>) -> Result<(), ProtocolError> {
    match json_parse(text) {
        Some(document) => ack_verdict(ack_fields(document)),
        None => Err(ProtocolError::NotStructured),
    }
}

/// Whether an optional string holds exactly `expected`.
fn holds_text(field: &Option<String>, expected: &str) -> (same: bool)
    ensures
        same == (text_of(*field) == Some(expected@)),
{
    match field {
        Some(s) => {
            let wanted = String::from_str(expected);
            *s == wanted
        },
        None => false,
    }
}

impl AckMessage {
    /// Checks the three fields against the expected acknowledgement.
    pub fn check(&self) -> (verdict: Result<(), ProtocolError>)
        ensures
            verdict == ack_verdict(self@),
    {
        if !holds_text(&self.kind, "connect") {
            return Err(ProtocolError::WrongType);
        }
        match self.status {
            Some(status) => {
                if status != ACK_STATUS {
                    return Err(ProtocolError::WrongStatus);
                }
            },
            None => {
                return Err(ProtocolError::WrongStatus);
            },
        }
        if !holds_text(&self.message, "Connected") {
            return Err(ProtocolError::WrongMessage);
        }
        Ok(())
    }
}

/// Decodes a text frame into the fields of an acknowledgement. Fails exactly
/// where the frame is not structured data.
pub fn read_ack(text: &str) -> (decoded: Result<AckMessage, ProtocolError>)
    ensures
        match decoded {
            Ok(ack) => json_parse(text@) matches Some(document) && ack@ == ack_fields(document),
            Err(error) => json_parse(text@) is None && error == ProtocolError::NotStructured,
        },
{
    match decode_json(text) {
        Ok(document) => {
            let kind = string_of(member(&document, "type"));
            let status = integer_of(member(&document, "status"));
            let message = string_of(member(&document, "message"));
            Ok(AckMessage { kind, status, message })
        },
        Err(_) => Err(ProtocolError::NotStructured),
    }
}

/// Decides whether a text frame is the expected acknowledgement.
pub fn verify_ack(text: &str) -> (verdict: Result<(), ProtocolError>)
    ensures
        verdict == frame_verdict(text@),
{
    match read_ack(text) {
        Ok(ack) => ack.check(),
        Err(error) => Err(error),
    }
}

/// Only three members are looked at: adding or replacing any other member
/// of a document changes neither the fields nor what is decided on them.
pub proof fn lemma_other_members_are_ignored(
    members: Map<Seq<char>, JsonModel>,
    key: Seq<char>,
    value: JsonModel,
)
    requires
        key != "type"@,
        key != "status"@,
        key != "message"@,
    ensures
        ack_fields(JsonModel::Object(members.insert(key, value))) == ack_fields(
            JsonModel::Object(members),
        ),
        ack_verdict(ack_fields(JsonModel::Object(members.insert(key, value)))) == ack_verdict(
            ack_fields(JsonModel::Object(members)),
        ),
{
}

/// A document is accepted exactly when it is an object whose `type` is the
/// string `connect`, whose `status` is the integer 210 and whose `message`
/// is the string `Connected`.
pub proof fn lemma_accepted_documents(document: JsonModel)
    ensures
        ack_verdict(ack_fields(document)) is Ok <==> {
            &&& document matches JsonModel::Object(members)
            &&& members.contains_key("type"@) && members["type"@] == JsonModel::Text("connect"@)
            &&& members.contains_key("status"@) && members["status"@] == JsonModel::Number(
                Some(210int),
            )
            &&& members.contains_key("message"@) && members["message"@] == JsonModel::Text(
                "Connected"@,
            )
        },
{
}

} // verus!
