//! The client identity: a fresh random identifier for each attempt.

use vstd::prelude::*;
use crate::text::is_lower_hex;

verus! {

/// Whether `s` is a UUID in hyphenated lower-case form: 36 characters, a
/// hyphen at positions 8, 13, 18 and 23, hexadecimal digits elsewhere.
pub open spec fn is_hyphenated_uuid(s: Seq<char>) -> bool {
    &&& s.len() == 36
    &&& forall|i: int|
        0 <= i < 36 ==> if i == 8 || i == 13 || i == 18 || i == 23 {
            #[trigger] s[i] == '-'
        } else {
            is_lower_hex(s[i])
        }
}

/// Calls `uuid::Uuid::new_v4` and renders the identifier with its `Display`
/// impl, which writes the hyphenated lower-case form. The identifier is
/// random, so only its form is known, and two calls need not agree. The
/// call itself fails only where the operating system has no random bytes
/// to give.
#[verifier::external_body]
pub(crate) fn fresh_identity() -> (identity: String)
    ensures
        is_hyphenated_uuid(identity@),
{
    uuid::Uuid::new_v4().to_string()
}

} // verus!
