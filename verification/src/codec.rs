//! Decoding steps that outside code performs: standard-alphabet Base64 and
//! UTF-8 validation.

use vstd::prelude::*;
use vstd::utf8::{decode_utf8, valid_utf8};

verus! {

/// What base64's standard padded engine decodes a string to: the decoded
/// bytes, or nothing when the string is not valid Base64.
pub uninterp spec fn b64_decode(s: Seq<char>) -> Option<Seq<u8>>;

/// Relies on base64's `Engine::decode` with the `STANDARD` engine: the result
/// depends on the input characters alone.
#[verifier::external_body]
pub fn base64_decode(payload: &str) -> (r: Option<Vec<u8>>)
    ensures
        r is Some <==> b64_decode(payload@) is Some,
        r matches Some(bytes) ==> b64_decode(payload@) == Some(bytes@),
{
    base64::Engine::decode(&base64::engine::general_purpose::STANDARD, payload).ok()
}

/// Relies on `String::from_utf8`: it succeeds exactly on valid UTF-8 and
/// returns the string of the decoded characters.
#[verifier::external_body]
pub fn utf8_to_string(bytes: Vec<u8>) -> (r: Option<String>)
    ensures
        r is Some <==> valid_utf8(bytes@),
        r matches Some(text) ==> text@ == decode_utf8(bytes@),
{
    String::from_utf8(bytes).ok()
}

} // verus!
