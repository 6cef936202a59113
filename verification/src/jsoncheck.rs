//! Classification of a request body for the JSON-checking path: the body is
//! first decoded as UTF-8, then parsed as JSON. Bytes that are not UTF-8 are
//! a normal negative classification; text that is not JSON is rejected.
//!
//! The parser is only given bodies below a fixed length: on longer input its
//! decimal-exponent counter could overflow and abort the process (see
//! [`JSON_BODY_MAX`]), and this library's functions must not panic. An
//! oversized body is classified negatively instead of being parsed.
use vstd::prelude::*;
use vstd::string::StringSliceAdditionalSpecFns;
use vstd::utf8::{decode_utf8, valid_utf8};

verus! {

/// Longest input, in bytes, ever handed to the JSON parser. `json::parse`
/// decrements an `i16` exponent counter once per decimal fraction digit
/// without a bound check, so a number token with 32769 or more fraction
/// digits — which needs at least 32771 bytes of input — would underflow it
/// and, under overflow checks, abort the process. Everything up to this
/// length is safe to parse.
pub const JSON_BODY_MAX: usize = 32770;

/// Whether the `json` crate's grammar accepts a text. The grammar takes
/// pages to state, but acceptance is a function of the characters alone.
pub uninterp spec fn json_accepts(s: Seq<char>) -> bool;

/// Relies on `json::parse`: a pure parser, so whether a string parses as
/// JSON depends on its characters alone. Admits only strings too short to
/// reach the parser's one unchecked counter, the `i16` decimal exponent
/// decremented once per fraction digit: underflowing it takes at least
/// 32771 bytes of input.
#[verifier::external_body]
fn json_parse_ok(s: &str) -> (r: bool)
    requires
        s.spec_bytes().len() <= JSON_BODY_MAX,
    ensures
        r == json_accepts(s@),
{
    json::parse(s).is_ok()
}

/// Relies on `core::str::from_utf8`: returns `Ok` exactly on valid UTF-8, and
/// the returned string's characters are the decoded scalar values of the
/// bytes (`vstd::utf8` gives the decoding its meaning).
#[verifier::external_body]
fn utf8_to_string(b: &[u8]) -> (r: Option<String>)
    ensures
        match r {
            Some(s) => valid_utf8(b@) && s@ == decode_utf8(b@),
            None => !valid_utf8(b@),
        },
{
    match core::str::from_utf8(b) {
        Ok(s) => Some(s.to_owned()),
        Err(_) => None,
    }
}

/// The verdict on a request body.
pub enum JsonVerdict {
    /// Well-formed JSON.
    ValidJson,
    /// Valid UTF-8 that the JSON grammar rejects.
    InvalidJson,
    /// Not UTF-8 at all.
    NotUtf8,
    /// Longer than [`JSON_BODY_MAX`]: never parsed, classified negatively.
    TooLarge,
}

/// What the verdict on a byte sequence must be.
pub open spec fn spec_verdict(body: Seq<u8>) -> JsonVerdict {
    if body.len() > JSON_BODY_MAX {
        JsonVerdict::TooLarge
    } else if !valid_utf8(body) {
        JsonVerdict::NotUtf8
    } else if json_accepts(decode_utf8(body)) {
        JsonVerdict::ValidJson
    } else {
        JsonVerdict::InvalidJson
    }
}

/// Classifies a request body: oversized, not UTF-8, well-formed JSON, or
/// malformed JSON.
pub fn classify_body(body: &[u8]) -> (v: JsonVerdict)
    ensures
        v == spec_verdict(body@),
{
    if body.len() > JSON_BODY_MAX {
        return JsonVerdict::TooLarge;
    }
    match utf8_to_string(body) {
        Some(s) => {
            proof {
                vstd::utf8::decode_utf8_encode_utf8(body@);
            }
            if json_parse_ok(s.as_str()) {
                JsonVerdict::ValidJson
            } else {
                JsonVerdict::InvalidJson
            }
        },
        None => JsonVerdict::NotUtf8,
    }
}

} // verus!
