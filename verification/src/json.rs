//! The JSON values that the decoding service returns, as `serde_json` reads them.

use vstd::prelude::*;

verus! {

/// `serde_json::Value`, carried through as an opaque value.
#[verifier::external_type_specification]
#[verifier::external_body]
pub struct ExValue(serde_json::Value);

/// `serde_json::Error`, carried through as an opaque value.
#[verifier::external_type_specification]
#[verifier::external_body]
pub struct ExError(serde_json::Error);

/// The value that `serde_json::from_str` reads from a text, or `None` where it
/// rejects the text.
pub uninterp spec fn parsed_json(text: Seq<char>) -> Option<serde_json::Value>;

/// Calls `serde_json::from_str` for a `serde_json::Value`.
///
/// Trusted: the call succeeds exactly on the texts that `parsed_json` gives a
/// value for, and then returns that value. Nothing is said of the error.
#[verifier::external_body]
pub(crate) fn parse_value(text: &str) -> (r: Result<serde_json::Value, serde_json::Error>)
    ensures
        r.is_ok() == parsed_json(text@).is_some(),
        r matches Ok(v) ==> parsed_json(text@) == Some(v),
{
    serde_json::from_str::<serde_json::Value>(text)
}

/// Reads a response body as JSON: the parsed value, or `None` for a malformed
/// body.
pub fn read_body(text: &str) -> (r: Option<serde_json::Value>)
    ensures
        r == parsed_json(text@),
{
    match parse_value(text) {
        Ok(v) => Some(v),
        Err(_) => None,
    }
}

} // verus!
