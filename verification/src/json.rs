//! The JSON values that pass through the gateway untouched: token payloads
//! and geometry-shaped measurement values.

use vstd::prelude::*;

verus! {

/// `serde_json::Value`, a JSON document. Its inside is not modelled.
#[verifier::external_type_specification]
#[verifier::external_body]
pub struct ExValue(serde_json::Value);

/// The members of a JSON object whose value is a string, by member name.
/// A document that is no object has none.
pub uninterp spec fn string_members(document: serde_json::Value) -> Map<Seq<char>, Seq<char>>;

/// Looks a member up with `serde_json::Value::get` and hands its text out
/// when the member is a JSON string.
///
/// `get` with a string index returns the member of that name when the
/// document is an object that has one, and nothing otherwise; the member
/// counts only in its `String` variant.
#[verifier::external_body]
pub(crate) fn string_member(document: &serde_json::Value, name: &str) -> (text: Option<String>)
    ensures
        match text {
            Some(t) => string_members(*document).contains_key(name@) && string_members(
                *document,
            )[name@] == t@,
            None => !string_members(*document).contains_key(name@),
        },
{
    match document.get(name) {
        Some(serde_json::Value::String(text)) => Some(text.clone()),
        _ => None,
    }
}

} // verus!
