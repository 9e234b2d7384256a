//! JSON documents, as `serde_json` parses and holds them.
//!
//! Nothing in this file is proved. Each function hands one question to
//! `serde_json`, and each answer has a name by which the contracts of the
//! decoder speak of it.

use serde_json::Value;
use vstd::prelude::*;

verus! {

#[verifier::external_type_specification]
#[verifier::external_body]
pub struct ExValue(serde_json::Value);

#[verifier::external_type_specification]
#[verifier::external_body]
pub struct ExJsonError(serde_json::Error);

/// The value that `text` denotes as a JSON document, if it is one.
pub uninterp spec fn json_document(text: Seq<char>) -> Option<Value>;

/// Whether `value` is a JSON object.
pub uninterp spec fn json_is_object(value: Value) -> bool;

/// What the object `value` holds under `key`; nothing if it has no such
/// member or is no object.
pub uninterp spec fn json_member(value: Value, key: Seq<char>) -> Option<Value>;

/// The text of `value`, if it is a JSON string.
pub uninterp spec fn json_text(value: Value) -> Option<Seq<char>>;

/// The elements of `value`, if it is a JSON array.
pub uninterp spec fn json_elements(value: Value) -> Option<Seq<Value>>;

/// The number `value`, if it is an integer that fits 64 signed bits.
pub uninterp spec fn json_integer(value: Value) -> Option<i64>;

/// Whether `value` is the JSON `null`.
pub uninterp spec fn json_is_null(value: Value) -> bool;

/// Parses a text as one JSON document.
///
/// Trusted: `serde_json::from_str` at type `Value`. It reads the whole text
/// and depends on nothing else, so its success and its value are named
/// `json_document`.
#[verifier::external_body]
pub(crate) fn parse_document(text: &str) -> (parsed: Result<Value, serde_json::Error>)
    ensures
        match parsed {
            Ok(value) => json_document(text@) == Some(value),
            Err(_) => json_document(text@) is None,
        },
{
    serde_json::from_str::<Value>(text)
}

/// Trusted: `Value::is_object`, true exactly for the `Object` variant.
#[verifier::external_body]
pub(crate) fn is_object(value: &Value) -> (yes: bool)
    ensures
        yes == json_is_object(*value),
{
    value.is_object()
}

/// Trusted: `Value::get` with a string key, which looks the key up in an
/// object and gives nothing for any other kind of value.
#[verifier::external_body]
pub(crate) fn member<'a>(value: &'a Value, key: &str) -> (found: Option<&'a Value>)
    ensures
        match found {
            Some(inner) => json_member(*value, key@) == Some(*inner),
            None => json_member(*value, key@) is None,
        },
{
    value.get(key)
}

/// Trusted: `Value::as_str`, which gives the text of the `String` variant,
/// here copied into a string of its own.
#[verifier::external_body]
pub(crate) fn text(value: &Value) -> (found: Option<String>)
    ensures
        match found {
            Some(t) => json_text(*value) == Some(t@),
            None => json_text(*value) is None,
        },
{
    value.as_str().map(String::from)
}

/// Trusted: `Value::as_array`, which gives the vector of the `Array` variant.
#[verifier::external_body]
pub(crate) fn elements<'a>(value: &'a Value) -> (found: Option<&'a Vec<Value>>)
    ensures
        match found {
            Some(items) => json_elements(*value) == Some(items@),
            None => json_elements(*value) is None,
        },
{
    value.as_array()
}

/// Trusted: `Value::as_i64`, which gives a number only where it is an
/// integer within the range of `i64`.
#[verifier::external_body]
pub(crate) fn integer(value: &Value) -> (found: Option<i64>)
    ensures
        found == json_integer(*value),
{
    value.as_i64()
}

/// Trusted: `Value::is_null`, true exactly for the `Null` variant.
#[verifier::external_body]
pub(crate) fn is_null(value: &Value) -> (yes: bool)
    ensures
        yes == json_is_null(*value),
{
    value.is_null()
}

} // verus!
