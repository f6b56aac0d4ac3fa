//! The boundary to `serde_json`.
//!
//! A JSON value stays a `serde_json::Value` throughout the library. Verus
//! sees nothing inside one, so what a value holds is given by three
//! uninterpreted functions, and the few `serde_json` calls that the library
//! makes are specified over them. Nothing in this module is proved: each
//! contract restates what `serde_json` documents.

use serde_json::Value;
use vstd::prelude::*;

verus! {

/// `serde_json::Value`: any JSON value. Opaque to the verifier.
#[verifier::external_type_specification]
#[verifier::external_body]
pub struct ExValue(serde_json::Value);

/// `serde_json::Error`: why a text is not JSON. Opaque to the verifier.
#[verifier::external_type_specification]
#[verifier::external_body]
pub struct ExJsonError(serde_json::Error);

/// The members of a JSON object, by name. A value that is not an object has
/// none.
pub uninterp spec fn json_members(value: Value) -> Map<Seq<char>, Value>;

/// The elements of a JSON array, in order; `None` for a value that is not an
/// array.
pub uninterp spec fn json_items(value: Value) -> Option<Seq<Value>>;

/// The characters of a JSON string; `None` for a value that is not a string.
pub uninterp spec fn json_text(value: Value) -> Option<Seq<char>>;

/// The value that `bytes` spell as one JSON document, or the parser's
/// complaint where they spell none.
pub uninterp spec fn json_document(bytes: Seq<u8>) -> Result<Value, serde_json::Error>;

/// `serde_json::from_slice::<Value>`: parses a whole byte string as one JSON
/// document. The outcome, value or error, depends on the bytes alone, so it
/// has a name, [`json_document`].
#[verifier::external_body]
pub(crate) fn parse_document(bytes: &[u8]) -> (r: Result<Value, serde_json::Error>)
    ensures
        r == json_document(bytes@),
{
    serde_json::from_slice::<Value>(bytes)
}

/// `Value::get` with a string index: the member of that name if `value` is an
/// object that has one, else `None`.
#[verifier::external_body]
pub(crate) fn member<'a>(value: &'a Value, name: &str) -> (r: Option<&'a Value>)
    ensures
        match r {
            Some(found) => json_members(*value).contains_key(name@) && *found == json_members(
                *value,
            )[name@],
            None => !json_members(*value).contains_key(name@),
        },
{
    value.get(name)
}

/// `Value::as_array`: the elements if `value` is an array, else `None`.
#[verifier::external_body]
pub(crate) fn items<'a>(value: &'a Value) -> (r: Option<&'a Vec<Value>>)
    ensures
        match r {
            Some(elements) => json_items(*value) == Some(elements@),
            None => json_items(*value) is None,
        },
{
    value.as_array()
}

/// `Value::as_str`: the characters if `value` is a string, else `None`.
#[verifier::external_body]
pub(crate) fn text<'a>(value: &'a Value) -> (r: Option<&'a str>)
    ensures
        match r {
            Some(s) => json_text(*value) == Some(s@),
            None => json_text(*value) is None,
        },
{
    value.as_str()
}

/// `Value::clone` yields an equal value.
pub assume_specification[ <Value as Clone>::clone ](value: &Value) -> (r: Value)
    ensures
        r == *value,
;

} // verus!
