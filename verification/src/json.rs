//! The JSON decoder of `serde_json`, as far as this library reads JSON.
//!
//! Nothing in this file is proved: each contract restates what the decoder's
//! documentation and source say, and the rest of the library is verified
//! against these contracts.

use vstd::prelude::*;
use serde_json::Value;

verus! {

/// A decoded JSON value. Its inside is reached only through the functions
/// of this file.
#[verifier::external_type_specification]
#[verifier::external_body]
pub struct ExValue(serde_json::Value);

/// The error with which `serde_json` turns a text down.
#[verifier::external_type_specification]
#[verifier::external_body]
pub struct ExError(serde_json::Error);

/// What this library tells apart in one JSON value: `null`, a string with
/// its text, an object with its members by key, and everything else
/// (booleans, numbers, arrays).
pub enum JsonKind {
    Null,
    Text(Seq<char>),
    Object(Map<Seq<char>, Value>),
    Other,
}

/// What a JSON value holds.
pub uninterp spec fn json_kind(value: Value) -> JsonKind;

/// The value that `serde_json::from_slice` decodes from `bytes`, or `None`
/// where it rejects them.
pub uninterp spec fn json_document(bytes: Seq<u8>) -> Option<Value>;

/// The member of an object under `key`. Anything but an object has no
/// members.
pub open spec fn member(value: Value, key: Seq<char>) -> Option<Value> {
    match json_kind(value) {
        JsonKind::Object(members) => if members.contains_key(key) {
            Some(members[key])
        } else {
            None
        },
        _ => None,
    }
}

/// Calls `serde_json::from_slice` for a `Value`. The decoder reads the whole
/// input and its outcome depends on the bytes alone, so the outcome has a
/// name, [`json_document`]; nothing is claimed about which bytes decode.
#[verifier::external_body]
pub(crate) fn from_slice(bytes: &[u8]) -> (r: Result<Value, serde_json::Error>)
    ensures
        match r {
            Ok(document) => json_document(bytes@) == Some(document),
            Err(_) => json_document(bytes@) is None,
        },
{
    serde_json::from_slice::<Value>(bytes)
}

/// Calls `Value::get` with a string index: the member under `key` where
/// `value` is an object that has one, `None` for a missing key and for any
/// value that is not an object.
#[verifier::external_body]
pub(crate) fn get<'a>(value: &'a Value, key: &str) -> (r: Option<&'a Value>)
    ensures
        match r {
            Some(found) => member(*value, key@) == Some(*found),
            None => member(*value, key@) is None,
        },
{
    value.get(key)
}

/// Calls `Value::as_str`: the text where `value` is a string, `None`
/// otherwise.
#[verifier::external_body]
pub(crate) fn as_str<'a>(value: &'a Value) -> (r: Option<&'a str>)
    ensures
        match r {
            Some(text) => json_kind(*value) == JsonKind::Text(text@),
            None => !(json_kind(*value) is Text),
        },
{
    value.as_str()
}

/// Calls `Value::is_null`: whether `value` is JSON's `null`.
#[verifier::external_body]
pub(crate) fn is_null(value: &Value) -> (r: bool)
    ensures
        r == (json_kind(*value) is Null),
{
    value.is_null()
}

} // verus!
