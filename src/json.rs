//! The parts of `serde_json` that probe classification relies on.
//!
//! A JSON value stays opaque here: each fact the library reads of one is
//! named by a function below, and the trusted items state their results in
//! those names.
use vstd::prelude::*;

verus! {

#[verifier::external_type_specification]
#[verifier::external_body]
pub struct ExValue(serde_json::Value);

/// The JSON value that a byte string holds, if it holds exactly one.
pub uninterp spec fn json_parse(bytes: Seq<u8>) -> Option<serde_json::Value>;

/// The member of an object under a key; nothing when the value is not an
/// object or has no such member.
pub uninterp spec fn json_member(v: serde_json::Value, key: Seq<char>) -> Option<serde_json::Value>;

/// Whether a JSON value is a string.
pub uninterp spec fn json_is_string(v: serde_json::Value) -> bool;

/// Whether a JSON value is an object.
pub uninterp spec fn json_is_object(v: serde_json::Value) -> bool;

/// The compact JSON text of a value.
pub uninterp spec fn json_text(v: serde_json::Value) -> Seq<char>;

/// Relies on `serde_json::from_slice` into a `Value`: the outcome depends on
/// the bytes alone.
#[verifier::external_body]
pub(crate) fn parse_json(bytes: &[u8]) -> (r: Option<serde_json::Value>)
    ensures
        r == json_parse(bytes@),
{
    serde_json::from_slice::<serde_json::Value>(bytes).ok()
}

/// Relies on `serde_json::Value::get` with a string key: the member of an
/// object under that key.
#[verifier::external_body]
pub(crate) fn member<'a>(v: &'a serde_json::Value, key: &str) -> (r: Option<&'a serde_json::Value>)
    ensures
        match r {
            Some(m) => json_member(*v, key@) == Some(*m),
            None => json_member(*v, key@) is None,
        },
{
    v.get(key)
}

/// Relies on `serde_json::Value::is_string`.
pub assume_specification[ serde_json::Value::is_string ](v: &serde_json::Value) -> (r: bool)
    ensures
        r == json_is_string(*v),
;

/// Relies on `serde_json::Value::is_object`.
pub assume_specification[ serde_json::Value::is_object ](v: &serde_json::Value) -> (r: bool)
    ensures
        r == json_is_object(*v),
;

/// Relies on the `Display` of `serde_json::Value`: its compact JSON text.
#[verifier::external_body]
pub(crate) fn to_text(v: &serde_json::Value) -> (r: String)
    ensures
        r@ == json_text(*v),
{
    v.to_string()
}

} // verus!
