//! Opaque JSON values.
//!
//! The provider's key document and a token's payload are JSON.  Both are
//! parsed by the `serde_json` crate and carried through verified code as
//! opaque values; these accessors are the only way the library reads
//! them.  What each accessor reads out of a value depends on that value
//! alone, so every accessor's result carries a name, and the callers'
//! contracts speak of the names.

use vstd::prelude::*;

verus! {

/// The opaque JSON value type of the `serde_json` crate, declared so that
/// verified code can carry a parsed document through.
#[verifier::external_type_specification]
#[verifier::external_body]
pub struct ExJsonValue(serde_json::Value);

/// What `serde_json::from_str` parses `s` into: a JSON value, or `None`
/// when `s` is not a JSON document.
pub uninterp spec fn json_parse_of(s: Seq<char>) -> Option<serde_json::Value>;

/// The member of the JSON object `v` under `key`, or `None` when `v` is
/// not an object or has no such member.
pub uninterp spec fn json_member_of(v: serde_json::Value, key: Seq<char>) -> Option<
    serde_json::Value,
>;

/// The items of the JSON array `v`, in order, or `None` when `v` is not
/// an array.
pub uninterp spec fn json_items_of(v: serde_json::Value) -> Option<Seq<serde_json::Value>>;

/// The text of the JSON string `v`, or `None` when `v` is not a string.
pub uninterp spec fn json_str_of(v: serde_json::Value) -> Option<Seq<char>>;

/// The number the JSON value `v` holds, when that is a non-negative
/// integer within `u64`; `None` otherwise.
pub uninterp spec fn json_u64_of(v: serde_json::Value) -> Option<u64>;

/// The member of the object `v` under `key`, read as a string.
pub open spec fn spec_member_str(v: serde_json::Value, key: Seq<char>) -> Option<Seq<char>> {
    match json_member_of(v, key) {
        Some(member) => json_str_of(member),
        None => None,
    }
}

/// The member of the object `v` under `key`, read as a `u64`.
pub open spec fn spec_member_u64(v: serde_json::Value, key: Seq<char>) -> Option<u64> {
    match json_member_of(v, key) {
        Some(member) => json_u64_of(member),
        None => None,
    }
}

/// Relies on `serde_json::from_str` to parse a JSON document.
#[verifier::external_body]
pub(crate) fn json_parse(body: &str) -> (r: Option<serde_json::Value>)
    ensures
        r == json_parse_of(body@),
{
    match serde_json::from_str(body) {
        Ok(v) => Some(v),
        Err(_) => None,
    }
}

/// Relies on `serde_json::Value::get` to look up a key of a JSON object.
#[verifier::external_body]
pub(crate) fn json_get<'a>(v: &'a serde_json::Value, key: &str) -> (r: Option<
    &'a serde_json::Value,
>)
    ensures
        match r {
            Some(member) => json_member_of(*v, key@) == Some(*member),
            None => json_member_of(*v, key@) is None,
        },
{
    v.get(key)
}

/// Relies on `serde_json::Value::as_array` to read a JSON array.
#[verifier::external_body]
pub(crate) fn json_as_array<'a>(v: &'a serde_json::Value) -> (r: Option<
    &'a Vec<serde_json::Value>,
>)
    ensures
        match r {
            Some(items) => json_items_of(*v) == Some(items@),
            None => json_items_of(*v) is None,
        },
{
    v.as_array()
}

/// Relies on `serde_json::Value::as_str` to read a JSON string.
#[verifier::external_body]
pub(crate) fn json_as_str<'a>(v: &'a serde_json::Value) -> (r: Option<&'a str>)
    ensures
        match r {
            Some(s) => json_str_of(*v) == Some(s@),
            None => json_str_of(*v) is None,
        },
{
    v.as_str()
}

/// Relies on `serde_json::Value::as_u64` to read a non-negative JSON
/// integer that fits in a `u64`.
#[verifier::external_body]
pub(crate) fn json_as_u64(v: &serde_json::Value) -> (r: Option<u64>)
    ensures
        r == json_u64_of(*v),
{
    v.as_u64()
}

} // verus!
