//! Reading JSON values that the backend hands over.
//!
//! The values are `serde_json::Value`s and stay opaque here. What the adapter
//! reads from them is named by three specification functions, and each call into
//! `serde_json` stands behind one item whose contract is taken on trust.

use vstd::prelude::*;

verus! {

/// `serde_json::Value`, carried through as an opaque value.
#[verifier::external_type_specification]
#[verifier::external_body]
pub struct ExJsonValue(serde_json::Value);

/// The members of `v` by key, where `v` is a JSON object; the empty map for
/// every other value.
pub uninterp spec fn json_members(v: serde_json::Value) -> Map<Seq<char>, serde_json::Value>;

/// The number that `v` holds, where `v` is a JSON integer that fits in a
/// `u64`; `None` for every other value.
pub uninterp spec fn json_u64(v: serde_json::Value) -> Option<u64>;

/// The compact JSON text of `v`.
pub uninterp spec fn json_text(v: serde_json::Value) -> Seq<char>;

/// The member of `v` under `key`, if `v` is an object that has one.
pub open spec fn json_member(v: serde_json::Value, key: Seq<char>) -> Option<serde_json::Value> {
    if json_members(v).contains_key(key) {
        Some(json_members(v)[key])
    } else {
        None
    }
}

/// Calls `serde_json::Value::get` with a string key. Trusted: the result is
/// the member of `v` under `key` when `v` is an object holding that key, and
/// `None` otherwise (another kind of value, or no such key).
#[verifier::external_body]
pub(crate) fn member<'a>(v: &'a serde_json::Value, key: &str) -> (r: Option<&'a serde_json::Value>)
    ensures
        r == if json_members(*v).contains_key(key@) {
            Some(&json_members(*v)[key@])
        } else {
            None
        },
{
    v.get(key)
}

/// Calls `serde_json::Value::as_u64`. Trusted: the result is the integer that
/// `v` holds if it is one that fits in a `u64`, and `None` otherwise.
#[verifier::external_body]
pub(crate) fn as_u64(v: &serde_json::Value) -> (r: Option<u64>)
    ensures
        r == json_u64(*v),
{
    v.as_u64()
}

/// Calls `to_string` on a `serde_json::Value`, which writes it through its
/// `Display` impl. Trusted: the result is the compact JSON text of `v`.
#[verifier::external_body]
pub(crate) fn to_text(v: &serde_json::Value) -> (r: String)
    ensures
        r@ == json_text(*v),
{
    v.to_string()
}

/// What a count field resolves to: the number that was read, or zero where
/// none was.
pub open spec fn count_or_zero(parsed: Option<u64>) -> u64 {
    match parsed {
        Some(n) => n,
        None => 0,
    }
}

/// The count that `value` stands for: its number where it is present and an
/// integer that fits in a `u64`, zero otherwise.
pub open spec fn u64_or_zero(value: Option<serde_json::Value>) -> u64 {
    match value {
        Some(v) => count_or_zero(json_u64(v)),
        None => 0,
    }
}

/// Resolves a count that may not have been read to a number: zero stands in
/// for a missing one.
pub fn resolve_count(parsed: Option<u64>) -> (n: u64)
    ensures
        n == count_or_zero(parsed),
{
    match parsed {
        Some(n) => n,
        None => 0,
    }
}

/// Reads a JSON value as a `u64`. A value that is absent, not a number,
/// negative, fractional or too large reads as zero; nothing is rejected.
pub fn parse_as_u64(value: Option<&serde_json::Value>) -> (n: u64)
    ensures
        n == u64_or_zero(
            match value {
                Some(v) => Some(*v),
                None => None,
            },
        ),
        value is None ==> n == 0,
{
    match value {
        Some(v) => resolve_count(as_u64(v)),
        None => 0,
    }
}

} // verus!
