//! JSON objects as the extraction tool prints them, one to a line. A parsed
//! value is kept as it is; what the rest of the crate reads of it are the
//! members of the object at its top: which keys it has, and which of them
//! hold strings and numbers.

use crate::events::opt_view;
use vstd::prelude::*;

verus! {

#[verifier::external_type_specification]
#[verifier::external_body]
pub struct ExJsonValue(serde_json::Value);

/// The keys of the object at the top of a value, none where it is no
/// object.
pub uninterp spec fn json_keys(v: serde_json::Value) -> Set<Seq<char>>;

/// The members at the top of a value that are strings.
pub uninterp spec fn json_strings(v: serde_json::Value) -> Map<Seq<char>, Seq<char>>;

/// The members at the top of a value that are numbers representable as
/// `u64`.
pub uninterp spec fn json_unsigned(v: serde_json::Value) -> Map<Seq<char>, u64>;

/// The members at the top of a value that are numbers, each cut to a whole
/// number of 64 bits: fractions are dropped, negative numbers give zero,
/// numbers too large give the largest.
pub uninterp spec fn json_whole(v: serde_json::Value) -> Map<Seq<char>, u64>;

/// What looking a key up in a map of members gives.
pub open spec fn member<V>(m: Map<Seq<char>, V>, key: Seq<char>) -> Option<V> {
    if m.contains_key(key) {
        Some(m[key])
    } else {
        None
    }
}

/// What `serde_json::from_str::<Value>` makes of a text: the value that the
/// text writes, or the message of the parser's error.
pub uninterp spec fn json_of(text: Seq<char>) -> Result<serde_json::Value, Seq<char>>;

/// The outcome of parsing with the error's message as characters.
pub open spec fn parsed_view(r: Result<serde_json::Value, String>) -> Result<
    serde_json::Value,
    Seq<char>,
> {
    match r {
        Ok(v) => Ok(v),
        Err(e) => Err(e@),
    }
}

/// `serde_json::from_str::<Value>`: the value that the text writes, or the
/// message of the parser's error. Nothing is claimed of which texts parse
/// but that the outcome is a function of the text.
#[verifier::external_body]
pub(crate) fn parse_json(text: &str) -> (r: Result<serde_json::Value, String>)
    ensures
        parsed_view(r) == json_of(text@),
{
    match serde_json::from_str::<serde_json::Value>(text) {
        Ok(v) => Ok(v),
        Err(e) => Err(e.to_string()),
    }
}

/// `Value::get` with a string key: whether the object at the top of the
/// value has the key.
#[verifier::external_body]
pub(crate) fn json_has(v: &serde_json::Value, key: &str) -> (b: bool)
    ensures
        b == json_keys(*v).contains(key@),
{
    v.get(key).is_some()
}

/// `Value::get`, then `Value::as_str`: the string under the key, where the
/// value has the key and a string under it.
#[verifier::external_body]
pub(crate) fn json_str(v: &serde_json::Value, key: &str) -> (r: Option<String>)
    ensures
        opt_view(r) == member(json_strings(*v), key@),
{
    match v.get(key) {
        Some(x) => x.as_str().map(String::from),
        None => None,
    }
}

/// `Value::get`, then `Value::as_u64`: the number under the key, where the
/// value has the key and under it a number representable as `u64`.
#[verifier::external_body]
pub(crate) fn json_u64(v: &serde_json::Value, key: &str) -> (r: Option<u64>)
    ensures
        r == member(json_unsigned(*v), key@),
{
    match v.get(key) {
        Some(x) => x.as_u64(),
        None => None,
    }
}

/// `Value::get`, then `Value::as_f64` converted to `u64`: the number under
/// the key cut to a whole number, where the value has the key and a number
/// under it.
#[verifier::external_body]
pub(crate) fn json_whole_number(v: &serde_json::Value, key: &str) -> (r: Option<u64>)
    ensures
        r == member(json_whole(*v), key@),
{
    match v.get(key) {
        Some(x) => x.as_f64().map(|n| n as u64),
        None => None,
    }
}

} // verus!
