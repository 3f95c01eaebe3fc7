//! Reading JSON documents through `serde_json`.

use vstd::prelude::*;
use crate::text::opt_text;

verus! {

/// `serde_json::Value`, which Verus carries through without looking inside.
#[verifier::external_type_specification]
#[verifier::external_body]
pub struct ExValue(serde_json::Value);

/// What a JSON value is. Of a number only the unsigned integer that it
/// stands for is kept, if it stands for one that fits 64 bits.
pub ghost enum Json {
    Null,
    Bool(bool),
    Number(Option<u64>),
    Text(Seq<char>),
    Array(Seq<Json>),
    Object(Map<Seq<char>, Json>),
}

/// What a `serde_json::Value` holds.
pub uninterp spec fn json_of(v: serde_json::Value) -> Json;

/// What `serde_json::from_str` makes of a text: the document, or `None`
/// where the text is not a JSON document.
pub uninterp spec fn parsed_json(text: Seq<char>) -> Option<Json>;

impl Json {
    /// The member of an object under `key`; `None` for a value that is no
    /// object or has no such member.
    pub open spec fn member(self, key: Seq<char>) -> Option<Json> {
        match self {
            Json::Object(m) => if m.contains_key(key) {
                Some(m[key])
            } else {
                None
            },
            _ => None,
        }
    }

    /// The element of an array at position `i`; `None` for a value that is
    /// no array or is shorter.
    pub open spec fn element(self, i: int) -> Option<Json> {
        match self {
            Json::Array(a) => if 0 <= i < a.len() {
                Some(a[i])
            } else {
                None
            },
            _ => None,
        }
    }

    /// The characters of a string; `None` for any other value.
    pub open spec fn text(self) -> Option<Seq<char>> {
        match self {
            Json::Text(t) => Some(t),
            _ => None,
        }
    }

    /// The unsigned integer that a number stands for; `None` for any other
    /// value.
    pub open spec fn unsigned(self) -> Option<u64> {
        match self {
            Json::Number(n) => n,
            _ => None,
        }
    }

    /// The truth value of a boolean; `None` for any other value.
    pub open spec fn flag(self) -> Option<bool> {
        match self {
            Json::Bool(b) => Some(b),
            _ => None,
        }
    }

    /// The number of elements of an array; `None` for any other value.
    pub open spec fn length(self) -> Option<nat> {
        match self {
            Json::Array(a) => Some(a.len()),
            _ => None,
        }
    }
}

/// What an optional reference to a value holds.
pub open spec fn json_of_opt(v: Option<&serde_json::Value>) -> Option<Json> {
    match v {
        Some(r) => Some(json_of(*r)),
        None => None,
    }
}

/// What an optional value holds.
pub open spec fn json_of_owned(v: Option<serde_json::Value>) -> Option<Json> {
    match v {
        Some(r) => Some(json_of(r)),
        None => None,
    }
}

/// Calls `serde_json::from_str`: the document that the text holds, or `None`
/// where it holds none.
#[verifier::external_body]
pub(crate) fn parse(text: &str) -> (r: Option<serde_json::Value>)
    ensures
        json_of_owned(r) == parsed_json(text@),
{
    match serde_json::from_str::<serde_json::Value>(text) {
        Ok(v) => Some(v),
        Err(_) => None,
    }
}

/// Calls `serde_json::Value::get` with a string: the member of an object
/// under `key`.
#[verifier::external_body]
pub(crate) fn member<'a>(v: &'a serde_json::Value, key: &str) -> (r: Option<&'a serde_json::Value>)
    ensures
        json_of_opt(r) == json_of(*v).member(key@),
{
    v.get(key)
}

/// Calls `serde_json::Value::get` with a number: the element of an array at
/// position `i`.
#[verifier::external_body]
pub(crate) fn element<'a>(v: &'a serde_json::Value, i: usize) -> (r: Option<&'a serde_json::Value>)
    ensures
        json_of_opt(r) == json_of(*v).element(i as int),
{
    v.get(i)
}

/// Calls `serde_json::Value::as_str`: the characters of a string.
#[verifier::external_body]
pub(crate) fn as_text(v: &serde_json::Value) -> (r: Option<String>)
    ensures
        opt_text(r) == json_of(*v).text(),
{
    v.as_str().map(String::from)
}

/// Calls `serde_json::Value::as_u64`: the unsigned integer that a number
/// stands for.
#[verifier::external_body]
pub(crate) fn as_unsigned(v: &serde_json::Value) -> (r: Option<u64>)
    ensures
        r == json_of(*v).unsigned(),
{
    v.as_u64()
}

/// Calls `serde_json::Value::as_bool`: the truth value of a boolean.
#[verifier::external_body]
pub(crate) fn as_flag(v: &serde_json::Value) -> (r: Option<bool>)
    ensures
        r == json_of(*v).flag(),
{
    v.as_bool()
}

/// Calls `serde_json::Value::as_array` and takes the length: the number of
/// elements of an array.
#[verifier::external_body]
pub(crate) fn array_len(v: &serde_json::Value) -> (r: Option<usize>)
    ensures
        r is Some <==> json_of(*v).length() is Some,
        r matches Some(n) ==> json_of(*v).length() == Some(n as nat),
{
    v.as_array().map(Vec::len)
}

} // verus!
