//! The server's answers, read through `serde_json`.

use serde_json::Value;
use vstd::prelude::*;

verus! {

/// `serde_json::Value`: a parsed JSON text.
#[verifier::external_type_specification]
#[verifier::external_body]
pub struct ExValue(Value);

/// `serde_json::Error`: why a text could not be parsed.
#[verifier::external_type_specification]
#[verifier::external_body]
pub struct ExJsonError(serde_json::Error);

/// A JSON value as plain values. Numbers are not told apart.
pub enum Json {
    Null,
    Bool(bool),
    Number,
    Text(Seq<char>),
    Array(Seq<Json>),
    Object(Map<Seq<char>, Json>),
}

/// What a parsed JSON text holds.
pub uninterp spec fn value_json(value: Value) -> Json;

/// What `serde_json::from_str` reads from a text, if the text is JSON.
pub uninterp spec fn json_of(text: Seq<char>) -> Option<Json>;

/// The member `key` of an object.
pub open spec fn member(json: Json, key: Seq<char>) -> Option<Json> {
    match json {
        Json::Object(members) => if members.contains_key(key) {
            Some(members[key])
        } else {
            None
        },
        _ => None,
    }
}

/// The element at `at` of an array.
pub open spec fn element(json: Json, at: int) -> Option<Json> {
    match json {
        Json::Array(elements) => if 0 <= at < elements.len() {
            Some(elements[at])
        } else {
            None
        },
        _ => None,
    }
}

/// The text of a string.
pub open spec fn text_of(json: Json) -> Option<Seq<char>> {
    match json {
        Json::Text(text) => Some(text),
        _ => None,
    }
}

/// The number of elements of an array.
pub open spec fn length_of(json: Json) -> Option<nat> {
    match json {
        Json::Array(elements) => Some(elements.len()),
        _ => None,
    }
}

/// Calls `serde_json::from_str` for a `Value`.
#[verifier::external_body]
pub(crate) fn parse(text: &str) -> (out: Result<Value, serde_json::Error>)
    ensures
        match out {
            Ok(value) => json_of(text@) == Some(value_json(value)),
            Err(_) => json_of(text@) is None,
        },
{
    serde_json::from_str::<Value>(text)
}

/// Calls `Value::get` with a key: the member of that name, if the value is
/// an object that has one.
#[verifier::external_body]
pub(crate) fn get_member<'a>(value: &'a Value, key: &str) -> (out: Option<&'a Value>)
    ensures
        match out {
            Some(found) => member(value_json(*value), key@) == Some(value_json(*found)),
            None => member(value_json(*value), key@) is None,
        },
{
    value.get(key)
}

/// Calls `Value::get` with a place: the element there, if the value is an
/// array that is long enough.
#[verifier::external_body]
pub(crate) fn get_element<'a>(value: &'a Value, at: usize) -> (out: Option<&'a Value>)
    ensures
        match out {
            Some(found) => element(value_json(*value), at as int) == Some(value_json(*found)),
            None => element(value_json(*value), at as int) is None,
        },
{
    value.get(at)
}

/// Calls `Value::as_str`: the text, if the value is a string.
#[verifier::external_body]
pub(crate) fn get_text(value: &Value) -> (out: Option<String>)
    ensures
        crate::text::option_view(out) == text_of(value_json(*value)),
{
    value.as_str().map(String::from)
}

/// Calls `Value::as_array` for the number of elements, if the value is an array.
#[verifier::external_body]
pub(crate) fn get_length(value: &Value) -> (out: Option<usize>)
    ensures
        match out {
            Some(n) => length_of(value_json(*value)) == Some(n as nat),
            None => length_of(value_json(*value)) is None,
        },
{
    value.as_array().map(Vec::len)
}

} // verus!
