//! JSON documents, as far as the collectors read them.
//!
//! Parsing and the document tree are serde_json's. This module gives the
//! tree a mathematical model and states, without proof, how the few calls
//! that the collectors make relate to that model.

use vstd::prelude::*;

verus! {

/// What a JSON value holds.
pub enum Json {
    /// `null`.
    Null,
    /// `true` or `false`.
    Bool(bool),
    /// A number. It is given as `Some` when it is a whole number from zero
    /// to `u64::MAX`, and as `None` when it is negative or has a fraction
    /// or an exponent.
    Number(Option<u64>),
    /// A string.
    Text(Seq<char>),
    /// An array, in order.
    Array(Seq<Json>),
    /// An object, by key.
    Object(Map<Seq<char>, Json>),
}

#[verifier::external_type_specification]
#[verifier::external_body]
pub struct ExValue(serde_json::Value);

#[verifier::external_type_specification]
#[verifier::external_body]
pub struct ExError(serde_json::Error);

/// What a `serde_json::Value` holds.
pub uninterp spec fn json_of(value: serde_json::Value) -> Json;

/// The document that `serde_json::from_str` reads from `text`, or `None`
/// where it rejects the text.
pub uninterp spec fn parsed(text: Seq<char>) -> Option<Json>;

/// The member of an object under `key`.
pub open spec fn member_of(json: Json, key: Seq<char>) -> Option<Json> {
    match json {
        Json::Object(members) => if members.contains_key(key) {
            Some(members[key])
        } else {
            None
        },
        _ => None,
    }
}

/// The items of an array.
pub open spec fn items_of(json: Json) -> Option<Seq<Json>> {
    match json {
        Json::Array(items) => Some(items),
        _ => None,
    }
}

/// The characters of a string.
pub open spec fn text_of(json: Json) -> Option<Seq<char>> {
    match json {
        Json::Text(text) => Some(text),
        _ => None,
    }
}

/// The value of a number that is a whole number from zero to `u64::MAX`.
pub open spec fn number_of(json: Json) -> Option<u64> {
    match json {
        Json::Number(number) => number,
        _ => None,
    }
}

/// The models of a list of values.
pub open spec fn jsons_of(values: Seq<serde_json::Value>) -> Seq<Json> {
    values.map_values(|value: serde_json::Value| json_of(value))
}

/// `serde_json::from_str` for a `Value`: the document read from `text`, or
/// the parser's error. Which texts are documents, and which document a text
/// is, is left to the parser: the contract only names its answer `parsed`.
#[verifier::external_body]
pub(crate) fn parse(text: &str) -> (outcome: Result<serde_json::Value, serde_json::Error>)
    ensures
        match outcome {
            Ok(value) => parsed(text@) == Some(json_of(value)),
            Err(_) => parsed(text@) is None,
        },
{
    serde_json::from_str(text)
}

/// `Value::get` with a string index: the member under `key` where the value
/// is an object that has one, `None` for an object without that key and for
/// every value that is not an object.
#[verifier::external_body]
pub(crate) fn member<'a>(value: &'a serde_json::Value, key: &str) -> (found: Option<
    &'a serde_json::Value,
>)
    ensures
        match found {
            Some(inner) => member_of(json_of(*value), key@) == Some(json_of(*inner)),
            None => member_of(json_of(*value), key@) is None,
        },
{
    value.get(key)
}

/// `Value::as_array`: the items where the value is an array, else `None`.
#[verifier::external_body]
pub(crate) fn as_array<'a>(value: &'a serde_json::Value) -> (found: Option<
    &'a Vec<serde_json::Value>,
>)
    ensures
        match found {
            Some(items) => items_of(json_of(*value)) == Some(jsons_of(items@)),
            None => items_of(json_of(*value)) is None,
        },
{
    value.as_array()
}

/// `Value::as_str`: the text where the value is a string, else `None`.
#[verifier::external_body]
pub(crate) fn as_str<'a>(value: &'a serde_json::Value) -> (found: Option<&'a str>)
    ensures
        match found {
            Some(text) => text_of(json_of(*value)) == Some(text@),
            None => text_of(json_of(*value)) is None,
        },
{
    value.as_str()
}

/// `Value::as_u64`: the number where the value is a whole number from zero
/// to `u64::MAX`, else `None`.
#[verifier::external_body]
pub(crate) fn as_u64(value: &serde_json::Value) -> (found: Option<u64>)
    ensures
        found == number_of(json_of(*value)),
{
    value.as_u64()
}

} // verus!
