//! JSON values, as far as the API looks into them.

use std::collections::BTreeMap;
use vstd::prelude::*;

verus! {

/// `serde_json::Value`: a JSON value.
#[verifier::external_type_specification]
#[verifier::external_body]
pub struct ExValue(serde_json::Value);

/// `serde_json::Error`: why a JSON value could not be read as something.
#[verifier::external_type_specification]
#[verifier::external_body]
pub struct ExError(serde_json::Error);

/// What a JSON value holds.
pub enum Shape {
    Null,
    Flag(bool),
    /// A number that is held as a whole number.
    Integer(int),
    /// Any other number.
    Fraction,
    Text(Seq<char>),
    List,
    Object(Map<Seq<char>, serde_json::Value>),
}

/// What a JSON value holds.
pub uninterp spec fn json_shape(value: serde_json::Value) -> Shape;

/// A plain type that a JSON value is read as.
#[derive(Clone, Copy, Debug, PartialEq, Eq, Structural)]
pub enum Plain {
    Text,
    Flag,
    Count,
    Members,
}

/// What `serde_json` says of a value that cannot be read as the type wanted.
pub uninterp spec fn json_complaint(value: serde_json::Value, wanted: Plain) -> Seq<char>;

/// The map that a JSON value is read as, if it can be read as one.
pub uninterp spec fn json_map(value: serde_json::Value) -> Option<Map<String, serde_json::Value>>;

/// Whether a JSON value has no parts of its own.
pub open spec fn is_simple(value: serde_json::Value) -> bool {
    !(json_shape(value) is List || json_shape(value) is Object)
}

/// What an error says of itself.
pub uninterp spec fn json_error_text(error: serde_json::Error) -> Seq<char>;

/// `serde_json::Value::get` with a string: the member of that name if the value
/// is an object that has one, and nothing otherwise.
#[verifier::external_body]
pub(crate) fn member<'a>(value: &'a serde_json::Value, key: &str) -> (found: Option<
    &'a serde_json::Value,
>)
    ensures
        match json_shape(*value) {
            Shape::Object(members) => match found {
                Some(v) => members.contains_key(key@) && *v == members[key@],
                None => !members.contains_key(key@),
            },
            _ => found is None,
        },
{
    value.get(key)
}

/// `serde_json::Value::is_null`: whether the value is `null`.
#[verifier::external_body]
pub(crate) fn is_null(value: &serde_json::Value) -> (null: bool)
    ensures
        null == (json_shape(*value) is Null),
{
    value.is_null()
}

/// `serde_json::from_value` into a `String`: the string that the value is. Any
/// other value is refused, with a text that depends on the value alone.
#[verifier::external_body]
pub(crate) fn read_text(value: &serde_json::Value) -> (read: Result<String, serde_json::Error>)
    ensures
        match read {
            Ok(text) => json_shape(*value) == Shape::Text(text@),
            Err(e) => !(json_shape(*value) is Text) && json_error_text(e) == json_complaint(
                *value,
                Plain::Text,
            ),
        },
{
    serde_json::from_value(value.clone())
}

/// `serde_json::from_value` into a `bool`: the boolean that the value is. Any
/// other value is refused, with a text that depends on the value alone.
#[verifier::external_body]
pub(crate) fn read_flag(value: &serde_json::Value) -> (read: Result<bool, serde_json::Error>)
    ensures
        match read {
            Ok(flag) => json_shape(*value) == Shape::Flag(flag),
            Err(e) => !(json_shape(*value) is Flag) && json_error_text(e) == json_complaint(
                *value,
                Plain::Flag,
            ),
        },
{
    serde_json::from_value(value.clone())
}

/// `serde_json::from_value` into a `u32`: the whole number that the value is, if
/// it fits. Any other value is refused, with a text that depends on the value
/// alone.
#[verifier::external_body]
pub(crate) fn read_count(value: &serde_json::Value) -> (read: Result<u32, serde_json::Error>)
    ensures
        match read {
            Ok(n) => json_shape(*value) == Shape::Integer(n as int),
            Err(e) => !(json_shape(*value) matches Shape::Integer(n) && 0 <= n <= u32::MAX)
                && json_error_text(e) == json_complaint(*value, Plain::Count),
        },
{
    serde_json::from_value(value.clone())
}

/// `serde_json::from_value` into a `BTreeMap` from strings to JSON values.
///
/// Only an object can be read as a map. One whose members have no parts of their
/// own always can, and the map then has just these members. What becomes of a
/// member with parts is left to the name: with the crate's `raw_value` feature,
/// an object under a private key of the crate is read as something else.
#[verifier::external_body]
pub(crate) fn read_members(value: &serde_json::Value) -> (read: Result<
    BTreeMap<String, serde_json::Value>,
    serde_json::Error,
>)
    ensures
        match read {
            Ok(map) => json_shape(*value) is Object && json_map(*value) == Some(map@),
            Err(e) => json_map(*value) is None && json_error_text(e) == json_complaint(
                *value,
                Plain::Members,
            ),
        },
        json_shape(*value) matches Shape::Object(members) ==> (forall|k: Seq<char>| #[trigger]
            members.contains_key(k) ==> is_simple(members[k])) ==> read is Ok && forall|k: String|
            #![trigger read->Ok_0@.contains_key(k)]
            {
                &&& read->Ok_0@.contains_key(k) <==> members.contains_key(k@)
                &&& read->Ok_0@.contains_key(k) ==> read->Ok_0@[k] == members[k@]
            },
{
    serde_json::from_value(value.clone())
}

/// `serde_json::Error` through `to_string`: what the error says of itself.
#[verifier::external_body]
pub(crate) fn error_text(error: &serde_json::Error) -> (text: String)
    ensures
        text@ == json_error_text(*error),
{
    error.to_string()
}

} // verus!
