//! The JSON values that travel through the bridge, and the calls into
//! `serde_json` that read and write them.
//!
//! A `serde_json::Value` is opaque to the verifier. Everything in this file is
//! trusted: each contract gives a name to what the outside function returns,
//! so that the rest of the library can speak about it exactly. None of the
//! names is defined here; whatever is proved elsewhere holds for any JSON
//! library that behaves as a function of its arguments.

use vstd::prelude::*;

verus! {

/// `serde_json::Value`, carried through the library without looking inside.
#[verifier::external_type_specification]
#[verifier::external_body]
pub struct ExValue(serde_json::Value);

/// `serde_json::Error`, the error of every fallible call below.
#[verifier::external_type_specification]
#[verifier::external_body]
pub struct ExJsonError(serde_json::Error);

/// What `serde_json::from_str::<Value>` makes of a text: the value it parses
/// to, or `None` where the text is not one JSON document.
pub uninterp spec fn parsed_value(text: Seq<char>) -> Option<serde_json::Value>;

/// What `serde_json::to_string` writes for a value: its compact JSON text, or
/// `None` where serialisation reports an error.
pub uninterp spec fn value_text(value: serde_json::Value) -> Option<Seq<char>>;

/// What `Value::from` makes of a string slice: the JSON string with that
/// text.
pub uninterp spec fn string_value(s: Seq<char>) -> serde_json::Value;

/// What `Value::get` finds under a string key: the member of that name where
/// the value is an object that has one, and `None` otherwise.
pub uninterp spec fn member(value: serde_json::Value, key: Seq<char>) -> Option<serde_json::Value>;

/// What `Value::as_str` returns: the text where the value is a JSON string,
/// and `None` otherwise.
pub uninterp spec fn string_of(value: serde_json::Value) -> Option<Seq<char>>;

/// What `Value::is_null` returns: whether the value is JSON `null`.
pub uninterp spec fn is_null(value: serde_json::Value) -> bool;

/// The JSON value `null`: what the text `null` parses to.
pub open spec fn null_value() -> serde_json::Value {
    parsed_value("null"@)->0
}

/// Calls `serde_json::from_str::<Value>`. The result is `Ok` exactly where
/// `parsed_value` names a value, and then holds that value.
#[verifier::external_body]
pub(crate) fn parse_value(text: &str) -> (result: Result<serde_json::Value, serde_json::Error>)
    ensures
        result is Ok <==> parsed_value(text@) is Some,
        result matches Ok(v) ==> parsed_value(text@) == Some(v),
{
    serde_json::from_str::<serde_json::Value>(text)
}

/// Calls `serde_json::to_string` on a value. The result is `Ok` exactly where
/// `value_text` names a text, and then holds that text.
#[verifier::external_body]
pub(crate) fn write_value(value: &serde_json::Value) -> (result: Result<
    String,
    serde_json::Error,
>)
    ensures
        result is Ok <==> value_text(*value) is Some,
        result matches Ok(s) ==> value_text(*value) == Some(s@),
{
    serde_json::to_string(value)
}

/// Calls `Value::from` on a string slice, which copies the text into a JSON
/// string.
#[verifier::external_body]
pub(crate) fn make_string(s: &str) -> (result: serde_json::Value)
    ensures
        result == string_value(s@),
{
    serde_json::Value::from(s)
}

/// Calls `Value::get` with a string key. The result is the member that
/// `member` names.
#[verifier::external_body]
pub(crate) fn get_member<'a>(value: &'a serde_json::Value, key: &str) -> (result: Option<
    &'a serde_json::Value,
>)
    ensures
        result is Some <==> member(*value, key@) is Some,
        result matches Some(m) ==> member(*value, key@) == Some(*m),
{
    value.get(key)
}

/// Calls `Value::as_str`. The result is the text that `string_of` names.
#[verifier::external_body]
pub(crate) fn get_string<'a>(value: &'a serde_json::Value) -> (result: Option<&'a str>)
    ensures
        result is Some <==> string_of(*value) is Some,
        result matches Some(s) ==> string_of(*value) == Some(s@),
{
    value.as_str()
}

/// Calls `Value::is_null`.
#[verifier::external_body]
pub(crate) fn check_null(value: &serde_json::Value) -> (result: bool)
    ensures
        result == is_null(*value),
{
    value.is_null()
}

/// Builds `Value::Null`, which is what the parser makes of the text `null`.
#[verifier::external_body]
pub(crate) fn make_null() -> (result: serde_json::Value)
    ensures
        parsed_value("null"@) == Some(result),
{
    serde_json::Value::Null
}

/// Calls `Value::clone`, which copies the whole value.
#[verifier::external_body]
pub(crate) fn copy_value(value: &serde_json::Value) -> (result: serde_json::Value)
    ensures
        result == *value,
{
    value.clone()
}

/// Calls `to_string` on a `serde_json::Error` for its message. Nothing is
/// claimed of the text.
#[verifier::external_body]
pub(crate) fn describe(error: &serde_json::Error) -> (message: String) {
    error.to_string()
}

} // verus!
