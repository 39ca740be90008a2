//! Reading JSON values through serde_json. A value is opaque here: what the
//! library knows of one is what serde_json's accessors return for it, each
//! named below.
use vstd::prelude::*;

use serde_json::{Number, Value};

verus! {

#[verifier::external_type_specification]
#[verifier::external_body]
pub struct ExValue(serde_json::Value);

#[verifier::external_type_specification]
#[verifier::external_body]
pub struct ExNumber(serde_json::Number);

#[verifier::external_type_specification]
#[verifier::external_body]
pub struct ExJsonError(serde_json::Error);

/// The JSON document that a text holds, or the parser's error where it
/// holds none.
pub uninterp spec fn json_parse(s: Seq<char>) -> Result<Value, serde_json::Error>;

/// The message of a parser error.
pub uninterp spec fn json_error_message(e: serde_json::Error) -> Seq<char>;

/// The elements of a JSON array; `None` for any other value.
pub uninterp spec fn json_items(v: Value) -> Option<Seq<Value>>;

/// The member of a JSON object under a key; `None` where the value is no
/// object or has no such member.
pub uninterp spec fn json_member(v: Value, key: Seq<char>) -> Option<Value>;

/// Whether a JSON value is `null`.
pub uninterp spec fn json_is_null(v: Value) -> bool;

/// A JSON number that is an integer within `i64`; `None` for any other value.
pub uninterp spec fn json_i64(v: Value) -> Option<i64>;

/// The text of a JSON string; `None` for any other value.
pub uninterp spec fn json_str(v: Value) -> Option<Seq<char>>;

/// A JSON boolean; `None` for any other value.
pub uninterp spec fn json_bool(v: Value) -> Option<bool>;

/// A JSON number; `None` for any other value.
pub uninterp spec fn json_number(v: Value) -> Option<Number>;

/// Relies on serde_json::from_str (into a `Value`): parses the whole text as
/// one JSON document, or fails.
#[verifier::external_body]
pub(crate) fn parse_json(s: &str) -> (r: Result<Value, serde_json::Error>)
    ensures
        r == json_parse(s@),
{
    serde_json::from_str::<Value>(s)
}

/// Relies on serde_json::Error's `Display`: the parser's diagnostic.
#[verifier::external_body]
pub(crate) fn error_text(e: &serde_json::Error) -> (r: String)
    ensures
        r@ == json_error_message(*e),
{
    e.to_string()
}

/// Relies on Value::as_array.
#[verifier::external_body]
pub(crate) fn array_items(v: &Value) -> (r: Option<&Vec<Value>>)
    ensures
        match r {
            Some(a) => json_items(*v) == Some(a@),
            None => json_items(*v) is None,
        },
{
    v.as_array()
}

/// Relies on Value::get with a key.
#[verifier::external_body]
pub(crate) fn member<'a>(v: &'a Value, key: &str) -> (r: Option<&'a Value>)
    ensures
        match r {
            Some(x) => json_member(*v, key@) == Some(*x),
            None => json_member(*v, key@) is None,
        },
{
    v.get(key)
}

/// Relies on Value::is_null.
#[verifier::external_body]
pub(crate) fn is_null(v: &Value) -> (r: bool)
    ensures
        r == json_is_null(*v),
{
    v.is_null()
}

/// Relies on Value::as_i64.
#[verifier::external_body]
pub(crate) fn as_i64(v: &Value) -> (r: Option<i64>)
    ensures
        r == json_i64(*v),
{
    v.as_i64()
}

/// Relies on Value::as_str.
#[verifier::external_body]
pub(crate) fn as_str(v: &Value) -> (r: Option<&str>)
    ensures
        match r {
            Some(s) => json_str(*v) == Some(s@),
            None => json_str(*v) is None,
        },
{
    v.as_str()
}

/// Relies on Value::as_bool.
#[verifier::external_body]
pub(crate) fn as_bool(v: &Value) -> (r: Option<bool>)
    ensures
        r == json_bool(*v),
{
    v.as_bool()
}

/// Relies on Value::as_number; the number is copied out.
#[verifier::external_body]
pub(crate) fn as_number(v: &Value) -> (r: Option<Number>)
    ensures
        r == json_number(*v),
{
    v.as_number().cloned()
}

} // verus!
