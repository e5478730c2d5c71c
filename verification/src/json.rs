//! The JSON reader that the library relies on.
//!
//! Documents are read by `serde_json`. Its values are opaque here: the items
//! of this module say what the library takes from them, and nothing in the
//! library looks inside a value in any other way.

use vstd::prelude::*;

verus! {

/// `serde_json::Value`: any JSON value.
#[verifier::external_type_specification]
#[verifier::external_body]
pub struct ExValue(serde_json::Value);

/// `serde_json::Number`: a JSON number.
#[verifier::external_type_specification]
#[verifier::external_body]
pub struct ExNumber(serde_json::Number);

/// `serde_json::Map`: the members of a JSON object.
#[verifier::external_type_specification]
#[verifier::external_body]
#[verifier::reject_recursive_types(K)]
#[verifier::reject_recursive_types(V)]
pub struct ExMap<K, V>(serde_json::Map<K, V>);

/// `serde_json::Error`: why a text could not be parsed.
#[verifier::external_type_specification]
#[verifier::external_body]
pub struct ExError(serde_json::Error);

/// A JSON value opened one level: which of the six forms it has, and what
/// that form holds.
pub enum JsonRef<'a> {
    Null,
    Bool(bool),
    Number(&'a serde_json::Number),
    String(&'a String),
    Array(&'a Vec<serde_json::Value>),
    Object(&'a serde_json::Map<String, serde_json::Value>),
}

/// The form of a JSON value and what it holds.
pub uninterp spec fn json_form(value: &serde_json::Value) -> JsonRef<'_>;

/// The value that a text stands for, where the text is JSON.
pub uninterp spec fn json_parse(text: Seq<char>) -> Option<serde_json::Value>;

/// Whether a number is an integer in the range of `i64`.
pub uninterp spec fn number_is_i64(number: serde_json::Number) -> bool;

/// The members of an object, key and value, in the order in which the
/// object yields them.
pub uninterp spec fn object_members(object: serde_json::Map<String, serde_json::Value>) -> Seq<
    (String, serde_json::Value),
>;

/// The compact JSON text of a value.
pub uninterp spec fn json_text(value: serde_json::Value) -> Seq<char>;

/// `serde_json::from_str` at `Value`: succeeds on the texts that are one
/// JSON value and on no others, and the value depends on the text alone.
#[verifier::external_body]
pub(crate) fn parse_value(text: &str) -> (parsed: Result<serde_json::Value, serde_json::Error>)
    ensures
        match parsed {
            Ok(value) => json_parse(text@) == Some(value),
            Err(_) => json_parse(text@) is None,
        },
{
    serde_json::from_str::<serde_json::Value>(text)
}

/// Tells the six variants of `serde_json::Value` apart and hands out what
/// the variant holds, as it is. No test is made on what is handed out.
#[verifier::external_body]
pub(crate) fn open_value<'a>(value: &'a serde_json::Value) -> (form: JsonRef<'a>)
    ensures
        form == json_form(value),
{
    match value {
        serde_json::Value::Null => JsonRef::Null,
        serde_json::Value::Bool(b) => JsonRef::Bool(*b),
        serde_json::Value::Number(n) => JsonRef::Number(n),
        serde_json::Value::String(s) => JsonRef::String(s),
        serde_json::Value::Array(a) => JsonRef::Array(a),
        serde_json::Value::Object(m) => JsonRef::Object(m),
    }
}

/// `serde_json::Number::is_i64`: whether the number is an integer between
/// `i64::MIN` and `i64::MAX`.
#[verifier::external_body]
pub(crate) fn is_i64(number: &serde_json::Number) -> (fits: bool)
    ensures
        fits == number_is_i64(*number),
{
    number.is_i64()
}

/// `serde_json::Map::iter`: the members of the object, key and value, in
/// the order in which the iterator yields them. With the crate's
/// `preserve_order` feature that is the order in which the keys first stood
/// in the text.
#[verifier::external_body]
pub(crate) fn members<'a>(object: &'a serde_json::Map<String, serde_json::Value>) -> (list: Vec<
    (&'a String, &'a serde_json::Value),
>)
    ensures
        list@.len() == object_members(*object).len(),
        forall|i: int|
            0 <= i < list@.len() ==> *(#[trigger] list@[i]).0 == object_members(*object)[i].0
                && *list@[i].1 == object_members(*object)[i].1,
{
    object.iter().collect()
}

/// `to_string` of `serde_json::Value`, whose `Display` writes the value as
/// compact JSON. The text depends on the value alone.
#[verifier::external_body]
pub(crate) fn value_text(value: &serde_json::Value) -> (text: String)
    ensures
        text@ == json_text(*value),
{
    value.to_string()
}

} // verus!
