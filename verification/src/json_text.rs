//! JSON documents as text: reading a document from its text and writing it
//! back, by `serde_json`.

use crate::json::{Json, JsonNumber, JsonView};
use vstd::prelude::*;

verus! {

/// A JSON value of `serde_json`.
#[verifier::external_type_specification]
#[verifier::external_body]
pub struct ExValue(serde_json::Value);

/// A JSON number of `serde_json`.
#[verifier::external_type_specification]
#[verifier::external_body]
pub struct ExNumber(serde_json::Number);

/// An error of `serde_json`.
#[verifier::external_type_specification]
#[verifier::external_body]
pub struct ExJsonError(serde_json::Error);

/// What `serde_json::from_str` makes of the text `text`: the document that
/// the text holds, or the message of the error that it found.
pub uninterp spec fn parsed_json(text: Seq<char>) -> Result<JsonView, Seq<char>>;

/// What `serde_json::to_string_pretty` makes of the document `json`: its
/// text, indented, or the message of the error that `serde_json` found in
/// one of its numbers or in writing it.
pub uninterp spec fn rendered_json(json: JsonView) -> Result<Seq<char>, Seq<char>>;

/// Whether a document or a message is what `outcome` says.
pub open spec fn json_result_is(
    result: Result<Json, String>,
    outcome: Result<JsonView, Seq<char>>,
) -> bool {
    match result {
        Ok(json) => outcome == Ok::<JsonView, Seq<char>>(json@),
        Err(message) => outcome == Err::<JsonView, Seq<char>>(message@),
    }
}

/// Whether a text or a message is what `outcome` says.
pub open spec fn text_result_is(
    result: Result<String, String>,
    outcome: Result<Seq<char>, Seq<char>>,
) -> bool {
    match result {
        Ok(text) => outcome == Ok::<Seq<char>, Seq<char>>(text@),
        Err(message) => outcome == Err::<Seq<char>, Seq<char>>(message@),
    }
}

/// Turns a number of `serde_json` into a number of this library, by
/// `Number::as_u64`, `Number::as_i64` and `Number::to_string`: an integer
/// stays an integer, any other number is kept as the literal that
/// `serde_json` prints for it.
#[verifier::external_body]
fn number_from(number: &serde_json::Number) -> JsonNumber {
    match (number.as_u64(), number.as_i64()) {
        (Some(unsigned), _) => JsonNumber::Unsigned(unsigned),
        (None, Some(signed)) => JsonNumber::Signed(signed),
        (None, None) => JsonNumber::Real(number.to_string()),
    }
}

/// Turns a `serde_json::Value` into a value of this library, variant by
/// variant; the members of an object come in the order in which
/// `Map::into_iter` hands them out.
#[verifier::external_body]
fn json_from_value(value: serde_json::Value) -> Json {
    match value {
        serde_json::Value::Null => Json::Null,
        serde_json::Value::Bool(b) => Json::Bool(b),
        serde_json::Value::Number(n) => Json::Number(number_from(&n)),
        serde_json::Value::String(s) => Json::Text(s),
        serde_json::Value::Array(items) => Json::Array(
            items.into_iter().map(json_from_value).collect(),
        ),
        serde_json::Value::Object(map) => Json::Object(
            map.into_iter().map(|(key, value)| (key, json_from_value(value))).collect(),
        ),
    }
}

/// Turns a number of this library into a `serde_json::Value`: an integer by
/// `Value::from`, a literal by `serde_json::from_str`, whose error comes back
/// where it does not read the literal as a number.
#[verifier::external_body]
fn number_to_value(number: &JsonNumber) -> Result<serde_json::Value, serde_json::Error> {
    match number {
        JsonNumber::Unsigned(unsigned) => Ok(serde_json::Value::from(*unsigned)),
        JsonNumber::Signed(signed) => Ok(serde_json::Value::from(*signed)),
        JsonNumber::Real(literal) => serde_json::from_str::<serde_json::Number>(literal).map(
            serde_json::Value::Number,
        ),
    }
}

/// Turns a value of this library into a `serde_json::Value`, variant by
/// variant; the members of an object are collected into a `Map` in their
/// order, so that the last member with a key is the one that stays. The
/// error of a number that `serde_json` does not read comes back as it is.
#[verifier::external_body]
fn json_to_value(json: &Json) -> Result<serde_json::Value, serde_json::Error> {
    match json {
        Json::Null => Ok(serde_json::Value::Null),
        Json::Bool(b) => Ok(serde_json::Value::Bool(*b)),
        Json::Number(n) => number_to_value(n),
        Json::Text(s) => Ok(serde_json::Value::String(s.clone())),
        Json::Array(items) => items.iter().map(json_to_value).collect::<Result<_, _>>().map(
            serde_json::Value::Array,
        ),
        Json::Object(members) => members.iter().map(
            |(key, value)| Ok((key.clone(), json_to_value(value)?)),
        ).collect::<Result<_, _>>().map(serde_json::Value::Object),
    }
}

/// Reads a JSON document from its text with `serde_json::from_str`. The
/// result is the document, or the message of the error of `serde_json`.
#[verifier::external_body]
pub(crate) fn parse_json(text: &str) -> (result: Result<Json, String>)
    ensures
        json_result_is(result, parsed_json(text@)),
{
    serde_json::from_str::<serde_json::Value>(text).map(json_from_value).map_err(
        |error| error.to_string(),
    )
}

/// Writes a JSON document as indented text with
/// `serde_json::to_string_pretty`. The result is the text, or the message of
/// the error of `serde_json`, be it of a number or of the writing.
#[verifier::external_body]
pub(crate) fn render_json(json: &Json) -> (result: Result<String, String>)
    ensures
        text_result_is(result, rendered_json(json@)),
{
    json_to_value(json).and_then(|value| serde_json::to_string_pretty(&value)).map_err(
        |error| error.to_string(),
    )
}

} // verus!
