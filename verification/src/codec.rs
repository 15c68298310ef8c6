//! Reading JSON text into a [`Json`] and writing one out.
//!
//! Both are done by `serde_json`, on its own `Value`. What Verus is told of
//! `serde_json` stands in this file and nowhere else: two types that it
//! cannot look into, the calls that read and write text, the two functions
//! that hand a document over between `Value` and [`Json`], and a name for
//! what each of them returns.

use crate::error::{AgentError, Failure};
use crate::json::{Json, JsonValue, Number};
use serde_json::{from_str, Value};
use vstd::prelude::*;

verus! {

#[verifier::external_type_specification]
#[verifier::external_body]
pub struct ExValue(serde_json::Value);

#[verifier::external_type_specification]
#[verifier::external_body]
pub struct ExError(serde_json::Error);

/// The document that a `serde_json::Value` holds.
pub uninterp spec fn value_model(value: serde_json::Value) -> JsonValue;

/// The compact text that `to_string` writes for a `serde_json::Value`.
pub uninterp spec fn value_text(value: serde_json::Value) -> Seq<char>;

/// The message that a `serde_json::Error` carries.
pub uninterp spec fn error_message(error: serde_json::Error) -> Seq<char>;

/// What `serde_json::from_str` makes of `text`: the document that it reads,
/// or the message of the error with which it rejects the text.
pub uninterp spec fn json_decode(text: Seq<char>) -> Result<JsonValue, Seq<char>>;

/// The compact text that `serde_json` writes for a document.
pub uninterp spec fn json_text(value: JsonValue) -> Seq<char>;

/// What came of reading a text: the document read, or the error's message.
pub open spec fn read_view(outcome: Result<serde_json::Value, serde_json::Error>) -> Result<
    JsonValue,
    Seq<char>,
> {
    match outcome {
        Ok(value) => Ok(value_model(value)),
        Err(error) => Err(error_message(error)),
    }
}

/// `serde_json::from_str`, reading `text` as a `serde_json::Value`. What it
/// returns depends on the text alone.
#[verifier::external_body]
fn read_value(text: &str) -> (out: Result<serde_json::Value, serde_json::Error>)
    ensures
        read_view(out) == json_decode(text@),
{
    from_str::<Value>(text)
}

/// Hands a `serde_json::Value` over as a [`Json`], variant by variant. An
/// integer that `as_u64` or `as_i64` yields stays an integer; any other number
/// is kept as the literal that `serde_json` prints for it. The members of an
/// object come in the order of the value's own map, which holds each key
/// once.
#[verifier::external_body]
fn lift(value: &serde_json::Value) -> (out: Json)
    ensures
        out@ == value_model(*value),
{
    match value {
        Value::Null => Json::Null,
        Value::Bool(b) => Json::Bool(*b),
        Value::Number(n) => Json::Number(match (n.as_u64(), n.as_i64()) {
            (Some(u), _) => Number::PosInt(u),
            (None, Some(i)) => Number::NegInt(i),
            (None, None) => Number::Float(n.to_string()),
        }),
        Value::String(s) => Json::String(s.clone()),
        Value::Array(items) => Json::Array(items.iter().map(lift).collect()),
        Value::Object(map) => Json::Object(map.iter().map(|(k, v)| (k.clone(), lift(v))).collect()),
    }
}

/// Hands a [`Json`] over as a `serde_json::Value`, variant by variant. The
/// members of an object are inserted in order, so a later one replaces an
/// earlier one with its key, as in the document that the [`Json`] denotes.
/// A number kept as a literal is read back by `serde_json`; a literal that
/// it rejects becomes `null`. So the text that `serde_json` writes for the
/// value depends on the document alone.
#[verifier::external_body]
fn lower(value: &Json) -> (out: serde_json::Value)
    ensures
        value_text(out) == json_text(value@),
{
    match value {
        Json::Null => Value::Null,
        Json::Bool(b) => Value::Bool(*b),
        Json::Number(Number::PosInt(u)) => Value::from(*u),
        Json::Number(Number::NegInt(i)) => Value::from(*i),
        Json::Number(Number::Float(text)) => from_str(text).map_or(Value::Null, Value::Number),
        Json::String(s) => Value::String(s.clone()),
        Json::Array(items) => Value::Array(items.iter().map(lower).collect()),
        Json::Object(fields) => Value::Object(fields.iter().fold(serde_json::Map::new(), |mut map, (k, v)| {
            map.insert(k.clone(), lower(v));
            map
        })),
    }
}

/// `to_string` of a `serde_json::Value`: its compact text.
#[verifier::external_body]
fn write_value(value: &serde_json::Value) -> (out: String)
    ensures
        out@ == value_text(*value),
{
    value.to_string()
}

/// `to_string` of a `serde_json::Error`: its message.
#[verifier::external_body]
pub(crate) fn error_text(error: &serde_json::Error) -> (out: String)
    ensures
        out@ == error_message(*error),
{
    error.to_string()
}

/// What reading a document from `text` gives.
pub open spec fn parsed(text: Seq<char>) -> Result<JsonValue, Failure> {
    match json_decode(text) {
        Ok(value) => Ok(value),
        Err(message) => Err(Failure::Json(message)),
    }
}

/// The outcome of reading a document, by its view.
pub open spec fn parse_view(outcome: Result<Json, AgentError>) -> Result<JsonValue, Failure> {
    match outcome {
        Ok(value) => Ok(value@),
        Err(error) => Err(error@),
    }
}

impl Json {
    /// Reads a document from `text`. Fails with [`AgentError::Json`], and
    /// the reader's message, where the text is not JSON.
    pub fn parse(text: &str) -> (out: Result<Json, AgentError>)
        ensures
            parse_view(out) == parsed(text@),
    {
        match read_value(text) {
            Ok(value) => Ok(lift(&value)),
            Err(error) => Err(AgentError::from(error)),
        }
    }

    /// The document as compact JSON text.
    pub fn to_text(&self) -> (out: String)
        ensures
            out@ == json_text(self@),
    {
        let value = lower(self);
        write_value(&value)
    }
}

} // verus!
