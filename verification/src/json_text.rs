//! Reading and writing JSON text with `serde_json`.
//!
//! Everything in this file is trusted: the functions call `serde_json`, and
//! their contracts are believed, not proved.

use crate::json::{Json, JsonValue};
use vstd::prelude::*;

verus! {

#[verifier::external_type_specification]
#[verifier::external_body]
pub struct ExValue(serde_json::Value);

/// What `serde_json::from_str` makes of a text: the document it reads, or the
/// message of the error it reports.
pub uninterp spec fn parsed_text(text: Seq<char>) -> Result<JsonValue, Seq<char>>;

/// The text `serde_json` writes for a document in its compact form.
pub uninterp spec fn compact_text(doc: JsonValue) -> Seq<char>;

/// The text `serde_json` writes for a document in its pretty (indented) form.
pub uninterp spec fn pretty_text(doc: JsonValue) -> Seq<char>;

/// Copies a `serde_json::Value` into a [`Json`], variant by variant. A number
/// goes through `Number::as_u64`; an object's entries come in the order in
/// which the `Map` hands them out.
#[verifier::external_body]
fn from_value(value: serde_json::Value) -> Json {
    match value {
        serde_json::Value::Null => Json::Null,
        serde_json::Value::Bool(b) => Json::Bool(b),
        serde_json::Value::Number(n) => Json::Number(n.as_u64()),
        serde_json::Value::String(s) => Json::Text(s),
        serde_json::Value::Array(items) => Json::Array(items.into_iter().map(from_value).collect()),
        serde_json::Value::Object(entries) => Json::Object(
            entries.into_iter().map(|(key, value)| (key, from_value(value))).collect(),
        ),
    }
}

/// Copies a [`Json`] into a `serde_json::Value`, variant by variant.
/// `Number(None)` becomes `Value::Null` (this is `Value::from` on an `Option`);
/// an object's entries are inserted into the `Map` in order, so of two entries
/// with one key the later value stays.
#[verifier::external_body]
fn to_value(doc: &Json) -> serde_json::Value {
    match doc {
        Json::Null => serde_json::Value::Null,
        Json::Bool(b) => serde_json::Value::Bool(*b),
        Json::Number(n) => serde_json::Value::from(*n),
        Json::Text(s) => serde_json::Value::String(s.clone()),
        Json::Array(items) => serde_json::Value::Array(items.iter().map(to_value).collect()),
        Json::Object(entries) => serde_json::Value::Object(
            entries.iter().map(|(key, value)| (key.clone(), to_value(value))).collect(),
        ),
    }
}

/// `serde_json::from_str::<Value>`: parses `text` as one JSON document. The
/// result is the named value `parsed_text(text)`: the document on success,
/// the error's message (its `Display` form) on failure.
#[verifier::external_body]
pub(crate) fn parse_text(text: &str) -> (parsed: Result<Json, String>)
    ensures
        match parsed {
            Ok(doc) => parsed_text(text@) == Ok::<JsonValue, Seq<char>>(doc@),
            Err(message) => parsed_text(text@) == Err::<JsonValue, Seq<char>>(message@),
        },
{
    match serde_json::from_str::<serde_json::Value>(text) {
        Ok(value) => Ok(from_value(value)),
        Err(error) => Err(error.to_string()),
    }
}

/// `Display` of `serde_json::Value` with `{}`: the compact text of `doc`.
#[verifier::external_body]
pub(crate) fn render_compact(doc: &Json) -> (text: String)
    ensures
        text@ == compact_text(doc@),
{
    format!("{}", to_value(doc))
}

/// `Display` of `serde_json::Value` with `{:#}`: the pretty text of `doc`.
#[verifier::external_body]
pub(crate) fn render_pretty(doc: &Json) -> (text: String)
    ensures
        text@ == pretty_text(doc@),
{
    format!("{:#}", to_value(doc))
}

} // verus!
