//! What a record type must offer to be kept in a collection, and the typed
//! reading of an object's fields.

use crate::json::{entry_values, find, lookup, Json, JsonValue};
use vstd::prelude::*;

verus! {

/// A record type of the store: a type with a view that can be written as a
/// JSON value and read back from one.
pub trait Record: Sized + View {
    /// The JSON value that stands for a record.
    spec fn json_of(model: Self::V) -> JsonValue;

    /// The record that a JSON value stands for, if it has the record's shape.
    spec fn of_json(doc: JsonValue) -> Option<Self::V>;

    /// Writes the record as a JSON value.
    fn to_json(&self) -> (doc: Json)
        ensures
            doc@ == Self::json_of(self@),
    ;

    /// Reads a record from a JSON value; `None` when the value does not have
    /// the record's shape.
    fn from_json(doc: &Json) -> (record: Option<Self>)
        ensures
            match record {
                Some(r) => Self::of_json(doc@) == Some(r@),
                None => Self::of_json(doc@) is None,
            },
    ;

    /// Reading what was written gives the record back.
    proof fn lemma_read_written(model: Self::V)
        ensures
            Self::of_json(Self::json_of(model)) == Some(model),
    ;
}

/// A required unsigned number.
pub open spec fn as_number(value: Option<JsonValue>) -> Option<u64> {
    match value {
        Some(JsonValue::Number(Some(n))) => Some(n),
        _ => None,
    }
}

/// A required string.
pub open spec fn as_text(value: Option<JsonValue>) -> Option<Seq<char>> {
    match value {
        Some(JsonValue::Text(s)) => Some(s),
        _ => None,
    }
}

/// A required boolean.
pub open spec fn as_bool(value: Option<JsonValue>) -> Option<bool> {
    match value {
        Some(JsonValue::Bool(b)) => Some(b),
        _ => None,
    }
}

/// An optional unsigned number: a missing entry and `null` both read as
/// absent; anything but a number is a mismatch (the outer `None`).
pub open spec fn as_optional_number(value: Option<JsonValue>) -> Option<Option<u64>> {
    match value {
        None => Some(None),
        Some(JsonValue::Null) => Some(None),
        Some(JsonValue::Number(Some(n))) => Some(Some(n)),
        _ => None,
    }
}

/// An optional string: a missing entry and `null` both read as absent;
/// anything but a string is a mismatch (the outer `None`).
pub open spec fn as_optional_text(value: Option<JsonValue>) -> Option<Option<Seq<char>>> {
    match value {
        None => Some(None),
        Some(JsonValue::Null) => Some(None),
        Some(JsonValue::Text(s)) => Some(Some(s)),
        _ => None,
    }
}

/// `entries` with one more entry when `value` is present, unchanged when it
/// is absent: absent fields are left out of the written object.
pub open spec fn with_optional(
    entries: Seq<(Seq<char>, JsonValue)>,
    key: Seq<char>,
    value: Option<JsonValue>,
) -> Seq<(Seq<char>, JsonValue)> {
    match value {
        Some(v) => entries.push((key, v)),
        None => entries,
    }
}

/// Reads the required number under `key`.
pub fn read_number(entries: &Vec<(String, Json)>, key: &str) -> (n: Option<u64>)
    ensures
        n == as_number(lookup(entry_values(entries@), key@)),
{
    match find(entries, key) {
        Some(Json::Number(Some(n))) => Some(*n),
        _ => None,
    }
}

/// Reads the required boolean under `key`.
pub fn read_bool(entries: &Vec<(String, Json)>, key: &str) -> (b: Option<bool>)
    ensures
        b == as_bool(lookup(entry_values(entries@), key@)),
{
    match find(entries, key) {
        Some(Json::Bool(b)) => Some(*b),
        _ => None,
    }
}

/// Reads the required string under `key`.
pub fn read_text(entries: &Vec<(String, Json)>, key: &str) -> (s: Option<String>)
    ensures
        match s {
            Some(text) => as_text(lookup(entry_values(entries@), key@)) == Some(text@),
            None => as_text(lookup(entry_values(entries@), key@)) is None,
        },
{
    match find(entries, key) {
        Some(Json::Text(s)) => Some(s.clone()),
        _ => None,
    }
}

/// Reads the optional number under `key`.
pub fn read_optional_number(entries: &Vec<(String, Json)>, key: &str) -> (n: Option<Option<u64>>)
    ensures
        n == as_optional_number(lookup(entry_values(entries@), key@)),
{
    match find(entries, key) {
        None => Some(None),
        Some(Json::Null) => Some(None),
        Some(Json::Number(Some(n))) => Some(Some(*n)),
        _ => None,
    }
}

/// Reads the optional string under `key`.
pub fn read_optional_text(entries: &Vec<(String, Json)>, key: &str) -> (s: Option<Option<String>>)
    ensures
        match s {
            Some(Some(text)) => as_optional_text(lookup(entry_values(entries@), key@)) == Some(
                Some(text@),
            ),
            Some(None) => as_optional_text(lookup(entry_values(entries@), key@)) == Some(
                None::<Seq<char>>,
            ),
            None => as_optional_text(lookup(entry_values(entries@), key@)) is None,
        },
{
    match find(entries, key) {
        None => Some(None),
        Some(Json::Null) => Some(None),
        Some(Json::Text(s)) => Some(Some(s.clone())),
        _ => None,
    }
}

/// Looking a key up after one more entry was added.
pub proof fn lemma_lookup_push(
    entries: Seq<(Seq<char>, JsonValue)>,
    key: Seq<char>,
    value: JsonValue,
    wanted: Seq<char>,
)
    ensures
        lookup(entries.push((key, value)), wanted) == if key == wanted {
            Some(value)
        } else {
            lookup(entries, wanted)
        },
{
    assert(entries.push((key, value)).drop_last() =~= entries);
}

/// Looking a key up after an optional entry was added.
pub proof fn lemma_lookup_with_optional(
    entries: Seq<(Seq<char>, JsonValue)>,
    key: Seq<char>,
    value: Option<JsonValue>,
    wanted: Seq<char>,
)
    ensures
        lookup(with_optional(entries, key, value), wanted) == if key == wanted && value is Some {
            value
        } else {
            lookup(entries, wanted)
        },
{
    if let Some(v) = value {
        lemma_lookup_push(entries, key, v, wanted);
    }
}

} // verus!
