//! The document codec: a collection as JSON text and back.

use crate::error::{decimal, decimal_text, StoreError, StoreErrorView};
use crate::json::{item_values, lemma_array_view, Json, JsonValue};
use crate::json_text::{
    compact_text, parse_text, parsed_text, pretty_text, render_compact, render_pretty,
};
use crate::record::Record;
use vstd::prelude::*;

verus! {

/// The number of records from which a collection is written in compact form;
/// a smaller collection is written indented.
pub const COMPACT_FROM: usize = 100;

/// The characters with Unicode's `White_Space` property.
pub open spec fn white_space(c: char) -> bool {
    let n = c as u32;
    (0x09 <= n <= 0x0D) || n == 0x20 || n == 0x85 || n == 0xA0 || n == 0x1680 || (0x2000 <= n
        <= 0x200A) || n == 0x2028 || n == 0x2029 || n == 0x202F || n == 0x205F || n == 0x3000
}

/// A text that is empty or holds white space only.
pub open spec fn blank(text: Seq<char>) -> bool {
    forall|i: int| 0 <= i < text.len() ==> white_space(#[trigger] text[i])
}

/// Whether `c` is a white-space character.
pub fn is_white_space(c: char) -> (b: bool)
    ensures
        b == white_space(c),
{
    let n: u32 = c as u32;
    (0x09 <= n && n <= 0x0D) || n == 0x20 || n == 0x85 || n == 0xA0 || n == 0x1680 || (0x2000 <= n
        && n <= 0x200A) || n == 0x2028 || n == 0x2029 || n == 0x202F || n == 0x205F || n == 0x3000
}

/// Whether `text` is empty or holds white space only.
pub fn is_blank(text: &str) -> (b: bool)
    ensures
        b == blank(text@),
{
    for c in it: text.chars()
        invariant
            it.seq() == text@,
            forall|i: int| 0 <= i < it.index() ==> white_space(#[trigger] text@[i]),
    {
        if !is_white_space(c) {
            return false;
        }
    }
    true
}

/// The values of a list of records, item by item.
pub open spec fn views<T: View>(items: Seq<T>) -> Seq<T::V> {
    Seq::new(items.len(), |i: int| items[i]@)
}

/// The value of the outcome of reading a collection.
pub open spec fn records_view<T: View>(outcome: Result<Vec<T>, StoreError>) -> Result<
    Seq<T::V>,
    StoreErrorView,
> {
    match outcome {
        Ok(items) => Ok(views(items@)),
        Err(error) => Err(error@),
    }
}

/// How a JSON document fails to be a collection of records.
#[derive(Debug, Clone, Copy, PartialEq, Eq, Structural)]
pub enum Mismatch {
    /// The document is not an array.
    NotAnArray,
    /// The array's item at this index does not have the record's shape.
    Record(usize),
}

/// The JSON array written for a list of records.
pub open spec fn list_json<T: Record>(models: Seq<T::V>) -> JsonValue {
    JsonValue::Array(Seq::new(models.len(), |i: int| T::json_of(models[i])))
}

/// The index of the first item from `start` on that does not have the
/// record's shape; the list's length if there is none.
pub open spec fn first_mismatch<T: Record>(items: Seq<JsonValue>, start: int) -> int
    decreases items.len() - start,
{
    if start < 0 || start >= items.len() {
        items.len() as int
    } else if T::of_json(items[start]) is None {
        start
    } else {
        first_mismatch::<T>(items, start + 1)
    }
}

/// The records that a JSON document stands for: it must be an array, and
/// each item must have the record's shape. The error names the first item
/// that does not.
pub open spec fn list_of_json<T: Record>(doc: JsonValue) -> Result<Seq<T::V>, Mismatch> {
    match doc {
        JsonValue::Array(items) => {
            let bad = first_mismatch::<T>(items, 0);
            if bad == items.len() {
                Ok(Seq::new(items.len(), |i: int| T::of_json(items[i])->0))
            } else {
                Err(Mismatch::Record(bad as usize))
            }
        },
        _ => Err(Mismatch::NotAnArray),
    }
}

/// What `first_mismatch` finds: every item before it has the record's shape,
/// and the item at it, if there is one, has not.
pub proof fn lemma_first_mismatch<T: Record>(items: Seq<JsonValue>, start: int)
    requires
        0 <= start <= items.len(),
    ensures
        start <= first_mismatch::<T>(items, start) <= items.len(),
        forall|i: int|
            start <= i < first_mismatch::<T>(items, start) ==> T::of_json(#[trigger] items[i])
                is Some,
        first_mismatch::<T>(items, start) < items.len() ==> T::of_json(
            items[first_mismatch::<T>(items, start)],
        ) is None,
    decreases items.len() - start,
{
    if start < items.len() && T::of_json(items[start]) is Some {
        lemma_first_mismatch::<T>(items, start + 1);
    }
}

/// Writes a list of records as a JSON array.
pub fn records_to_json<T: Record>(items: &Vec<T>) -> (doc: Json)
    ensures
        doc@ == list_json::<T>(views(items@)),
{
    let mut docs: Vec<Json> = Vec::new();
    let mut i: usize = 0;
    while i < items.len()
        invariant
            i <= items.len(),
            docs@.len() == i,
            forall|j: int| 0 <= j < i ==> (#[trigger] docs@[j])@ == T::json_of(items@[j]@),
        decreases items.len() - i,
    {
        docs.push(items[i].to_json());
        i = i + 1;
    }
    proof {
        lemma_array_view(docs);
        assert(item_values(docs@) =~= Seq::new(
            views(items@).len(),
            |i: int| T::json_of(views(items@)[i]),
        ));
    }
    Json::Array(docs)
}

/// Reads a list of records from a JSON document.
pub fn records_from_json<T: Record>(doc: &Json) -> (records: Result<Vec<T>, Mismatch>)
    ensures
        match records {
            Ok(items) => list_of_json::<T>(doc@) == Ok::<Seq<T::V>, Mismatch>(views(items@)),
            Err(mismatch) => list_of_json::<T>(doc@) == Err::<Seq<T::V>, Mismatch>(mismatch),
        },
{
    match doc {
        Json::Array(docs) => {
            let ghost values = item_values(docs@);
            proof {
                lemma_array_view(*docs);
            }
            let mut items: Vec<T> = Vec::new();
            let mut i: usize = 0;
            while i < docs.len()
                invariant
                    i <= docs.len(),
                    values == item_values(docs@),
                    doc@ == JsonValue::Array(values),
                    items@.len() == i,
                    first_mismatch::<T>(values, 0) == first_mismatch::<T>(values, i as int),
                    forall|j: int|
                        0 <= j < i ==> T::of_json(values[j]) == Some((#[trigger] items@[j])@),
                decreases docs.len() - i,
            {
                match T::from_json(&docs[i]) {
                    Some(item) => {
                        items.push(item);
                    },
                    None => {
                        return Err(Mismatch::Record(i));
                    },
                }
                i = i + 1;
            }
            proof {
                assert(views(items@) =~= Seq::new(values.len(), |i: int| T::of_json(values[i])->0));
            }
            Ok(items)
        },
        _ => Err(Mismatch::NotAnArray),
    }
}

/// Reading the array written for a list of records gives the list back.
pub proof fn lemma_list_read_written<T: Record>(models: Seq<T::V>)
    ensures
        list_of_json::<T>(list_json::<T>(models)) == Ok::<Seq<T::V>, Mismatch>(models),
{
    let items = Seq::new(models.len(), |i: int| T::json_of(models[i]));
    assert forall|i: int| 0 <= i < items.len() implies T::of_json(#[trigger] items[i]) == Some(
        models[i],
    ) by {
        T::lemma_read_written(models[i]);
    }
    lemma_first_mismatch::<T>(items, 0);
    assert(Seq::new(items.len(), |i: int| T::of_json(items[i])->0) =~= models);
}

/// What is said of a document that parses but is no collection of records.
pub open spec fn mismatch_text(mismatch: Mismatch) -> Seq<char> {
    match mismatch {
        Mismatch::NotAnArray => "expected an array of records"@,
        Mismatch::Record(index) => "record "@ + decimal(index as nat)
            + " does not have the expected shape"@,
    }
}

/// What is said of a document that parses but is no collection of records.
pub fn describe_mismatch(mismatch: Mismatch) -> (text: String)
    ensures
        text@ == mismatch_text(mismatch),
{
    match mismatch {
        Mismatch::NotAnArray => String::from_str("expected an array of records"),
        Mismatch::Record(index) => String::from_str("record ").concat(
            decimal_text(index as u64).as_str(),
        ).concat(" does not have the expected shape"),
    }
}

/// The records that a parsed document gives, or the error for the file.
pub open spec fn decoded_document<T: Record>(
    file: Seq<char>,
    parsed: Result<JsonValue, Seq<char>>,
) -> Result<Seq<T::V>, StoreErrorView> {
    match parsed {
        Err(diagnostic) => Err(StoreErrorView::MalformedDocument { file, diagnostic }),
        Ok(doc) => match list_of_json::<T>(doc) {
            Ok(models) => Ok(models),
            Err(mismatch) => Err(
                StoreErrorView::MalformedDocument { file, diagnostic: mismatch_text(mismatch) },
            ),
        },
    }
}

/// The records that a file's text stands for: none if the text is blank;
/// otherwise what the parsed document gives.
pub open spec fn decoded<T: Record>(file: Seq<char>, text: Seq<char>) -> Result<
    Seq<T::V>,
    StoreErrorView,
> {
    if blank(text) {
        Ok(Seq::empty())
    } else {
        decoded_document::<T>(file, parsed_text(text))
    }
}

/// The text written for a list of records: indented below
/// [`COMPACT_FROM`] records, compact from there on.
pub open spec fn encoded<T: Record>(models: Seq<T::V>) -> Seq<char> {
    if models.len() < COMPACT_FROM {
        pretty_text(list_json::<T>(models))
    } else {
        compact_text(list_json::<T>(models))
    }
}

/// Turns the outcome of parsing a file's text into records, or into the
/// error for the file.
pub fn decode_document<T: Record>(file: &str, parsed: Result<Json, String>) -> (records: Result<
    Vec<T>,
    StoreError,
>)
    ensures
        records_view(records) == decoded_document::<T>(file@, parsed_view(parsed)),
{
    match parsed {
        Err(diagnostic) => Err(
            StoreError::MalformedDocument { file: String::from_str(file), diagnostic },
        ),
        Ok(doc) => match records_from_json::<T>(&doc) {
            Ok(items) => Ok(items),
            Err(mismatch) => Err(
                StoreError::MalformedDocument {
                    file: String::from_str(file),
                    diagnostic: describe_mismatch(mismatch),
                },
            ),
        },
    }
}

/// The value of a parsing outcome.
pub open spec fn parsed_view(parsed: Result<Json, String>) -> Result<JsonValue, Seq<char>> {
    match parsed {
        Ok(doc) => Ok(doc@),
        Err(message) => Err(message@),
    }
}

/// Decodes the text of a collection's file. A blank text is an empty
/// collection; any other text must be a JSON array of records.
pub fn decode<T: Record>(file: &str, text: &str) -> (records: Result<Vec<T>, StoreError>)
    ensures
        records_view(records) == decoded::<T>(file@, text@),
{
    if is_blank(text) {
        let items: Vec<T> = Vec::new();
        assert(views(items@) =~= Seq::<T::V>::empty());
        Ok(items)
    } else {
        decode_document::<T>(file, parse_text(text))
    }
}

/// Encodes a collection as the text of its file.
pub fn encode<T: Record>(items: &Vec<T>) -> (text: String)
    ensures
        text@ == encoded::<T>(views(items@)),
{
    let doc = records_to_json::<T>(items);
    if items.len() < COMPACT_FROM {
        render_pretty(&doc)
    } else {
        render_compact(&doc)
    }
}

/// Decoding gives back what was written, whatever the layout of the text:
/// if the JSON reader gets from a text that is not blank the array written
/// for `models`, the text decodes to `models`.
pub proof fn lemma_decode_written<T: Record>(file: Seq<char>, text: Seq<char>, models: Seq<T::V>)
    ensures
        !blank(text) && parsed_text(text) == Ok::<JsonValue, Seq<char>>(list_json::<T>(models))
            ==> decoded::<T>(file, text) == Ok::<Seq<T::V>, StoreErrorView>(models),
{
    lemma_list_read_written::<T>(models);
}

/// Decoding an encoded collection gives the collection back, in either
/// layout, if the JSON reader gets from the written text the array that was
/// written.
pub proof fn lemma_decode_encoded<T: Record>(file: Seq<char>, models: Seq<T::V>)
    ensures
        !blank(encoded::<T>(models)) && parsed_text(encoded::<T>(models)) == Ok::<
            JsonValue,
            Seq<char>,
        >(list_json::<T>(models)) ==> decoded::<T>(file, encoded::<T>(models)) == Ok::<
            Seq<T::V>,
            StoreErrorView,
        >(models),
{
    lemma_decode_written::<T>(file, encoded::<T>(models), models);
}

} // verus!
