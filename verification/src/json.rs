//! JSON documents as the control channel reads and writes them. Parsing
//! and string escaping are the work of `serde_json`; this module states
//! what the dispatcher relies on and reads fields out of a parsed document.

use vstd::prelude::*;

verus! {

#[verifier::external_type_specification]
#[verifier::external_body]
pub struct ExValue(serde_json::Value);

/// What a JSON value holds. Numbers are told apart only as far as the
/// protocol needs: the non-negative integers that fit 64 bits, and the
/// rest.
pub enum Json {
    Null,
    Bool(bool),
    Uint(u64),
    OtherNumber,
    Text(Seq<char>),
    Array(Seq<Json>),
    Object(Map<Seq<char>, Json>),
}

/// What a parsed `serde_json::Value` holds.
pub uninterp spec fn json_model(value: serde_json::Value) -> Json;

/// What `serde_json::from_str` makes of a text: the document, or nothing
/// if the text is not one JSON value.
pub uninterp spec fn parsed_document(text: Seq<char>) -> Option<Json>;

/// The JSON string literal that `serde_json::to_string` writes for a text:
/// the text in double quotes, with its special characters escaped.
pub uninterp spec fn json_quoted(text: Seq<char>) -> Seq<char>;

/// Calls `serde_json::from_str` for a `serde_json::Value`. The parser's
/// verdict and result depend on the text alone; an error becomes `None`.
#[verifier::external_body]
pub(crate) fn parse_document(text: &str) -> (document: Option<serde_json::Value>)
    ensures
        match document {
            Some(value) => parsed_document(text@) == Some(json_model(value)),
            None => parsed_document(text@) is None,
        },
{
    serde_json::from_str::<serde_json::Value>(text).ok()
}

/// Calls `serde_json::Value::get` with a string key: the member of that
/// name if the value is an object that has one, else nothing.
#[verifier::external_body]
pub(crate) fn member<'a>(value: &'a serde_json::Value, key: &str) -> (found: Option<
    &'a serde_json::Value,
>)
    ensures
        match found {
            Some(inner) => {
                &&& json_model(*value) is Object
                &&& json_model(*value)->Object_0.contains_key(key@)
                &&& json_model(*inner) == json_model(*value)->Object_0[key@]
            },
            None => !(json_model(*value) is Object && json_model(*value)->Object_0.contains_key(
                key@,
            )),
        },
{
    value.get(key)
}

/// Calls `serde_json::Value::as_str` and copies the text: present exactly
/// for a JSON string.
#[verifier::external_body]
pub(crate) fn as_text(value: &serde_json::Value) -> (text: Option<String>)
    ensures
        match text {
            Some(t) => json_model(*value) == Json::Text(t@),
            None => !(json_model(*value) is Text),
        },
{
    match value.as_str() {
        Some(t) => Some(t.to_string()),
        None => None,
    }
}

/// Calls `serde_json::Value::as_u64`: present exactly for a number that is
/// a non-negative integer of at most 64 bits.
#[verifier::external_body]
pub(crate) fn as_uint(value: &serde_json::Value) -> (number: Option<u64>)
    ensures
        match number {
            Some(n) => json_model(*value) == Json::Uint(n),
            None => !(json_model(*value) is Uint),
        },
{
    value.as_u64()
}

/// Calls `serde_json::Value::as_array`: the items, present exactly for a
/// JSON array.
#[verifier::external_body]
pub(crate) fn as_items<'a>(value: &'a serde_json::Value) -> (items: Option<
    &'a Vec<serde_json::Value>,
>)
    ensures
        match items {
            Some(list) => {
                &&& json_model(*value) is Array
                &&& json_model(*value)->Array_0.len() == list@.len()
                &&& forall|i: int|
                    0 <= i < list@.len() ==> json_model(#[trigger] list@[i]) == json_model(
                        *value,
                    )->Array_0[i]
            },
            None => !(json_model(*value) is Array),
        },
{
    value.as_array()
}

/// Calls `serde_json::to_string` on a text, which writes it as a JSON
/// string literal; writing to memory, the call has no error to report.
#[verifier::external_body]
pub(crate) fn quote(text: &str) -> (literal: String)
    ensures
        literal@ == json_quoted(text@),
{
    match serde_json::to_string(text) {
        Ok(literal) => literal,
        Err(_) => String::new(),
    }
}

/// The text member `key` of an object.
pub open spec fn text_field(document: Json, key: Seq<char>) -> Option<Seq<char>> {
    match document {
        Json::Object(members) => if members.contains_key(key) {
            match members[key] {
                Json::Text(text) => Some(text),
                _ => None,
            }
        } else {
            None
        },
        _ => None,
    }
}

/// The member `key` of an object, if it is a non-negative integer.
pub open spec fn uint_field(document: Json, key: Seq<char>) -> Option<u64> {
    match document {
        Json::Object(members) => if members.contains_key(key) {
            match members[key] {
                Json::Uint(n) => Some(n),
                _ => None,
            }
        } else {
            None
        },
        _ => None,
    }
}

/// The texts of a list of JSON strings; nothing if an item is no string.
pub open spec fn texts_of(items: Seq<Json>) -> Option<Seq<Seq<char>>> {
    if forall|i: int| 0 <= i < items.len() ==> (#[trigger] items[i]) is Text {
        Some(items.map_values(|item: Json| item->Text_0))
    } else {
        None
    }
}

/// The texts of one row of a table: a JSON array of strings.
pub open spec fn row_of(item: Json) -> Option<Seq<Seq<char>>> {
    match item {
        Json::Array(cells) => texts_of(cells),
        _ => None,
    }
}

/// The rows of a table: a JSON array of arrays of strings.
pub open spec fn table_of(items: Seq<Json>) -> Option<Seq<Seq<Seq<char>>>> {
    if forall|i: int| 0 <= i < items.len() ==> row_of(#[trigger] items[i]) is Some {
        Some(items.map_values(|item: Json| row_of(item).unwrap()))
    } else {
        None
    }
}

/// The member `key` of an object, if it is a table of texts.
pub open spec fn table_field(document: Json, key: Seq<char>) -> Option<Seq<Seq<Seq<char>>>> {
    match document {
        Json::Object(members) => if members.contains_key(key) {
            match members[key] {
                Json::Array(items) => table_of(items),
                _ => None,
            }
        } else {
            None
        },
        _ => None,
    }
}

/// Reads the text member `key` of a document.
pub fn read_text(document: &serde_json::Value, key: &str) -> (text: Option<String>)
    ensures
        match text {
            Some(t) => text_field(json_model(*document), key@) == Some(t@),
            None => text_field(json_model(*document), key@) is None,
        },
{
    match member(document, key) {
        Some(inner) => as_text(inner),
        None => None,
    }
}

/// Reads the non-negative integer member `key` of a document.
pub fn read_uint(document: &serde_json::Value, key: &str) -> (number: Option<u64>)
    ensures
        number == uint_field(json_model(*document), key@),
{
    match member(document, key) {
        Some(inner) => as_uint(inner),
        None => None,
    }
}

/// Reads a JSON array of strings.
fn read_row(value: &serde_json::Value) -> (row: Option<Vec<String>>)
    ensures
        match row {
            Some(cells) => row_of(json_model(*value)) == Some(crate::text::texts(cells@)),
            None => row_of(json_model(*value)) is None,
        },
{
    match as_items(value) {
        None => None,
        Some(items) => {
            let ghost model = json_model(*value)->Array_0;
            let mut cells: Vec<String> = Vec::new();
            let mut i: usize = 0;
            while i < items.len()
                invariant
                    i <= items.len(),
                    items@.len() == model.len(),
                    forall|k: int| 0 <= k < items@.len() ==> json_model(#[trigger] items@[k]) == model[k],
                    json_model(*value) == Json::Array(model),
                    cells@.len() == i,
                    forall|k: int| 0 <= k < i ==> (#[trigger] model[k]) == Json::Text(cells@[k]@),
                decreases items.len() - i,
            {
                match as_text(&items[i]) {
                    Some(cell) => {
                        cells.push(cell);
                    },
                    None => {
                        assert(!(model[i as int] is Text));
                        return None;
                    },
                }
                i += 1;
            }
            proof {
                let found = model.map_values(|item: Json| item->Text_0);
                assert forall|k: int| 0 <= k < found.len() implies found[k] == crate::text::texts(
                    cells@,
                )[k] by {
                    assert(model[k] == Json::Text(cells@[k]@));
                }
                assert(found =~= crate::text::texts(cells@));
            }
            Some(cells)
        },
    }
}

/// Reads the member `key` of a document as a table of texts.
pub fn read_table(document: &serde_json::Value, key: &str) -> (table: Option<Vec<Vec<String>>>)
    ensures
        match table {
            Some(t) => table_field(json_model(*document), key@) == Some(crate::text::rows(t@)),
            None => table_field(json_model(*document), key@) is None,
        },
{
    let inner = match member(document, key) {
        Some(inner) => inner,
        None => {
            return None;
        },
    };
    match as_items(inner) {
        None => None,
        Some(items) => {
            let ghost model = json_model(*inner)->Array_0;
            let mut table: Vec<Vec<String>> = Vec::new();
            let mut i: usize = 0;
            while i < items.len()
                invariant
                    i <= items.len(),
                    items@.len() == model.len(),
                    forall|k: int| 0 <= k < items@.len() ==> json_model(#[trigger] items@[k]) == model[k],
                    json_model(*inner) == Json::Array(model),
                    json_model(*document) is Object,
                    json_model(*document)->Object_0.contains_key(key@),
                    json_model(*document)->Object_0[key@] == json_model(*inner),
                    table@.len() == i,
                    forall|k: int|
                        0 <= k < i ==> row_of(#[trigger] model[k]) == Some(
                            crate::text::texts(table@[k]@),
                        ),
                decreases items.len() - i,
            {
                match read_row(&items[i]) {
                    Some(row) => {
                        table.push(row);
                    },
                    None => {
                        assert(row_of(model[i as int]) is None);
                        return None;
                    },
                }
                i += 1;
            }
            proof {
                let found = model.map_values(|item: Json| row_of(item).unwrap());
                assert forall|k: int| 0 <= k < found.len() implies found[k] == crate::text::rows(
                    table@,
                )[k] by {
                    assert(row_of(model[k]) == Some(crate::text::texts(table@[k]@)));
                }
                assert(found =~= crate::text::rows(table@));
            }
            Some(table)
        },
    }
}

} // verus!
