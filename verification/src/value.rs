//! Passing documents to `serde_json` and taking them back.

use crate::json::{self, Json, JsonNumber, JsonObject, JsonView};
use crate::text;
use vstd::prelude::*;

verus! {

/// The outside type `serde_json::Value`.
#[verifier::external_type_specification]
#[verifier::external_body]
pub struct ExValue(serde_json::Value);

/// The document that a `serde_json::Value` holds.
pub uninterp spec fn value_json(value: serde_json::Value) -> JsonView;

/// One level of a `serde_json::Value`.
pub(crate) enum ValueParts {
    Null,
    Bool(bool),
    Number(serde_json::Number),
    Text(String),
    Array(Vec<serde_json::Value>),
    Object(Vec<(String, serde_json::Value)>),
}

/// The documents that values hold.
pub open spec fn values_json(values: Seq<serde_json::Value>) -> Seq<JsonView> {
    values.map_values(|value: serde_json::Value| value_json(value))
}

/// The entries that keyed values hold.
pub open spec fn entries_json(entries: Seq<(String, serde_json::Value)>) -> Seq<
    (Seq<char>, JsonView),
> {
    entries.map_values(|entry: (String, serde_json::Value)| (entry.0@, value_json(entry.1)))
}

impl ValueParts {
    /// The document that the parts make up.
    pub(crate) open spec fn json(self) -> JsonView {
        match self {
            ValueParts::Null => JsonView::Null,
            ValueParts::Bool(b) => JsonView::Bool(b),
            ValueParts::Number(n) => JsonView::Number(json::number_view(n)),
            ValueParts::Text(s) => JsonView::String(s@),
            ValueParts::Array(items) => JsonView::Array(values_json(items@)),
            ValueParts::Object(entries) => JsonView::Object(entries_json(entries@)),
        }
    }

    /// No key occurs twice.
    pub(crate) open spec fn keys_once(self) -> bool {
        self matches ValueParts::Object(entries) ==> json::unique_keys(entries_json(entries@))
    }
}

/// The variants of `serde_json::Value`, taken apart: the parts make up the document that the value
/// holds, and an object, being a `serde_json::Map`, has each key once.
#[verifier::external_body]
fn take_apart(value: serde_json::Value) -> (parts: ValueParts)
    ensures
        parts.json() == value_json(value),
        parts.keys_once(),
{
    match value {
        serde_json::Value::Null => ValueParts::Null,
        serde_json::Value::Bool(b) => ValueParts::Bool(b),
        serde_json::Value::Number(n) => ValueParts::Number(n),
        serde_json::Value::String(s) => ValueParts::Text(s),
        serde_json::Value::Array(items) => ValueParts::Array(items),
        serde_json::Value::Object(map) => ValueParts::Object(map.into_iter().collect()),
    }
}

/// The variants of `serde_json::Value`, put together: the value holds the document that the parts
/// make up. A `serde_json::Map` keeps the order of the entries that it is collected from.
#[verifier::external_body]
fn put_together(parts: ValueParts) -> (value: serde_json::Value)
    requires
        parts.keys_once(),
    ensures
        value_json(value) == parts.json(),
{
    match parts {
        ValueParts::Null => serde_json::Value::Null,
        ValueParts::Bool(b) => serde_json::Value::Bool(b),
        ValueParts::Number(n) => serde_json::Value::Number(n),
        ValueParts::Text(s) => serde_json::Value::String(s),
        ValueParts::Array(items) => serde_json::Value::Array(items),
        ValueParts::Object(entries) => serde_json::Value::Object(entries.into_iter().collect()),
    }
}

/// `From<u64>` of `serde_json::Number`: the number is that integer.
#[verifier::external_body]
fn number_from_u64(n: u64) -> (number: serde_json::Number)
    ensures
        json::number_unsigned(number) == Some(n),
{
    serde_json::Number::from(n)
}

/// `From<i64>` of `serde_json::Number`: the number is that integer, which fits `u64` where it is
/// not negative.
#[verifier::external_body]
fn number_from_i64(n: i64) -> (number: serde_json::Number)
    ensures
        json::number_signed(number) == Some(n),
        json::number_unsigned(number) == (if n < 0 {
            None
        } else {
            Some(n as u64)
        }),
{
    serde_json::Number::from(n)
}

/// The number that `serde_json` has for `number`.
fn to_number(number: &JsonNumber) -> (r: serde_json::Number)
    ensures
        json::number_view(r) == number@,
{
    match number {
        JsonNumber::Unsigned(n) => number_from_u64(*n),
        JsonNumber::Signed(n) => number_from_i64(*n),
        JsonNumber::Float(n) => n.clone(),
    }
}

/// The value that `serde_json` has for `json`.
pub fn to_value(json: &Json) -> (value: serde_json::Value)
    ensures
        value_json(value) == json@,
    decreases json,
{
    match json {
        Json::Null => put_together(ValueParts::Null),
        Json::Bool(b) => put_together(ValueParts::Bool(*b)),
        Json::Number(n) => put_together(ValueParts::Number(to_number(n))),
        Json::String(s) => put_together(ValueParts::Text(s.clone())),
        Json::Array(items) => {
            let mut values: Vec<serde_json::Value> = Vec::new();
            let mut i: usize = 0;
            while i < items.len()
                invariant
                    i <= items.len(),
                    values.len() == i,
                    *json == Json::Array(*items),
                    forall|j: int| 0 <= j < i ==> value_json(#[trigger] values@[j]) == items@[j]@,
                decreases items.len() - i,
            {
                assert(decreases_to!(*json => json->Array_0));
                assert(decreases_to!(items@ => items@[i as int]));
                values.push(to_value(&items[i]));
                i = i + 1;
            }
            assert(values_json(values@) =~= json@->Array_0);
            put_together(ValueParts::Array(values))
        },
        Json::Object(object) => {
            let entries = to_entries(object);
            put_together(ValueParts::Object(entries))
        },
    }
}

/// The keyed values that `serde_json` has for the entries of `object`.
pub(crate) fn to_entries(object: &JsonObject) -> (entries: Vec<(String, serde_json::Value)>)
    ensures
        entries_json(entries@) == object@,
        json::unique_keys(object@),
    decreases object,
{
    let mut entries: Vec<(String, serde_json::Value)> = Vec::new();
    let n: usize = object.len();
    let mut i: usize = 0;
    while i < n
        invariant
            i <= n,
            n == object@.len(),
            entries.len() == i,
            forall|j: int|
                0 <= j < i ==> (#[trigger] entries@[j]).0@ == object@[j].0 && value_json(
                    entries@[j].1,
                ) == object@[j].1,
        decreases n - i,
    {
        let value = to_value(object.value(i));
        entries.push((object.key(i).clone(), value));
        i = i + 1;
    }
    assert(entries_json(entries@) =~= object@);
    entries
}

/// The document that `value` holds.
pub fn from_value(value: serde_json::Value) -> (json: Json)
    ensures
        json@ == value_json(value),
    decreases value_json(value),
{
    match take_apart(value) {
        ValueParts::Null => Json::Null,
        ValueParts::Bool(b) => Json::Bool(b),
        ValueParts::Number(n) => Json::Number(from_number(n)),
        ValueParts::Text(s) => Json::String(s),
        ValueParts::Array(values) => {
            let ghost all = values@;
            let mut items: Vec<Json> = Vec::new();
            for element in it: values
                invariant
                    it.seq() == all,
                    value_json(value) == JsonView::Array(values_json(all)),
                    items.len() == it.index(),
                    forall|j: int|
                        0 <= j < items.len() ==> (#[trigger] items@[j])@ == value_json(all[j]),
            {
                proof {
                    let documents = values_json(all);
                    assert(documents[it.index() as int] == value_json(element));
                    assert(decreases_to!(value_json(value) => value_json(value)->Array_0));
                    assert(decreases_to!(documents => documents[it.index() as int]));
                }
                items.push(from_value(element));
            }
            let json = Json::Array(items);
            assert(json@->Array_0 =~= value_json(value)->Array_0);
            json
        },
        ValueParts::Object(entries) => {
            let ghost all = entries@;
            let mut object = JsonObject::new();
            for entry in it: entries
                invariant
                    it.seq() == all,
                    value_json(value) == JsonView::Object(entries_json(all)),
                    json::unique_keys(entries_json(all)),
                    object@ == entries_json(all).take(it.index() as int),
            {
                let ghost i = it.index() as int;
                proof {
                    let documents = entries_json(all);
                    assert(documents[i] == (entry.0@, value_json(entry.1)));
                    assert(decreases_to!(value_json(value) => value_json(value)->Object_0));
                    assert(decreases_to!(documents => documents[i]));
                    assert(decreases_to!(documents[i] => documents[i].1));
                    assert(!json::has_key(object@, entry.0@));
                }
                object.insert(entry.0.as_str(), from_value(entry.1));
                assert(object@ =~= entries_json(all).take(i + 1));
            }
            assert(entries_json(all).take(all.len() as int) =~= entries_json(all));
            Json::Object(object)
        },
    }
}

/// The number that `number` stands for.
fn from_number(number: serde_json::Number) -> (r: JsonNumber)
    ensures
        r@ == json::number_view(number),
{
    match number.as_u64() {
        Some(n) => JsonNumber::Unsigned(n),
        None => match number.as_i64() {
            Some(n) => JsonNumber::Signed(n),
            None => JsonNumber::Float(number),
        },
    }
}

/// What `serde_json::to_string` writes of a document: compact JSON text, or nothing where it
/// reports an error.
pub uninterp spec fn json_text(json: JsonView) -> Option<Seq<char>>;

/// `serde_json::to_string` on a value. The text depends on the document that the value holds. A
/// value is always written, and, control characters being escaped, in one line.
#[verifier::external_body]
fn write_value(value: &serde_json::Value) -> (text: Option<String>)
    ensures
        text::opt_view(text) == json_text(value_json(*value)),
        text is Some,
        text::one_line(text.unwrap()@),
{
    serde_json::to_string(value).ok()
}

/// Writes `json` as compact text, in one line.
pub fn to_text(json: &Json) -> (text: Option<String>)
    ensures
        text::opt_view(text) == json_text(json@),
        text matches Some(line) && text::one_line(line@),
{
    write_value(&to_value(json))
}

/// The compact text of a document; `fallback` where it cannot be written.
pub open spec fn text_or(json: JsonView, fallback: Seq<char>) -> Seq<char> {
    match json_text(json) {
        Some(text) => text,
        None => fallback,
    }
}

/// Writes `json` as compact text, or gives `fallback` where that fails.
pub fn to_text_or(json: &Json, fallback: &str) -> (text: String)
    ensures
        text@ == text_or(json@, fallback@),
{
    match to_text(json) {
        Some(text) => text,
        None => fallback.to_string(),
    }
}

/// The `Display` of `serde_json::Value`: the compact text, which a value always has.
#[verifier::external_body]
fn show_value(value: &serde_json::Value) -> (text: String)
    ensures
        json_text(value_json(*value)) == Some(text@),
{
    value.to_string()
}

/// Shows `json` as compact text.
pub fn show(json: &Json) -> (text: String)
    ensures
        json_text(json@) == Some(text@),
{
    show_value(&to_value(json))
}

/// The document that `serde_json::from_str` reads from a text; nothing where it reports an error.
pub uninterp spec fn parsed(text: Seq<char>) -> Option<JsonView>;

/// The document that a value holds, where there is one.
pub open spec fn opt_value_json(value: Option<serde_json::Value>) -> Option<JsonView> {
    match value {
        Some(v) => Some(value_json(v)),
        None => None,
    }
}

/// `serde_json::from_str` for a `serde_json::Value`. What it reads depends on the text alone.
#[verifier::external_body]
fn read_value(text: &str) -> (value: Option<serde_json::Value>)
    ensures
        opt_value_json(value) == parsed(text@),
{
    serde_json::from_str(text).ok()
}

/// Reads a document from its text.
pub fn from_text(text: &str) -> (json: Option<Json>)
    ensures
        json::opt_view(json) == parsed(text@),
{
    match read_value(text) {
        Some(value) => Some(from_value(value)),
        None => None,
    }
}

/// A document that is passed to `serde_json` comes back as it was, and is shown, and written with
/// any fallback, as it is written.
pub proof fn law_documents_come_back(
    document: &Json,
    value: serde_json::Value,
    back: Json,
    written: Option<String>,
    shown: String,
    fallback: &str,
    kept: String,
)
    requires
        call_ensures(to_value, (document,), value),
        call_ensures(from_value, (value,), back),
        call_ensures(to_text, (document,), written),
        call_ensures(show, (document,), shown),
        call_ensures(to_text_or, (document, fallback), kept),
    ensures
        back@ == document@,
        written matches Some(s) && shown@ == s@ && kept@ == s@,
{
}

/// A document is written as `serde_json` writes it, and a text is read as `serde_json` reads it.
pub proof fn law_documents_are_written_and_read(
    document: &Json,
    written: Option<String>,
    s: &str,
    read: Option<Json>,
    fallback: Seq<char>,
)
    requires
        call_ensures(to_text, (document,), written),
        call_ensures(from_text, (s,), read),
    ensures
        written matches Some(line) && json_text(document@) == Some(line@) && text_or(
            document@,
            fallback,
        ) == line@,
        match read {
            Some(found) => parsed(s@) == Some(found@),
            None => parsed(s@) is None,
        },
{
    if let Some(found) = read {
        assert(json::opt_view(read) == Some(found@));
    }
}

} // verus!
