//! Redacting results and writing them as text.

use crate::json::{self, Entries, Json, JsonView};
use crate::text;
use crate::value;
use vstd::prelude::*;

verus! {

/// The formats that results can be written in.
#[derive(Debug, Clone, Copy, PartialEq, Eq, Structural)]
pub enum OutputFormat {
    /// Compact JSON.
    Json,
    /// Comma-separated values.
    Csv,
    /// One JSON document a line.
    Jsonl,
}

impl Default for OutputFormat {
    fn default() -> (format: OutputFormat)
        ensures
            format == OutputFormat::Json,
    {
        OutputFormat::Json
    }
}

/// The format that `name` means, whatever the case of its letters.
pub open spec fn named_format(name: Seq<char>) -> Option<OutputFormat> {
    if text::lower(name) == "json"@ {
        Some(OutputFormat::Json)
    } else if text::lower(name) == "csv"@ {
        Some(OutputFormat::Csv)
    } else if text::lower(name) == "jsonl"@ {
        Some(OutputFormat::Jsonl)
    } else {
        None
    }
}

impl OutputFormat {
    /// The format that `name` means; otherwise a message that quotes the name.
    pub fn parse(name: &str) -> (r: Result<OutputFormat, String>)
        ensures
            match r {
                Ok(format) => named_format(name@) == Some(format),
                Err(message) => named_format(name@) is None && message@
                    == "Unknown output format: "@ + name@,
            },
    {
        let lower = text::lowercase(name);
        if text::same(lower.as_str(), "json") {
            Ok(OutputFormat::Json)
        } else if text::same(lower.as_str(), "csv") {
            Ok(OutputFormat::Csv)
        } else if text::same(lower.as_str(), "jsonl") {
            Ok(OutputFormat::Jsonl)
        } else {
            Err("Unknown output format: ".to_string().concat(name))
        }
    }
}

impl std::str::FromStr for OutputFormat {
    type Err = String;

    fn from_str(s: &str) -> (r: Result<OutputFormat, String>)
        ensures
            match r {
                Ok(format) => named_format(s@) == Some(format),
                Err(message) => named_format(s@) is None && message@ == "Unknown output format: "@
                    + s@,
            },
    {
        OutputFormat::parse(s)
    }
}

/// What `apcore::redact_sensitive` makes of a document under a schema: the document with the values
/// that the schema marks as sensitive, or whose keys mark them as secret, replaced.
pub uninterp spec fn redacted(data: JsonView, schema: JsonView) -> JsonView;

/// `apcore::redact_sensitive`. What it gives depends on the two documents alone.
#[verifier::external_body]
fn redact_value(data: &serde_json::Value, schema: &serde_json::Value) -> (r: serde_json::Value)
    ensures
        value::value_json(r) == redacted(value::value_json(*data), value::value_json(*schema)),
{
    apcore::redact_sensitive(data, schema)
}

/// Redacts `data` under `schema`.
pub fn redact(data: &Json, schema: &Json) -> (r: Json)
    ensures
        r@ == redacted(data@, schema@),
{
    value::from_value(redact_value(&value::to_value(data), &value::to_value(schema)))
}

/// `data` redacted under the schema that there is; as it is where there is none.
pub open spec fn redacted_under(data: JsonView, schema: Option<JsonView>) -> JsonView {
    match schema {
        Some(s) => redacted(data, s),
        None => data,
    }
}

/// The rows of `apcore-toolkit`'s tables.
pub open spec fn rows_json(rows: Seq<Vec<(String, serde_json::Value)>>) -> Seq<Entries> {
    rows.map_values(|row: Vec<(String, serde_json::Value)>| value::entries_json(row@))
}

/// No row has a key twice.
pub open spec fn rows_unique(rows: Seq<Entries>) -> bool {
    forall|i: int| 0 <= i < rows.len() ==> json::unique_keys(#[trigger] rows[i])
}

/// What `apcore_toolkit::format_csv` writes of rows, with a byte order mark or without.
pub uninterp spec fn csv_text(rows: Seq<Entries>, bom: bool) -> Seq<char>;

/// What `apcore_toolkit::format_jsonl` writes of rows.
pub uninterp spec fn jsonl_text(rows: Seq<Entries>) -> Seq<char>;

/// `apcore_toolkit::format_csv`. The text depends on the rows and the mark alone.
#[verifier::external_body]
fn write_csv(rows: Vec<Vec<(String, serde_json::Value)>>, bom: bool) -> (text: String)
    requires
        rows_unique(rows_json(rows@)),
    ensures
        text@ == csv_text(rows_json(rows@), bom),
{
    let maps: Vec<serde_json::Map<String, serde_json::Value>> = rows.into_iter().map(
        |row| row.into_iter().collect(),
    ).collect();
    apcore_toolkit::format_csv(&maps, bom)
}

/// `apcore_toolkit::format_jsonl`. The text depends on the rows alone.
#[verifier::external_body]
fn write_jsonl(rows: Vec<Vec<(String, serde_json::Value)>>) -> (text: String)
    requires
        rows_unique(rows_json(rows@)),
    ensures
        text@ == jsonl_text(rows_json(rows@)),
{
    let maps: Vec<serde_json::Map<String, serde_json::Value>> = rows.into_iter().map(
        |row| row.into_iter().collect(),
    ).collect();
    apcore_toolkit::format_jsonl(&maps)
}

/// The objects among `items`, in their order.
pub open spec fn object_rows(items: Seq<JsonView>) -> Seq<Entries>
    decreases items.len(),
{
    if items.len() == 0 {
        Seq::empty()
    } else {
        match items.last() {
            JsonView::Object(entries) => object_rows(items.drop_last()).push(entries),
            _ => object_rows(items.drop_last()),
        }
    }
}

/// The rows of a document as a table: an object is one row, an array has its objects as rows, and
/// anything else has none.
pub open spec fn table_rows(document: JsonView) -> Seq<Entries> {
    match document {
        JsonView::Array(items) => object_rows(items),
        JsonView::Object(entries) => seq![entries],
        _ => Seq::empty(),
    }
}

/// The rows of `document` as a table.
fn to_rows(document: &Json) -> (rows: Vec<Vec<(String, serde_json::Value)>>)
    ensures
        rows_json(rows@) == table_rows(document@),
        rows_unique(rows_json(rows@)),
{
    let mut rows: Vec<Vec<(String, serde_json::Value)>> = Vec::new();
    match document {
        Json::Array(items) => {
            let ghost views = document@->Array_0;
            let mut i: usize = 0;
            assert(rows_json(rows@) =~= object_rows(views.take(0)));
            while i < items.len()
                invariant
                    i <= items.len(),
                    document@ == JsonView::Array(views),
                    views.len() == items.len(),
                    *document == Json::Array(*items),
                    rows_json(rows@) == object_rows(views.take(i as int)),
                    rows_unique(rows_json(rows@)),
                decreases items.len() - i,
            {
                let ghost before = rows_json(rows@);
                assert(views.take(i + 1).drop_last() =~= views.take(i as int));
                assert(views[i as int] == items@[i as int]@);
                if let Json::Object(object) = &items[i] {
                    let entries = value::to_entries(object);
                    let ghost row = value::entries_json(entries@);
                    rows.push(entries);
                    assert(rows_json(rows@) =~= before.push(row));
                }
                i = i + 1;
            }
            assert(views.take(views.len() as int) =~= views);
        },
        Json::Object(object) => {
            rows.push(value::to_entries(object));
            assert(rows_json(rows@) =~= table_rows(document@));
        },
        _ => {
            assert(rows_json(rows@) =~= table_rows(document@));
        },
    }
    rows
}

/// The text of `document` in a built-in format. A document that is no table is written as JSON.
pub open spec fn builtin_text(format: OutputFormat, document: JsonView) -> Option<Seq<char>> {
    let rows = table_rows(document);
    if rows.len() == 0 {
        value::json_text(document)
    } else {
        match format {
            OutputFormat::Csv => Some(csv_text(rows, false)),
            OutputFormat::Jsonl => Some(jsonl_text(rows)),
            OutputFormat::Json => value::json_text(document),
        }
    }
}

/// Writes `document` in a built-in format.
pub fn write_builtin(format: OutputFormat, document: &Json) -> (text: Option<String>)
    ensures
        text::opt_view(text) == builtin_text(format, document@),
{
    let rows = to_rows(document);
    assert(rows@.len() == rows_json(rows@).len());
    if rows.len() == 0 {
        return value::to_text(document);
    }
    match format {
        OutputFormat::Csv => Some(write_csv(rows, false)),
        OutputFormat::Jsonl => Some(write_jsonl(rows)),
        OutputFormat::Json => value::to_text(document),
    }
}

pub(crate) proof fn lemma_rows_are_the_objects(items: Seq<JsonView>)
    ensures
        object_rows(items) == items.filter(|item: JsonView| item is Object).map_values(
            |item: JsonView| item->Object_0,
        ),
    decreases items.len(),
{
    reveal(Seq::filter);
    let objects = items.filter(|item: JsonView| item is Object);
    if items.len() > 0 {
        let rest = items.drop_last();
        let before = rest.filter(|item: JsonView| item is Object);
        lemma_rows_are_the_objects(rest);
        if items.last() is Object {
            assert(objects == before.push(items.last()));
            assert(objects.map_values(|item: JsonView| item->Object_0) =~= before.map_values(
                |item: JsonView| item->Object_0,
            ).push(items.last()->Object_0));
        } else {
            assert(objects == before);
        }
    }
    assert(object_rows(items) =~= objects.map_values(|item: JsonView| item->Object_0));
}

/// As CSV or JSONL an object is one row, and an array has its objects as rows, in their order; what
/// is neither an object nor an array with an object in it is written as JSON.
pub proof fn law_tables_are_written_row_by_row(
    document: &Json,
    csv: Option<String>,
    jsonl: Option<String>,
    plain: Option<String>,
    json: Option<String>,
)
    requires
        call_ensures(write_builtin, (OutputFormat::Csv, document), csv),
        call_ensures(write_builtin, (OutputFormat::Jsonl, document), jsonl),
        call_ensures(write_builtin, (OutputFormat::Json, document), plain),
        call_ensures(value::to_text, (document,), json),
    ensures
        text::opt_view(plain) == text::opt_view(json),
        document@ matches JsonView::Object(row) ==> text::opt_view(csv) == Some(
            csv_text(seq![row], false),
        ) && text::opt_view(jsonl) == Some(jsonl_text(seq![row])),
        document@ matches JsonView::Array(items) ==> ({
            let rows = items.filter(|item: JsonView| item is Object).map_values(
                |item: JsonView| item->Object_0,
            );
            if rows.len() > 0 {
                text::opt_view(csv) == Some(csv_text(rows, false)) && text::opt_view(jsonl) == Some(
                    jsonl_text(rows),
                )
            } else {
                text::opt_view(csv) == text::opt_view(json) && text::opt_view(jsonl)
                    == text::opt_view(json)
            }
        }),
        !(document@ is Object) && !(document@ is Array) ==> text::opt_view(csv) == text::opt_view(
            json,
        ) && text::opt_view(jsonl) == text::opt_view(json),
{
    if let JsonView::Array(items) = document@ {
        lemma_rows_are_the_objects(items);
    }
}

/// The name of a format means that format in any mixture of cases, and nothing else means it; what
/// means no format is quoted.
pub proof fn law_format_names(name: &str, parsed: Result<OutputFormat, String>)
    requires
        call_ensures(OutputFormat::parse, (name,), parsed),
    ensures
        parsed matches Ok(format) && format == OutputFormat::Json <==> text::lower(name@) == "json"@,
        parsed matches Ok(format) && format == OutputFormat::Csv <==> text::lower(name@) == "csv"@,
        parsed matches Ok(format) && format == OutputFormat::Jsonl <==> text::lower(name@)
            == "jsonl"@,
        parsed matches Err(message) ==> message@ == "Unknown output format: "@ + name@,
{
    reveal_strlit("json");
    reveal_strlit("csv");
    reveal_strlit("jsonl");
    assert("json"@.len() == 4);
    assert("csv"@.len() == 3);
    assert("jsonl"@.len() == 5);
}

/// Where no format is asked for, results are written as JSON.
pub proof fn law_json_is_the_default(format: OutputFormat)
    requires
        call_ensures(<OutputFormat as Default>::default, (), format),
    ensures
        format == OutputFormat::Json,
{
}

/// Data is redacted under the schema that is given, as apcore redacts it.
pub proof fn law_data_is_redacted(data: &Json, schema: &Json, shown: Json)
    requires
        call_ensures(redact, (data, schema), shown),
    ensures
        shown@ == redacted(data@, schema@),
{
}

} // verus!
