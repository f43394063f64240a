use apcore_mcp_server::json::Json;
use apcore_mcp_server::output::{redact, write_builtin, OutputFormat};
use apcore_mcp_server::value::{from_text, to_value};

fn json(text: &str) -> Json {
    from_text(text).unwrap()
}

#[test]
fn upstream_redaction_key_name_behaviour_is_measured_not_assumed() {
    let empty = json("{}");
    let by_name = to_value(&redact(&json(r#"{"token": "v"}"#), &empty));
    let by_prefix = to_value(&redact(&json(r#"{"_secret_x": "v"}"#), &empty));
    let untouched = to_value(&redact(&json(r#"{"harmless": "v"}"#), &empty));

    assert_eq!(by_prefix["_secret_x"], apcore::REDACTED_VALUE);
    assert_eq!(untouched["harmless"], "v");
    assert_eq!(by_name["token"], "v");
}

#[test]
fn formats_are_named_in_any_case() {
    assert_eq!("json".parse::<OutputFormat>(), Ok(OutputFormat::Json));
    assert_eq!("CSV".parse::<OutputFormat>(), Ok(OutputFormat::Csv));
    assert_eq!("Jsonl".parse::<OutputFormat>(), Ok(OutputFormat::Jsonl));
    assert!("xml".parse::<OutputFormat>().is_err());
    assert_eq!(OutputFormat::default(), OutputFormat::Json);
}

#[test]
fn one_row_is_a_table_too() {
    let row = json(r#"{"a": 1, "b": "x,y"}"#);
    let csv = write_builtin(OutputFormat::Csv, &row).unwrap();
    let lines: Vec<&str> = csv.lines().collect();
    assert_eq!(lines, vec!["a,b", "1,\"x,y\""]);
    let jsonl = write_builtin(OutputFormat::Jsonl, &row).unwrap();
    assert_eq!(to_value(&json(jsonl.trim())), to_value(&row));
}
