use apcore_mcp_server::ids::{fresh_span_id, is_hex};
use apcore_mcp_server::json::{member, text_of, Json, JsonObject};
use apcore_mcp_server::text::{decimal, integer, join, lowercase, starts_with, strip_prefix};
use apcore_mcp_server::value::{from_text, from_value, show, to_text, to_value};
use serde_json::Value;

#[test]
fn objects_keep_one_value_for_a_key() {
    let mut object = JsonObject::new();
    assert!(object.is_empty());
    object.insert("a", Json::integer(1));
    object.insert("b", Json::integer(2));
    object.insert("a", Json::integer(3));
    assert_eq!(object.len(), 2);
    assert_eq!(object.get("a").unwrap().as_i64(), Some(3));
    assert_eq!(object.key(1), "b");
    assert_eq!(object.value(1).as_i64(), Some(2));
    assert!(object.get("c").is_none());
}

#[test]
fn documents_are_looked_into() {
    let json = from_text(r#"{"a": {"b": "x"}, "n": -4, "u": 18446744073709551615, "t": true}"#);
    let json = json.unwrap();
    assert_eq!(text_of(member(json.get("a"), "b")), Some("x"));
    assert_eq!(json.get("n").unwrap().as_i64(), Some(-4));
    assert_eq!(json.get("n").unwrap().as_u64(), None);
    assert_eq!(json.get("u").unwrap().as_u64(), Some(u64::MAX));
    assert_eq!(json.get("u").unwrap().as_i64(), None);
    assert_eq!(json.get("t").unwrap().as_bool(), Some(true));
    assert!(json.get("t").unwrap().get("x").is_none());
    assert!(member(None, "x").is_none());
}

#[test]
fn values_go_there_and_back() {
    let texts = [
        "null",
        "true",
        "-3",
        "18446744073709551615",
        "2.5",
        "\"x\\ny\"",
        "[1,[2],{}]",
        r#"{"a":{"b":[null,"c"]},"d":1e300}"#,
    ];
    for text in texts {
        let json = from_text(text).unwrap();
        let value = to_value(&json);
        assert_eq!(to_value(&from_value(value.clone())), value);
        let written = to_text(&json).unwrap();
        assert_eq!(to_value(&from_text(&written).unwrap()), value);
    }
    assert_eq!(to_text(&from_text(r#"{ "a" : [ 1 ] }"#).unwrap()).unwrap(), r#"{"a":[1]}"#);
    assert_eq!(show(&Json::text("x")), "\"x\"");
    assert_eq!(show(&Json::integer(-7)), "-7");
    assert!(from_text("{").is_none());
    assert!(from_text("").is_none());
    assert_eq!(to_value(&Json::unsigned(5)), Value::from(5));
}

#[test]
fn numbers_are_written_out() {
    assert_eq!(decimal(0), "0");
    assert_eq!(decimal(65535), "65535");
    assert_eq!(decimal(u64::MAX), "18446744073709551615");
    assert_eq!(integer(-120), "-120");
    assert_eq!(integer(i64::MIN), "-9223372036854775808");
    assert_eq!(integer(7), "7");
}

#[test]
fn texts_are_taken_apart_and_joined() {
    assert!(starts_with("docs://x", "docs://"));
    assert!(!starts_with("doc", "docs"));
    assert_eq!(strip_prefix("docs://x", "docs://"), Some("x"));
    assert_eq!(strip_prefix("x", "docs://"), None);
    assert_eq!(lowercase("Streamable-HTTP"), "streamable-http");
    let parts = vec!["a".to_string(), "b".to_string(), String::new()];
    assert_eq!(join(&parts, "; "), "a; b; ");
    assert_eq!(join(&vec![], "; "), "");
}

#[test]
fn ids_are_fresh() {
    let span = fresh_span_id();
    assert_eq!(span.len(), 16);
    assert!(span.chars().all(|c| c.is_ascii_hexdigit()));
    assert_ne!(span, fresh_span_id());
    assert!(is_hex(&span));
    assert!(!is_hex("00f067aa0ba902bg"));
}
