use apcore_mcp_server::json::Json;
use apcore_mcp_server::merge::{deep_merge, DEEP_MERGE_MAX_DEPTH};
use apcore_mcp_server::value::{from_text, to_value};
use serde_json::Value;

fn json(text: &str) -> Json {
    from_text(text).unwrap()
}

fn value(text: &str) -> Value {
    to_value(&json(text))
}

fn merge(base: &str, overlay: &str, depth: usize) -> Value {
    to_value(&deep_merge(&json(base), &json(overlay), depth))
}

#[test]
fn test_deep_merge_flat_objects() {
    let result = merge(r#"{"a": 1, "b": 2}"#, r#"{"b": 3, "c": 4}"#, 0);
    assert_eq!(result, value(r#"{"a": 1, "b": 3, "c": 4}"#));
}

#[test]
fn test_deep_merge_nested_objects() {
    let result = merge(r#"{"a": {"x": 1, "y": 2}}"#, r#"{"a": {"y": 3, "z": 4}}"#, 0);
    assert_eq!(result, value(r#"{"a": {"x": 1, "y": 3, "z": 4}}"#));
}

#[test]
fn test_deep_merge_overlay_overwrites_non_object() {
    let result = merge(r#"{"a": "string"}"#, r#"{"a": {"nested": true}}"#, 0);
    assert_eq!(result, value(r#"{"a": {"nested": true}}"#));
}

#[test]
fn test_deep_merge_base_dict_overlay_scalar() {
    let result = merge(r#"{"a": {"nested": true}}"#, r#"{"a": "scalar"}"#, 0);
    assert_eq!(result, value(r#"{"a": "scalar"}"#));
}

#[test]
fn test_deep_merge_empty_base() {
    assert_eq!(merge("{}", r#"{"a": 1}"#, 0), value(r#"{"a": 1}"#));
}

#[test]
fn test_deep_merge_empty_overlay() {
    assert_eq!(merge(r#"{"a": 1}"#, "{}", 0), value(r#"{"a": 1}"#));
}

#[test]
fn test_deep_merge_both_empty() {
    assert_eq!(merge("{}", "{}", 0), value("{}"));
}

#[test]
fn test_deep_merge_depth_cap() {
    let result = merge(
        r#"{"a": {"inner": "base"}}"#,
        r#"{"a": {"inner": "overlay", "extra": true}}"#,
        DEEP_MERGE_MAX_DEPTH,
    );
    assert_eq!(result["a"]["inner"], "overlay");
    assert_eq!(result["a"]["extra"], true);
}

#[test]
fn test_deep_merge_depth_31_still_recurses() {
    let result = merge(r#"{"a": {"x": 1, "y": 2}}"#, r#"{"a": {"y": 3}}"#, 31);
    assert_eq!(result, value(r#"{"a": {"x": 1, "y": 3}}"#));
}

#[test]
fn test_deep_merge_non_object_inputs() {
    assert_eq!(merge(r#""string""#, "42", 0), value("42"));
    assert_eq!(merge("[1, 2]", "[3, 4]", 0), value("[3, 4]"));
}

#[test]
fn test_deep_merge_three_levels_deep() {
    let result = merge(
        r#"{"a": {"b": {"c": 1, "d": 2}}}"#,
        r#"{"a": {"b": {"d": 3, "e": 4}}}"#,
        0,
    );
    assert_eq!(result, value(r#"{"a": {"b": {"c": 1, "d": 3, "e": 4}}}"#));
}

#[test]
fn test_deep_merge_array_not_merged() {
    let result = merge(r#"{"items": [1, 2, 3]}"#, r#"{"items": [4, 5]}"#, 0);
    assert_eq!(result, value(r#"{"items": [4, 5]}"#));
}

#[test]
fn at_the_depth_cap_members_are_replaced_whole() {
    let result = merge(r#"{"a": {"x": 1}, "b": 2}"#, r#"{"a": {"y": 3}}"#, DEEP_MERGE_MAX_DEPTH);
    assert_eq!(result, value(r#"{"a": {"y": 3}, "b": 2}"#));
}

#[test]
fn merging_once_more_changes_nothing() {
    let base = json(r#"{"a": {"x": 1, "y": [1]}, "b": 2}"#);
    let overlay = json(r#"{"a": {"y": [2], "z": null}, "c": {"d": 3}}"#);
    let once = deep_merge(&base, &overlay, 0);
    assert_eq!(to_value(&deep_merge(&once, &overlay, 0)), to_value(&once));
    assert_eq!(to_value(&deep_merge(&base, &base, 0)), to_value(&base));
    assert_eq!(to_value(&deep_merge(&once, &once, 40)), to_value(&once));
}
