use apcore_mcp_server::elicit_registry::ElicitRegistry;
use apcore_mcp_server::json::{Json, JsonNumber, JsonObject};
use apcore_mcp_server::output::OutputFormat;
use apcore_mcp_server::router::{
    progress_token_to_value, BuiltContext, CallEvent, CallExtra, CallOutcome, CallStep, ContextKeys,
    ExecutionRouter, ExecutorError, MetaToolError, ProgressToken, StreamEvent, StreamStep,
    ValidationError, ValidationOutcome, ValidationResult,
};
use apcore_mcp_server::session::McpSession;
use apcore_mcp_server::value::{from_text, to_value};
use serde_json::Value;

const TRACE: &str = "4bf92f3577b34da6a3ce929d0e0e4736";

fn json(text: &str) -> Json {
    from_text(text).unwrap()
}

fn object(text: &str) -> JsonObject {
    match json(text) {
        Json::Object(entries) => entries,
        _ => panic!("no object"),
    }
}

fn number(n: f64) -> Json {
    Json::Number(JsonNumber::Float(serde_json::Number::from_f64(n).unwrap()))
}

fn keys() -> ContextKeys {
    ContextKeys {
        progress: "_mcp_progress".to_string(),
        elicit: "_mcp_elicit".to_string(),
        elicit_call_id: "_mcp_elicit_call_id".to_string(),
    }
}

fn no_callback(_: &String) {}

fn build_context(extra: &CallExtra<String>) -> BuiltContext {
    let mut callbacks: ElicitRegistry<()> = ElicitRegistry::new();
    ExecutionRouter::build_context(extra, None, &keys(), &mut callbacks, no_callback)
}

fn shared(built: &BuiltContext, key: &str) -> Option<Value> {
    built.typed.data.read().get(key).cloned()
}

fn done(step: CallStep) -> CallOutcome {
    match step {
        CallStep::Done(outcome) => outcome,
        other => panic!("not done: {other:?}"),
    }
}

fn text(outcome: &CallOutcome) -> &str {
    outcome.content[0].data.as_str().unwrap()
}

fn failure(message: &str, details: Option<Json>) -> ExecutorError {
    ExecutorError::Execution {
        code: "ERR".to_string(),
        message: message.to_string(),
        details,
    }
}

fn error(field: Option<&str>, message: &str, errors: Vec<ValidationError>) -> ValidationError {
    ValidationError {
        field: field.map(|f| f.to_string()),
        message: message.to_string(),
        errors,
    }
}

#[test]
fn test_format_result_default_json() {
    let router = ExecutionRouter::stub();
    let result = router.format_result(&json(r#"{"key": "value"}"#), None);
    assert_eq!(result, r#"{"key":"value"}"#);
}

#[test]
fn test_format_result_default_string() {
    let router = ExecutionRouter::stub();
    let result = router.format_result(&Json::text("hello"), None);
    assert_eq!(result, r#""hello""#);
}

#[test]
fn test_new_with_formatter_preserves_settings() {
    let router = ExecutionRouter::new_with_formatter(true, true);
    let result = json(r#"{"a": 1}"#);
    assert!(router.wants_custom_format(&result));
    assert_eq!(router.format_result(&result, Some("keys=1")), "keys=1");
    assert!(matches!(
        router.handle_call_with_extra(&CallExtra::<String>::none()),
        CallStep::Done(outcome) if outcome.is_error
    ));
}

#[test]
fn test_new_with_formatter_none() {
    let router = ExecutionRouter::new_with_formatter(false, false);
    assert!(!router.wants_custom_format(&json(r#"{"a": 1}"#)));
    assert_eq!(router.format_result(&json("42"), None), "42");
}

#[test]
fn test_format_result_default_number() {
    let router = ExecutionRouter::stub();
    assert_eq!(router.format_result(&json("42"), None), "42");
}

#[test]
fn test_format_result_default_null() {
    let router = ExecutionRouter::stub();
    assert_eq!(router.format_result(&Json::Null, None), "null");
}

#[test]
fn test_format_result_custom_formatter() {
    let router = ExecutionRouter::new_with_formatter(false, true);
    let result = router.format_result(&json(r#"{"a": 1, "b": 2}"#), Some("custom: 2 keys"));
    assert_eq!(result, "custom: 2 keys");
}

#[test]
fn test_format_result_custom_formatter_non_object_ignored() {
    let router = ExecutionRouter::new_with_formatter(false, true);
    for (value, shown) in [("\"string\"", r#""string""#), ("123", "123"), ("[1, 2]", "[1,2]")] {
        assert!(!router.wants_custom_format(&json(value)));
        assert_eq!(router.format_result(&json(value), Some("should not be called")), shown);
    }
}

#[test]
fn test_format_result_custom_formatter_error_fallback() {
    let router = ExecutionRouter::new_with_formatter(false, true);
    let result = router.format_result(&json(r#"{"key": "value"}"#), None);
    assert_eq!(result, r#"{"key":"value"}"#);
}

#[test]
fn tables_are_written_in_the_chosen_format() {
    let rows = json(r#"[{"a": 1, "b": "x"}, {"a": 2, "b": "y"}]"#);
    let csv = ExecutionRouter::stub().with_output_format(OutputFormat::Csv);
    let lines: Vec<String> = csv
        .format_result(&rows, None)
        .lines()
        .map(|l| l.trim().to_string())
        .collect();
    assert_eq!(lines, vec!["a,b", "1,x", "2,y"]);
    let jsonl = ExecutionRouter::stub().with_output_format(OutputFormat::Jsonl);
    let lines: Vec<Value> = jsonl
        .format_result(&rows, None)
        .lines()
        .map(|l| to_value(&json(l)))
        .collect();
    assert_eq!(lines.len(), 2);
    assert_eq!(lines[1]["b"], "y");
    assert_eq!(csv.format_result(&json("7"), None), "7");
}

#[test]
fn test_build_context_with_progress_callback() {
    let extra = CallExtra {
        progress_token: Some(ProgressToken::String("tok-1".into())),
        send_notification: true,
        ..CallExtra::none()
    };
    let built = build_context(&extra);
    assert!(shared(&built, "_mcp_progress").is_some());
}

#[test]
fn test_build_context_without_progress() {
    let built = build_context(&CallExtra::none());
    assert!(shared(&built, "_mcp_progress").is_none());
}

#[test]
fn test_build_context_with_elicit_callback() {
    let extra = CallExtra { session: Some("s"), ..CallExtra::none() };
    let mut callbacks: ElicitRegistry<String> = ElicitRegistry::new();
    let asks = |session: &&str| format!("asks {session}");
    let built = ExecutionRouter::build_context(&extra, None, &keys(), &mut callbacks, asks);
    assert_eq!(built.guard.as_ref().map(|guard| guard.id().len()), Some(36));
    assert!(shared(&built, "_mcp_elicit").is_some());
    let id = shared(&built, "_mcp_elicit_call_id").unwrap().as_str().unwrap().to_string();
    assert_eq!(callbacks.lookup(&id), Some(&"asks s".to_string()));
    callbacks.release(built.guard.unwrap());
    assert!(callbacks.lookup(&id).is_none());
}

#[test]
fn test_build_context_without_session() {
    let built = build_context(&CallExtra::none());
    assert!(shared(&built, "_mcp_elicit").is_none());
}

#[test]
fn test_build_context_with_identity() {
    let identity = json(r#"{"id": "user-1", "type": "user"}"#);
    let extra = CallExtra { identity: Some(identity.clone()), ..CallExtra::none() };
    let built = build_context(&extra);
    assert_eq!(to_value(&built.context)["identity"], to_value(&identity));
}

#[test]
fn test_build_context_without_identity() {
    let built = build_context(&CallExtra::none());
    assert!(built.context.get("identity").is_none());
}

#[test]
fn test_build_context_creates_apcore_context_anonymous() {
    assert!(ExecutionRouter::resolve_identity(&CallExtra::<String>::none(), None).is_none());
    let built = build_context(&CallExtra::none());
    assert!(built.typed.identity.is_none());
    assert!(!built.typed.trace_id.is_empty());
}

#[test]
fn test_build_context_creates_apcore_context_with_typed_identity() {
    let typed = json(r#"{"id": "user-42", "type": "human", "roles": ["admin"]}"#);
    let extra = CallExtra { typed_identity: Some(typed), ..CallExtra::none() };
    let built = build_context(&extra);
    let ctx_id = built.typed.identity.as_ref().unwrap();
    assert_eq!(ctx_id.id(), "user-42");
    assert_eq!(ctx_id.identity_type(), "human");
    assert_eq!(ctx_id.roles(), vec!["admin"]);
}

#[test]
fn test_build_context_deserializes_json_identity_into_apcore_context() {
    let given = json(r#"{"id": "svc-1", "type": "service", "roles": ["reader"]}"#);
    let extra = CallExtra { identity: Some(given), ..CallExtra::none() };
    let built = build_context(&extra);
    let ctx_id = built.typed.identity.as_ref().unwrap();
    assert_eq!(ctx_id.id(), "svc-1");
    assert_eq!(ctx_id.identity_type(), "service");
}

#[test]
fn test_build_context_typed_identity_takes_precedence() {
    let extra = CallExtra {
        identity: Some(json(r#"{"id": "json-user", "type": "service", "roles": []}"#)),
        typed_identity: Some(json(r#"{"id": "typed-user", "type": "human", "roles": []}"#)),
        ..CallExtra::none()
    };
    let built = build_context(&extra);
    assert_eq!(built.typed.identity.as_ref().unwrap().id(), "typed-user");
}

#[test]
fn an_identity_that_is_none_gives_way_to_the_surroundings() {
    let ambient = json(r#"{"id": "ambient", "type": "user", "roles": []}"#);
    let extra = CallExtra::<String> { identity: Some(json("7")), ..CallExtra::none() };
    let identity = ExecutionRouter::resolve_identity(&extra, Some(&ambient));
    assert_eq!(to_value(&identity.unwrap())["id"], "ambient");
    assert!(ExecutionRouter::resolve_identity(&extra, None).is_none());
}

#[test]
fn test_build_context_writes_progress_marker_to_apcore_data() {
    let extra = CallExtra {
        progress_token: Some(ProgressToken::String("tok".into())),
        send_notification: true,
        ..CallExtra::none()
    };
    let built = build_context(&extra);
    assert_eq!(shared(&built, "_mcp_progress").unwrap(), "available");
    assert!(shared(&built, "_mcp_elicit").is_none());
}

#[test]
fn test_build_context_writes_elicit_marker_to_apcore_data() {
    let extra = CallExtra { session: Some("s".into()), ..CallExtra::none() };
    let built = build_context(&extra);
    assert_eq!(shared(&built, "_mcp_elicit").unwrap(), "available");
    assert!(shared(&built, "_mcp_progress").is_none());
}

#[test]
fn test_build_context_no_markers_when_no_callbacks() {
    let built = build_context(&CallExtra::none());
    assert!(built.typed.data.read().is_empty());
}

#[test]
fn test_build_context_trace_id_consistent() {
    let built = build_context(&CallExtra::none());
    assert_eq!(to_value(&built.context)["trace_id"], built.typed.trace_id.as_str());
    assert_eq!(built.trace_id, built.typed.trace_id);
}

#[test]
fn build_context_with_trace_inherits_trace_id() {
    let extras = json(
        r#"{"_meta": {"traceparent": "00-4bf92f3577b34da6a3ce929d0e0e4736-00f067aa0ba902b7-01"}}"#,
    );
    let parent = ExecutionRouter::extract_traceparent(Some(&extras));
    let extra = CallExtra::none();
    let mut callbacks: ElicitRegistry<()> = ElicitRegistry::new();
    let built = ExecutionRouter::build_context_with_trace(
        &extra,
        None,
        parent.as_ref(),
        None,
        &keys(),
        &mut callbacks,
        no_callback,
    );
    assert!(built.guard.is_none());
    assert_eq!(callbacks.len(), 0);
    assert_eq!(built.typed.trace_id, TRACE);
    assert_eq!(built.trace_id, TRACE);
    let meta = to_value(&ExecutionRouter::inject_traceparent_meta(&built.typed));
    let header = meta["traceparent"].as_str().unwrap().to_string();
    assert!(header.starts_with("00-4bf92f3577b34da6a3ce929d0e0e4736-"));
    assert!(header.ends_with("-01"));
    assert_eq!(header.len(), 55);
}

#[test]
fn build_context_with_trace_threads_cancel_token() {
    let token = apcore::CancelToken::new();
    let mut callbacks: ElicitRegistry<()> = ElicitRegistry::new();
    let built = ExecutionRouter::build_context_with_trace(
        &CallExtra::none(),
        None,
        None,
        Some(token.clone()),
        &keys(),
        &mut callbacks,
        no_callback,
    );
    let ctx_token = built.typed.cancel_token.as_ref().expect("the context has the token");
    assert!(!ctx_token.is_cancelled());
    token.cancel();
    assert!(built.typed.cancel_token.as_ref().unwrap().is_cancelled());
    assert!(build_context(&CallExtra::none()).typed.cancel_token.is_none());
}

#[test]
fn a_trace_that_is_all_f_is_not_gone_on_with() {
    let extras = json(
        r#"{"_meta": {"traceparent": "00-ffffffffffffffffffffffffffffffff-00f067aa0ba902b7-01"}}"#,
    );
    let parent = ExecutionRouter::extract_traceparent(Some(&extras));
    assert!(parent.is_some());
    let extra = CallExtra::none();
    let mut callbacks: ElicitRegistry<()> = ElicitRegistry::new();
    let built = ExecutionRouter::build_context_with_trace(
        &extra,
        None,
        parent.as_ref(),
        None,
        &keys(),
        &mut callbacks,
        no_callback,
    );
    assert!(built.guard.is_none());
    assert_eq!(callbacks.len(), 0);
    assert_ne!(built.trace_id, "f".repeat(32));
    assert_eq!(built.trace_id.len(), 32);
}

#[test]
fn test_redact_inputs_no_schema() {
    let router = ExecutionRouter::stub();
    let inputs = json(r#"{"password": "secret", "name": "Alice"}"#);
    let redacted = router.redact_inputs("unknown_tool", &inputs);
    assert_eq!(to_value(&redacted), to_value(&inputs));
}

#[test]
fn test_redact_inputs_with_sensitive_schema() {
    let schemas = object(
        r#"{"my_tool": {"type": "object", "properties": {
            "password": {"type": "string", "x-sensitive": true},
            "name": {"type": "string"}}}}"#,
    );
    let router = ExecutionRouter::stub().with_tool_schemas(schemas);
    let inputs = json(r#"{"password": "secret123", "name": "Alice"}"#);
    let redacted = to_value(&router.redact_inputs("my_tool", &inputs));

    assert_eq!(redacted["name"], "Alice");
    assert_eq!(redacted["password"], apcore::REDACTED_VALUE);
}

#[test]
fn test_redact_inputs_secret_prefix_key() {
    let schemas = object(r#"{"my_tool": {"type": "object", "properties": {}}}"#);
    let router = ExecutionRouter::stub().with_tool_schemas(schemas);
    let inputs = json(r#"{"_secret_token": "abc", "name": "Bob"}"#);
    let redacted = to_value(&router.redact_inputs("my_tool", &inputs));

    assert_eq!(redacted["name"], "Bob");
    assert_eq!(redacted["_secret_token"], apcore::REDACTED_VALUE);
}

#[test]
fn test_with_tool_schemas_builder() {
    let schemas = object(r#"{"tool_a": {"type": "object"}}"#);
    let router = ExecutionRouter::stub().with_tool_schemas(schemas);
    let redacted = to_value(&router.redact_inputs("tool_a", &json(r#"{"_secret_x": 1}"#)));
    assert_eq!(redacted["_secret_x"], apcore::REDACTED_VALUE);
}

#[test]
fn outputs_are_redacted_unless_told_otherwise() {
    let schemas = || object(
        r#"{"t": {"type": "object", "properties": {"k": {"type": "string", "x-sensitive": true}}}}"#,
    );
    let result = json(r#"{"k": "v"}"#);
    let router = ExecutionRouter::new(false, false).with_output_schemas(schemas());
    assert_eq!(to_value(&router.redact_output("t", &result))["k"], apcore::REDACTED_VALUE);
    assert_eq!(to_value(&router.redact_output("u", &result))["k"], "v");
    let open = ExecutionRouter::new(false, false)
        .with_output_schemas(schemas())
        .with_redact_output(false);
    assert_eq!(to_value(&open.redact_output("t", &result))["k"], "v");
}

#[test]
fn test_progress_callback_sends_notification() {
    let token = ProgressToken::String("tok-1".into());
    let notif = to_value(&ExecutionRouter::report_progress(
        &token,
        number(0.5),
        Some(number(1.0)),
        Some("halfway"),
    ));
    assert_eq!(notif["method"], "notifications/progress");
    assert_eq!(notif["params"]["progressToken"], "tok-1");
    assert_eq!(notif["params"]["message"], "halfway");
    assert_eq!(notif["params"]["progress"], 0.5);
    assert_eq!(notif["params"]["total"], 1.0);
}

#[test]
fn test_progress_callback_includes_message() {
    let token = ProgressToken::Integer(42);
    let notif = to_value(&ExecutionRouter::report_progress(
        &token,
        number(1.0),
        None,
        Some("doing stuff"),
    ));
    assert_eq!(notif["params"]["message"], "doing stuff");
    assert_eq!(notif["params"]["progressToken"], 42);
    assert_eq!(notif["params"]["total"], 0);
}

#[test]
fn test_progress_callback_omits_message() {
    let token = ProgressToken::String("tok".into());
    let notif = to_value(&ExecutionRouter::report_progress(&token, number(1.0), None, None));
    assert!(notif["params"].get("message").is_none());
}

#[test]
fn tokens_keep_their_kind() {
    assert_eq!(to_value(&progress_token_to_value(&ProgressToken::Integer(-5))), Value::from(-5));
    assert_eq!(
        to_value(&progress_token_to_value(&ProgressToken::String("5".into()))),
        Value::from("5")
    );
}

#[test]
fn test_call_async_success() {
    let router = ExecutionRouter::new(false, false);
    assert!(matches!(
        router.handle_call_async_with_hint("test.module", None, CallEvent::Begin { typed: false }, None),
        CallStep::CallPlain
    ));
    let result = json(r#"{"module": "test.module", "echo": {"key": "value"}}"#);
    let outcome = done(router.handle_call_async_with_hint(
        "test.module",
        None,
        CallEvent::PlainReturned(result),
        None,
    ));
    assert!(!outcome.is_error);
    assert_eq!(outcome.content.len(), 1);
    assert_eq!(outcome.content[0].content_type, "text");
    let parsed = to_value(&json(text(&outcome)));
    assert_eq!(parsed["module"], "test.module");
    assert_eq!(parsed["echo"]["key"], "value");
}

#[test]
fn test_call_async_success_with_trace_id() {
    let router = ExecutionRouter::new(false, false);
    let ctx = json(r#"{"trace_id": "trace-abc-123"}"#);
    let outcome = done(router.handle_call_async_with_hint(
        "test.module",
        Some(&ctx),
        CallEvent::PlainReturned(json("{}")),
        None,
    ));
    assert!(!outcome.is_error);
    assert_eq!(outcome.trace_id, Some("trace-abc-123".to_string()));
}

#[test]
fn test_call_async_success_custom_formatter() {
    let router = ExecutionRouter::new(false, true);
    let result = json(r#"{"module": "m", "echo": {}}"#);
    assert!(router.wants_custom_format(&result));
    let outcome = done(router.handle_call_async_with_hint(
        "m",
        None,
        CallEvent::PlainReturned(result),
        Some("keys=2"),
    ));
    assert_eq!(text(&outcome), "keys=2");
}

#[test]
fn test_call_async_error_mapped() {
    let router = ExecutionRouter::new(false, false);
    let outcome = done(router.handle_call_async_with_hint(
        "test.module",
        Some(&json(r#"{"trace_id": "t"}"#)),
        CallEvent::PlainFailed(failure("division by zero", None)),
        None,
    ));
    assert!(outcome.is_error);
    assert!(text(&outcome).contains("division by zero"));
    assert!(outcome.trace_id.is_none());
}

#[test]
fn test_call_async_error_with_ai_guidance() {
    let details = json(r#"{"retryable": true, "aiGuidance": "Try with smaller input"}"#);
    let router = ExecutionRouter::new(false, false);
    let outcome = done(router.handle_call_async_with_hint(
        "mod",
        None,
        CallEvent::TypedFailed(failure("too large", Some(details))),
        None,
    ));
    assert!(outcome.is_error);
    assert!(text(&outcome).contains("too large"));
    assert!(text(&outcome).contains("retryable"));
    assert!(text(&outcome).contains("Try with smaller input"));
}

#[test]
fn calls_fall_back_from_typed_to_traced_to_plain() {
    let router = ExecutionRouter::new(false, false).with_trace(true);
    let step = |event| router.handle_call_async_with_hint("m", None, event, None);
    assert!(matches!(step(CallEvent::Begin { typed: true }), CallStep::CallTyped));
    assert!(matches!(step(CallEvent::Begin { typed: false }), CallStep::CallTraced));
    assert!(matches!(step(CallEvent::TypedDeclined), CallStep::CallTraced));
    assert!(matches!(step(CallEvent::TraceDeclined), CallStep::CallPlain));
    let traced = done(step(CallEvent::TraceReturned {
        result: json("1"),
        pipeline: json(r#"{"steps": []}"#),
    }));
    assert_eq!(traced.content.len(), 2);
    assert_eq!(traced.content[1].content_type, "trace");
    let typed = done(step(CallEvent::TypedReturned { result: json("1"), trace: None }));
    assert_eq!(typed.content.len(), 1);
    for event in [CallEvent::TypedPanicked, CallEvent::PlainPanicked] {
        let broken = done(step(event));
        assert!(broken.is_error);
        assert_eq!(text(&broken), "Internal error: executor panicked while invoking m");
    }
    assert!(done(step(CallEvent::TraceFailed(failure("f", None)))).is_error);
}

#[test]
fn without_an_executor_nothing_is_called() {
    let router = ExecutionRouter::stub();
    let outcome = done(router.handle_call_async_with_hint(
        "m",
        None,
        CallEvent::Begin { typed: false },
        None,
    ));
    assert!(outcome.is_error);
    assert_eq!(text(&outcome), "No executor configured");
}

#[test]
fn test_build_error_text_simple() {
    let text = ExecutionRouter::build_error_text(&failure("Something broke", None));
    assert_eq!(text, "Something broke");
}

#[test]
fn test_build_error_text_with_retryable() {
    let error = failure("Temporary failure", Some(json(r#"{"retryable": true}"#)));
    let text = ExecutionRouter::build_error_text(&error);
    assert!(text.starts_with("Temporary failure"));
    assert!(text.contains(r#""retryable":true"#));
}

#[test]
fn test_build_error_text_with_all_guidance() {
    let details = json(
        r#"{"retryable": true, "aiGuidance": "reduce input", "userFixable": false,
            "suggestion": "try again"}"#,
    );
    let text = ExecutionRouter::build_error_text(&failure("Failed", Some(details)));
    assert!(text.starts_with("Failed\n\n"));
    assert!(text.contains("retryable"));
    assert!(text.contains("aiGuidance"));
    assert!(text.contains("userFixable"));
    assert!(text.contains("suggestion"));
}

#[test]
fn guidance_that_is_null_or_unknown_is_left_out() {
    let details = json(r#"{"retryable": null, "internal": "x"}"#);
    let text = ExecutionRouter::build_error_text(&failure("Failed", Some(details)));
    assert!(!text.contains("internal"));
}

#[test]
fn errors_are_described() {
    assert!(failure("m", None).describe().contains("m"));
    assert!(ExecutorError::Validation("v".into()).describe().contains("v"));
    assert!(ExecutorError::Other("o".into()).describe().contains("o"));
}

#[test]
fn streams_are_told_and_merged() {
    let router = ExecutionRouter::new(false, false);
    let token = ProgressToken::String("t".into());
    let mut state = ExecutionRouter::begin_stream();
    for (i, chunk) in [r#"{"a": 1}"#, r#"{"b": 2}"#].iter().enumerate() {
        match router.handle_stream("m", &token, None, state, StreamEvent::Chunk(json(chunk)), None) {
            StreamStep::Next { state: next, notification } => {
                let told = to_value(&notification);
                assert_eq!(told["method"], "notifications/progress");
                assert_eq!(told["params"]["progressToken"], "t");
                assert_eq!(told["params"]["progress"], i + 1);
                assert!(told["params"]["total"].is_null());
                let message = told["params"]["message"].as_str().unwrap().to_string();
                assert_eq!(to_value(&json(&message)), to_value(&json(chunk)));
                state = next;
            }
            StreamStep::Done(_) => panic!("the stream goes on"),
        }
    }
    match router.handle_stream("m", &token, None, state, StreamEvent::Ended, None) {
        StreamStep::Done(outcome) => {
            assert!(!outcome.is_error);
            assert_eq!(to_value(&json(text(&outcome))), to_value(&json(r#"{"a": 1, "b": 2}"#)));
        }
        StreamStep::Next { .. } => panic!("the stream ended"),
    }
}

#[test]
fn streams_that_fail_give_the_error() {
    let router = ExecutionRouter::new(false, false);
    let step = router.handle_stream(
        "m",
        &ProgressToken::Integer(1),
        None,
        ExecutionRouter::begin_stream(),
        StreamEvent::Failed(failure("stream broke", None)),
        None,
    );
    assert!(matches!(step, StreamStep::Done(outcome) if outcome.is_error
        && text(&outcome) == "stream broke"));
}

#[test]
fn chunks_are_told_redacted() {
    let schemas = object(
        r#"{"m": {"type": "object", "properties": {"k": {"type": "string", "x-sensitive": true}}}}"#,
    );
    let router = ExecutionRouter::new(false, false).with_output_schemas(schemas);
    let told = |chunk: &str| {
        match router.handle_stream(
            "m",
            &ProgressToken::Integer(1),
            None,
            ExecutionRouter::begin_stream(),
            StreamEvent::Chunk(json(chunk)),
            None,
        ) {
            StreamStep::Next { notification, .. } => to_value(&notification),
            StreamStep::Done(_) => panic!("the stream goes on"),
        }
    };
    assert_eq!(told(r#"{"k": "one"}"#), told(r#"{"k": "two"}"#));
    assert!(!told(r#"{"k": "one"}"#)["params"]["message"].as_str().unwrap().contains("one"));
}

#[test]
fn a_stream_of_one_gives_what_a_call_gives() {
    let router = ExecutionRouter::new(false, false);
    let chunk = json(r#"{"x": {"y": [1, 2]}}"#);
    let called = router.render_call_outcome("m", Ok((chunk.clone(), None)), None, None);
    let token = ProgressToken::Integer(1);
    let begun = ExecutionRouter::begin_stream();
    let state = match router.handle_stream("m", &token, None, begun, StreamEvent::Chunk(chunk), None) {
        StreamStep::Next { state, .. } => state,
        StreamStep::Done(_) => panic!("the stream goes on"),
    };
    match router.handle_stream("m", &token, None, state, StreamEvent::Ended, None) {
        StreamStep::Done(streamed) => assert_eq!(text(&streamed), text(&called)),
        StreamStep::Next { .. } => panic!("the stream ended"),
    }
}

#[test]
fn test_format_validation_errors_single_field() {
    let errors = vec![error(Some("name"), "is required", vec![])];
    assert_eq!(ExecutionRouter::format_validation_errors(&errors), "name: is required");
}

#[test]
fn test_format_validation_errors_multiple_fields() {
    let errors = vec![
        error(Some("name"), "is required", vec![]),
        error(Some("age"), "must be positive", vec![]),
    ];
    let result = ExecutionRouter::format_validation_errors(&errors);
    assert_eq!(result, "name: is required; age: must be positive");
}

#[test]
fn test_format_validation_errors_nested() {
    let errors = vec![error(
        Some("address"),
        "has errors",
        vec![
            error(Some("street"), "is required", vec![]),
            error(Some("zip"), "is invalid", vec![]),
        ],
    )];
    let result = ExecutionRouter::format_validation_errors(&errors);
    assert_eq!(result, "street: is required; zip: is invalid");
}

#[test]
fn test_format_validation_errors_no_field() {
    let errors = vec![error(None, "general error", vec![])];
    assert_eq!(ExecutionRouter::format_validation_errors(&errors), "general error");
}

#[test]
fn test_format_validation_errors_nested_no_field() {
    let errors = vec![error(None, "parent", vec![error(None, "child error", vec![])])];
    assert_eq!(ExecutionRouter::format_validation_errors(&errors), "?: child error");
}

fn invalid() -> ValidationOutcome {
    ValidationOutcome::Checked(ValidationResult {
        valid: false,
        errors: vec![error(Some("invalid"), "field is not allowed", vec![])],
        requires_approval: false,
    })
}

#[test]
fn test_validation_disabled_skips() {
    let router = ExecutionRouter::new(false, false);
    assert!(matches!(
        router.handle_call_with_extra(&CallExtra::<String>::none()),
        CallStep::CallTyped
    ));
}

#[test]
fn test_validation_enabled_valid_inputs() {
    let router = ExecutionRouter::new(true, false);
    assert!(matches!(
        router.handle_call_with_extra(&CallExtra::<String>::none()),
        CallStep::Validate
    ));
    let valid = ValidationOutcome::Checked(ValidationResult::default());
    assert!(matches!(router.after_validation(&valid, false), CallStep::CallTyped));
    assert!(matches!(router.after_validation(&valid, true), CallStep::OpenStream));
}

#[test]
fn test_validation_enabled_invalid_inputs() {
    let router = ExecutionRouter::new(true, false);
    let outcome = done(router.after_validation(&invalid(), false));
    assert!(outcome.is_error);
    assert!(text(&outcome).contains("Validation failed"));
    assert!(text(&outcome).contains("invalid: field is not allowed"));
}

#[test]
fn test_validation_returns_is_error_true() {
    let router = ExecutionRouter::new(true, false);
    let outcome = done(router.after_validation(&invalid(), false));
    assert!(outcome.is_error);
    assert!(outcome.trace_id.is_none());
}

#[test]
fn test_validation_executor_lacks_validate() {
    let router = ExecutionRouter::new(true, false);
    assert!(matches!(
        router.after_validation(&ValidationOutcome::Unsupported, false),
        CallStep::CallTyped
    ));
    let broken = done(router.after_validation(&ValidationOutcome::Panicked, false));
    assert_eq!(text(&broken), "Validation failed: validator panicked");
}

#[test]
fn validation_on_its_own_is_reported() {
    let router = ExecutionRouter::new(false, false);
    let reply = to_value(&router.validate_tool(&invalid()));
    assert_eq!(reply["valid"], false);
    assert_eq!(reply["checks"][0]["passed"], false);
    assert_eq!(reply["checks"][0]["check"], "invalid");
    let fine = ValidationOutcome::Checked(ValidationResult::default());
    let reply = to_value(&router.validate_tool(&fine));
    assert_eq!(reply["valid"], true);
}

#[test]
fn test_new_default_formatter() {
    let router = ExecutionRouter::new(false, false);
    assert!(!router.wants_custom_format(&json("{}")));
    assert!(matches!(
        router.handle_call_with_extra(&CallExtra::<String>::none()),
        CallStep::CallTyped
    ));
}

#[test]
fn test_new_custom_formatter() {
    let router = ExecutionRouter::new(false, true);
    assert!(router.wants_custom_format(&json("{}")));
}

#[test]
fn test_new_validate_inputs_flag() {
    let router = ExecutionRouter::new(true, false);
    assert!(matches!(
        router.handle_call_with_extra(&CallExtra::<String>::none()),
        CallStep::Validate
    ));
}

#[test]
fn streaming_takes_a_token_and_a_way_to_send() {
    let router = ExecutionRouter::new(false, false);
    let extra: CallExtra<String> = CallExtra {
        progress_token: Some(ProgressToken::String("tok".into())),
        send_notification: true,
        ..CallExtra::none()
    };
    assert!(matches!(router.handle_call_with_extra(&extra), CallStep::OpenStream));
    let mute: CallExtra<String> = CallExtra {
        progress_token: Some(ProgressToken::String("tok".into())),
        ..CallExtra::none()
    };
    assert!(matches!(router.handle_call_with_extra(&mute), CallStep::CallTyped));
}

#[test]
fn calls_go_through_the_bridges() {
    let router = ExecutionRouter::new(true, false)
        .with_async_bridge()
        .with_approval_bridge();
    assert!(router.async_bridge());
    assert!(matches!(
        router.first_step("__apcore_approval_check", false),
        CallStep::ApprovalCheck
    ));
    assert!(matches!(router.first_step("__apcore_task_list", false), CallStep::TaskMetaTool));
    assert!(matches!(router.first_step("math.add", false), CallStep::AskAsync));
    assert!(matches!(router.after_async_answer(true, false), CallStep::SubmitTask));
    assert!(matches!(router.after_async_answer(false, false), CallStep::Validate));
    let bare = ExecutionRouter::new(false, false);
    assert!(matches!(bare.first_step("__apcore_task_list", false), CallStep::CallTyped));
}

#[test]
fn extract_traceparent_parses_valid_header() {
    let extras = json(
        r#"{"_meta": {"traceparent": "00-4bf92f3577b34da6a3ce929d0e0e4736-00f067aa0ba902b7-01"}}"#,
    );
    let tp = ExecutionRouter::extract_traceparent(Some(&extras)).unwrap();
    assert_eq!(tp.trace_id, "4bf92f3577b34da6a3ce929d0e0e4736");
    assert_eq!(tp.parent_id, "00f067aa0ba902b7");
    assert_eq!(tp.version, 0);
    assert_eq!(tp.trace_flags, 1);
}

#[test]
fn extract_traceparent_none_when_missing() {
    let extras = json("{}");
    assert!(ExecutionRouter::extract_traceparent(Some(&extras)).is_none());
    assert!(ExecutionRouter::extract_traceparent(None).is_none());
}

#[test]
fn extract_traceparent_none_when_top_level_only() {
    let extras = json(
        r#"{"traceparent": "00-4bf92f3577b34da6a3ce929d0e0e4736-00f067aa0ba902b7-01"}"#,
    );
    assert!(ExecutionRouter::extract_traceparent(Some(&extras)).is_none());
}

#[test]
fn extract_traceparent_none_when_malformed() {
    let extras = json(r#"{ "_meta": { "traceparent": "not-a-valid-header" } }"#);
    assert!(ExecutionRouter::extract_traceparent(Some(&extras)).is_none());
}

#[test]
fn extract_traceparent_none_when_all_zero_trace_id() {
    let extras = json(
        r#"{"_meta": {"traceparent": "00-00000000000000000000000000000000-00f067aa0ba902b7-01"}}"#,
    );
    assert!(ExecutionRouter::extract_traceparent(Some(&extras)).is_none());
}

#[test]
fn traceparents_are_passed_on() {
    let meta = ExecutionRouter::traceparent_meta(Some("00-a-b-01"));
    assert_eq!(to_value(&meta)["traceparent"], "00-a-b-01");
    assert!(ExecutionRouter::traceparent_meta(None).get("traceparent").is_none());
}

#[test]
fn calls_are_known_by_their_ids() {
    let own = json(r#"{"call_id": "c-1", "_meta": {"progressToken": "p"}}"#);
    assert_eq!(ExecutionRouter::call_id(Some(&own)), "c-1");
    let token = json(r#"{"_meta": {"progressToken": 7}}"#);
    assert_eq!(ExecutionRouter::call_id(Some(&token)), "7");
    let fresh = ExecutionRouter::call_id(None);
    assert_eq!(fresh.len(), 36);
    assert_ne!(fresh, ExecutionRouter::call_id(None));
}

#[test]
fn versions_are_asked_for() {
    let hint = |text: &str, default| ExecutionRouter::version_hint(Some(&json(text)), default);
    assert_eq!(hint(r#"{"version_hint": "1"}"#, Some("9")).as_deref(), Some("1"));
    assert_eq!(hint(r#"{"versionHint": "2"}"#, Some("9")).as_deref(), Some("2"));
    assert_eq!(
        hint(r#"{"_meta": {"apcore": {"version": "3"}}}"#, Some("9")).as_deref(),
        Some("3")
    );
    assert_eq!(hint("{}", Some("9")).as_deref(), Some("9"));
    assert_eq!(hint("{}", None), None);
}

#[test]
fn sessions_are_found_while_they_live() {
    let mut router = ExecutionRouter::new(false, false);
    let extra = json(r#"{"_meta": {"sessionId": "s"}, "progress_token": 5, "identity": {"id": "i"}}"#);
    assert_eq!(ExecutionRouter::session_id_from_extra(Some(&extra)), Some("s"));
    assert!(router.extract_extra(Some(&extra)).session.is_none());
    router.open_session(McpSession::new("s"));
    assert_eq!(router.session_registry().len(), 1);
    let found = router.extract_extra(Some(&extra));
    assert_eq!(found.session.as_deref(), Some("s"));
    assert!(matches!(found.progress_token, Some(ProgressToken::Integer(5))));
    assert_eq!(to_value(&found.identity.unwrap())["id"], "i");
    assert!(router.close_session("s").is_some());
    assert!(router.extract_extra(Some(&extra)).session.is_none());
    let top = json(r#"{"sessionId": "t", "_meta": {"sessionId": "s"}}"#);
    assert_eq!(ExecutionRouter::session_id_from_extra(Some(&top)), Some("t"));
}

#[test]
fn a_call_that_was_cancelled_early_begins_cancelled() {
    let mut router = ExecutionRouter::new(false, false);
    assert!(!router.cancel_call("c-1"));
    let plan = router.handle_call("m", Some(&json(r#"{"call_id": "c-1"}"#)), None);
    assert_eq!(plan.call_id, "c-1");
    assert!(plan.cancelled);
    assert!(matches!(plan.step, CallStep::CallTyped));
    router.end_call("c-1");
    assert!(!router.is_cancelled("c-1"));
}

#[test]
fn a_call_is_cancelled_while_it_runs() {
    let mut router = ExecutionRouter::new(false, false);
    let plan = router.handle_call("m", Some(&json(r#"{"call_id": "c-1"}"#)), Some("1.0.0"));
    assert!(!plan.cancelled);
    assert_eq!(plan.version_hint.as_deref(), Some("1.0.0"));
    assert!(plan.trace_parent.is_none());
    assert!(plan.task_token.is_none());
    assert!(plan.task_session.is_none());
    assert!(router.cancel_call("c-1"));
    assert!(router.is_cancelled("c-1"));
    router.end_call("c-1");
    assert!(!router.cancel_call("c-1"));
}

#[test]
fn a_call_tells_whom_its_task_belongs_to() {
    let mut router = ExecutionRouter::new(false, false);
    let extra = json(r#"{"progressToken": 9, "sessionId": "s", "_meta": {"sessionId": "other"}}"#);
    let plan = router.handle_call("m", Some(&extra), None);
    assert_eq!(plan.task_token.unwrap().as_i64(), Some(9));
    assert_eq!(plan.task_session.as_deref(), Some("s"));
    let nested = json(r#"{"_meta": {"progressToken": 9, "sessionId": "s"}}"#);
    let plan = router.handle_call("m", Some(&nested), None);
    assert!(plan.task_token.is_none());
    assert!(plan.task_session.is_none());
}

#[test]
fn meta_tools_answer_in_text() {
    let fine = ExecutionRouter::meta_tool_response(&Ok(json(r#"{"tasks":[]}"#)), "t");
    assert!(!fine.is_error);
    assert_eq!(text(&fine), r#"{"tasks":[]}"#);
    assert_eq!(fine.trace_id.as_deref(), Some("t"));
    let failed = ExecutionRouter::meta_tool_response(
        &Err(MetaToolError { mapped: json(r#"{"code":"X"}"#), message: "m".to_string() }),
        "t",
    );
    assert!(failed.is_error);
    assert_eq!(text(&failed), r#"{"code":"X"}"#);
    assert_eq!(ExecutionRouter::approval_error(&json(r#"{"error":"e"}"#)), "e");
    assert_eq!(ExecutionRouter::approval_error(&json("{}")), "approval check failed");
}

#[test]
fn forms_ask_for_nothing_unless_told() {
    assert!(ExecutionRouter::requested_schema(None).is_object());
    let schema = ExecutionRouter::requested_schema(Some(json(r#"{"type":"object"}"#)));
    assert_eq!(to_value(&schema)["type"], "object");
}

#[test]
fn cancel_call_returns_false_for_unknown_id_records_tombstone() {
    let mut router = ExecutionRouter::stub();
    let ok = router.cancel_call("call-unknown");
    assert!(!router.cancel_call("call-unknown"));
    assert!(!ok);
    assert!(router.is_cancelled("call-unknown"));
}

#[test]
fn cancel_call_returns_true_for_active_token() {
    let mut router = ExecutionRouter::stub();
    router.handle_call("m", Some(&json(r#"{"call_id": "call-1"}"#)), None);
    let ok = router.cancel_call("call-1");
    assert!(ok);
    assert!(router.is_cancelled("call-1"));
}

#[test]
fn headers_are_read_whatever_their_case_and_the_space_around_them() {
    let extra = json(
        r#"{"_meta": {
            "traceparent": " 00-4BF92F3577B34DA6A3CE929D0E0E4736-00F067AA0BA902B7-01\n"
        }}"#,
    );
    let origin = ExecutionRouter::extract_traceparent(Some(&extra)).unwrap();
    assert_eq!(origin.version, 0);
    assert_eq!(origin.trace_id, TRACE);
    assert_eq!(origin.parent_id, "00f067aa0ba902b7");
    assert_eq!(origin.trace_flags, 1);
}

#[test]
fn a_trace_is_passed_on_as_it_came() {
    let header = "00-4bf92f3577b34da6a3ce929d0e0e4736-00f067aa0ba902b7-01";
    let inbound = Json::object().with("_meta", ExecutionRouter::traceparent_meta(Some(header)));
    let origin = ExecutionRouter::extract_traceparent(Some(&inbound));
    let mut callbacks: ElicitRegistry<()> = ElicitRegistry::new();
    let built = ExecutionRouter::build_context_with_trace(
        &CallExtra::none(),
        None,
        origin.as_ref(),
        None,
        &keys(),
        &mut callbacks,
        no_callback,
    );
    let meta = ExecutionRouter::inject_traceparent_meta(&built.typed);
    let outbound = Json::object().with("_meta", meta);
    let next = ExecutionRouter::extract_traceparent(Some(&outbound)).unwrap();
    assert_eq!(next.trace_id, TRACE);
    assert_eq!(next.trace_flags, 1);
    assert_eq!(shared(&built, "_apcore.trace.flags").unwrap(), "01");
}
