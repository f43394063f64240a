use std::cell::RefCell;
use std::sync::Arc;

use apcore_mcp_server::approval_bridge::{ApprovalAction, ApprovalBridge, ApprovalOutcome};
use apcore_mcp_server::async_task_bridge::{AsyncTaskBridge, TaskAction};
use apcore_mcp_server::elicit_registry::ElicitRegistry;
use apcore_mcp_server::json::Json;
use apcore_mcp_server::router::{
    BuiltContext, CallEvent, CallExtra, CallOutcome, CallStep, ContextKeys, ExecutionRouter,
    ExecutorError, ProgressToken, StreamEvent, StreamStep, ValidationError, ValidationOutcome,
    ValidationResult,
};
use apcore_mcp_server::value::{from_text, to_value};
use serde_json::Value;

type Called = Result<Json, ExecutorError>;

/// An executor that answers at once.
struct Fake {
    call: Box<dyn Fn(&str, &Json, &Json) -> Called>,
    stream: Option<Vec<Called>>,
    validate: Option<Box<dyn Fn(&Json) -> ValidationResult>>,
    trace: Option<Json>,
    hints: RefCell<Vec<Option<String>>>,
    calls: RefCell<usize>,
}

impl Fake {
    fn new(call: impl Fn(&str, &Json, &Json) -> Called + 'static) -> Self {
        Fake {
            call: Box::new(call),
            stream: None,
            validate: None,
            trace: None,
            hints: RefCell::new(Vec::new()),
            calls: RefCell::new(0),
        }
    }

    fn returning(text: &'static str) -> Self {
        Fake::new(move |_, _, _| Ok(json(text)))
    }

    fn failing(code: &'static str, message: &'static str, details: Option<&'static str>) -> Self {
        Fake::new(move |_, _, _| Err(failure(code, message, details)))
    }

    /// Gives the module and its inputs back.
    fn echo() -> Self {
        Fake::new(|module, inputs, _| {
            Ok(Json::object().with("module", Json::text(module)).with("echo", inputs.clone()))
        })
    }

    /// Gives its inputs back, streams two chunks and finds the input `invalid` invalid.
    fn full() -> Self {
        let mut fake = Fake::new(|_, inputs, _| Ok(inputs.clone()));
        fake.stream = Some(vec![Ok(json(r#"{"a": 1}"#)), Ok(json(r#"{"b": 2}"#))]);
        fake.validate = Some(Box::new(|inputs| {
            if inputs.get("invalid").is_some() {
                ValidationResult {
                    valid: false,
                    errors: vec![error(Some("invalid"), "field is invalid")],
                    requires_approval: false,
                }
            } else {
                ValidationResult::default()
            }
        }));
        fake
    }

    /// Gives the identity in the context back.
    fn whoami() -> Self {
        Fake::new(|_, _, context| {
            let identity = context.get("identity").cloned().unwrap_or(Json::Null);
            Ok(Json::object().with("identity", identity))
        })
    }

    fn streaming(chunks: Vec<Called>) -> Self {
        let mut fake = Fake::returning("{}");
        fake.stream = Some(chunks);
        fake
    }
}

fn json(text: &str) -> Json {
    from_text(text).unwrap()
}

fn failure(code: &str, message: &str, details: Option<&str>) -> ExecutorError {
    ExecutorError::Execution {
        code: code.to_string(),
        message: message.to_string(),
        details: details.map(json),
    }
}

fn error(field: Option<&str>, message: &str) -> ValidationError {
    ValidationError {
        field: field.map(|f| f.to_string()),
        message: message.to_string(),
        errors: vec![],
    }
}

fn keys() -> ContextKeys {
    ContextKeys {
        progress: "_mcp_progress".to_string(),
        elicit: "_mcp_elicit".to_string(),
        elicit_call_id: "_mcp_elicit_call_id".to_string(),
    }
}

fn build(extra: &CallExtra<String>) -> BuiltContext {
    let mut callbacks: ElicitRegistry<()> = ElicitRegistry::new();
    ExecutionRouter::build_context(extra, None, &keys(), &mut callbacks, |_: &String| ())
}

fn with_token(token: &str, send_notification: bool) -> CallExtra<String> {
    CallExtra {
        progress_token: Some(ProgressToken::String(token.to_string())),
        send_notification,
        ..CallExtra::none()
    }
}

/// What a formatter makes of a result.
type Format = fn(&Value) -> String;

/// A call under way: what the router says is done, and what comes of it is told the router.
struct Run<'a> {
    router: &'a ExecutionRouter,
    fake: &'a Fake,
    tool: &'a str,
    arguments: &'a Json,
    context: Json,
    token: Option<ProgressToken>,
    hint: Option<String>,
    format: Option<Format>,
    told: Vec<Value>,
}

impl Run<'_> {
    fn custom(&self, result: &Json) -> Option<String> {
        let redacted = self.router.redact_output(self.tool, result);
        let format = self.format?;
        if self.router.wants_custom_format(&redacted) {
            Some(format(&to_value(&redacted)))
        } else {
            None
        }
    }

    fn advance(&self, event: CallEvent, custom: Option<String>) -> CallStep {
        let context = Some(&self.context);
        self.router.handle_call_async_with_hint(self.tool, context, event, custom.as_deref())
    }

    fn follow(&mut self) -> CallOutcome {
        let token = self.token.take().unwrap();
        let mut state = ExecutionRouter::begin_stream();
        let chunks = self.fake.stream.as_ref().unwrap();
        for i in 0..=chunks.len() {
            let event = match chunks.get(i) {
                Some(Ok(chunk)) => StreamEvent::Chunk(chunk.clone()),
                Some(Err(ExecutorError::Execution { code, message, .. })) => {
                    StreamEvent::Failed(failure(code, message, None))
                }
                Some(Err(_)) => unreachable!(),
                None => StreamEvent::Ended,
            };
            let custom = match &event {
                StreamEvent::Ended => self.custom(&state.accumulated),
                _ => None,
            };
            let context = Some(&self.context);
            let step = self.router.handle_stream(
                self.tool,
                &token,
                context,
                state,
                event,
                custom.as_deref(),
            );
            match step {
                StreamStep::Done(outcome) => return outcome,
                StreamStep::Next { state: merged, notification } => {
                    self.told.push(to_value(&notification));
                    state = merged;
                }
            }
        }
        unreachable!()
    }

    fn run(&mut self, first: CallStep) -> CallOutcome {
        let streaming = self.token.is_some();
        let mut step = first;
        loop {
            step = match step {
                CallStep::Done(outcome) => return outcome,
                CallStep::Validate => {
                    let outcome = match &self.fake.validate {
                        Some(validate) => ValidationOutcome::Checked(validate(self.arguments)),
                        None => ValidationOutcome::Unsupported,
                    };
                    self.router.after_validation(&outcome, streaming)
                }
                CallStep::OpenStream => {
                    if self.fake.stream.is_some() {
                        return self.follow();
                    }
                    self.advance(CallEvent::Begin { typed: true }, None)
                }
                CallStep::CallTyped => self.advance(CallEvent::TypedDeclined, None),
                CallStep::CallTraced => match &self.fake.trace {
                    Some(pipeline) => {
                        let result = (self.fake.call)(self.tool, self.arguments, &self.context);
                        let result = result.ok().unwrap();
                        let custom = self.custom(&result);
                        let pipeline = pipeline.clone();
                        self.advance(CallEvent::TraceReturned { result, pipeline }, custom)
                    }
                    None => self.advance(CallEvent::TraceDeclined, None),
                },
                CallStep::CallPlain => {
                    *self.fake.calls.borrow_mut() += 1;
                    self.fake.hints.borrow_mut().push(self.hint.clone());
                    match (self.fake.call)(self.tool, self.arguments, &self.context) {
                        Ok(result) => {
                            let custom = self.custom(&result);
                            self.advance(CallEvent::PlainReturned(result), custom)
                        }
                        Err(e) => self.advance(CallEvent::PlainFailed(e), None),
                    }
                }
                other => panic!("not expected here: {other:?}"),
            };
        }
    }
}

/// Carries out a call that comes with `extra`.
fn call_with_extra(
    router: &ExecutionRouter,
    fake: &Fake,
    tool: &str,
    arguments: &str,
    extra: CallExtra<String>,
    format: Option<Format>,
) -> (CallOutcome, Vec<Value>) {
    let context = build(&extra).context;
    let first = router.handle_call_with_extra(&extra);
    let streams = extra.send_notification;
    let mut run = Run {
        router,
        fake,
        tool,
        arguments: &json(arguments),
        context,
        token: extra.progress_token.filter(|_| streams),
        hint: None,
        format,
        told: Vec::new(),
    };
    let outcome = run.run(first);
    (outcome, run.told)
}

/// Carries out a call that a message asks for.
fn call(router: &mut ExecutionRouter, fake: &Fake, tool: &str, arguments: &str, extra: Option<&str>) -> CallOutcome {
    let extra = extra.map(json);
    let plan = router.handle_call(tool, extra.as_ref(), None);
    let mut callbacks: ElicitRegistry<()> = ElicitRegistry::new();
    let built = ExecutionRouter::build_context_with_trace(
        &plan.extra,
        None,
        plan.trace_parent.as_ref(),
        None,
        &keys(),
        &mut callbacks,
        |_: &String| (),
    );
    let outcome = Run {
        router,
        fake,
        tool,
        arguments: &json(arguments),
        context: built.context,
        token: None,
        hint: plan.version_hint,
        format: None,
        told: Vec::new(),
    }
    .run(plan.step);
    router.end_call(&plan.call_id);
    outcome
}

/// Follows a stream.
fn stream(
    router: &ExecutionRouter,
    chunks: Vec<Called>,
    token: ProgressToken,
    context: &str,
    format: Option<Format>,
) -> (CallOutcome, Vec<Value>) {
    let mut run = Run {
        router,
        fake: &Fake::streaming(chunks),
        tool: "mod",
        arguments: &Json::object(),
        context: json(context),
        token: Some(token),
        hint: None,
        format,
        told: Vec::new(),
    };
    let outcome = run.follow();
    (outcome, run.told)
}

fn plain(router: &ExecutionRouter, fake: &Fake) -> CallOutcome {
    let event = match (fake.call)("mod", &Json::object(), &Json::object()) {
        Ok(result) => CallEvent::PlainReturned(result),
        Err(e) => CallEvent::PlainFailed(e),
    };
    match router.handle_call_async_with_hint("mod", None, event, None) {
        CallStep::Done(outcome) => outcome,
        other => panic!("not done: {other:?}"),
    }
}

fn tok(token: &str) -> ProgressToken {
    ProgressToken::String(token.to_string())
}

fn new_router() -> ExecutionRouter {
    ExecutionRouter::new(false, false)
}

fn text(outcome: &CallOutcome) -> &str {
    outcome.content[0].data.as_str().unwrap()
}

fn parsed(outcome: &CallOutcome) -> Value {
    to_value(&json(text(outcome)))
}

#[test]
fn test_call_async_error_text_includes_message() {
    let outcome = plain(&new_router(), &Fake::failing("ERR", "something went wrong", None));
    assert!(outcome.is_error);
    assert!(text(&outcome).contains("something went wrong"));
}

#[test]
fn test_call_async_error_is_error_true() {
    assert!(plain(&new_router(), &Fake::failing("ERR", "fail", None)).is_error);
}

#[test]
fn test_call_async_error_no_trace_id() {
    assert!(plain(&new_router(), &Fake::failing("ERR", "fail", None)).trace_id.is_none());
}

#[test]
fn test_stream_single_chunk() {
    let chunks = vec![Ok(json(r#"{"result": 42}"#))];
    let (outcome, told) = stream(&new_router(), chunks, tok("tok-1"), "{}", None);
    assert!(!outcome.is_error);
    assert_eq!(parsed(&outcome)["result"], 42);
    assert_eq!(told.len(), 1);
}

#[test]
fn test_stream_multiple_chunks_merged() {
    let chunks =
        vec![Ok(json(r#"{"a": 1}"#)), Ok(json(r#"{"b": 2}"#)), Ok(json(r#"{"c": 3}"#))];
    let (outcome, told) = stream(&new_router(), chunks, tok("tok"), "{}", None);
    assert!(!outcome.is_error);
    let result = parsed(&outcome);
    assert_eq!(result["a"], 1);
    assert_eq!(result["b"], 2);
    assert_eq!(result["c"], 3);
    assert_eq!(told.len(), 3);
}

#[test]
fn test_stream_empty() {
    let (outcome, told) = stream(&new_router(), vec![], tok("tok"), "{}", None);
    assert!(!outcome.is_error);
    assert_eq!(parsed(&outcome), Value::Object(Default::default()));
    assert_eq!(told.len(), 0);
}

#[test]
fn test_stream_progress_notification_structure() {
    let chunks = vec![Ok(json(r#"{"key": "val"}"#))];
    let (_, told) = stream(&new_router(), chunks, tok("my-token"), "{}", None);
    assert_eq!(told[0]["method"], "notifications/progress");
    assert_eq!(told[0]["params"]["progressToken"], "my-token");
    assert_eq!(told[0]["params"]["progress"], 1);
    assert!(told[0]["params"]["total"].is_null());
    let message = told[0]["params"]["message"].as_str().unwrap();
    assert_eq!(to_value(&json(message))["key"], "val");
}

#[test]
fn test_stream_progress_token_string() {
    let (_, told) = stream(&new_router(), vec![Ok(json("{}"))], tok("str-tok"), "{}", None);
    assert_eq!(told[0]["params"]["progressToken"], "str-tok");
}

#[test]
fn test_stream_progress_token_integer() {
    let token = ProgressToken::Integer(99);
    let (_, told) = stream(&new_router(), vec![Ok(json("{}"))], token, "{}", None);
    assert_eq!(told[0]["params"]["progressToken"], 99);
}

#[test]
fn test_stream_accumulates_nested() {
    let chunks = vec![Ok(json(r#"{"data": {"x": 1}}"#)), Ok(json(r#"{"data": {"y": 2}}"#))];
    let (outcome, _) = stream(&new_router(), chunks, tok("tok"), "{}", None);
    assert!(!outcome.is_error);
    assert_eq!(parsed(&outcome)["data"]["x"], 1);
    assert_eq!(parsed(&outcome)["data"]["y"], 2);
}

#[test]
fn test_stream_error_mid_stream() {
    let chunks = vec![
        Ok(json(r#"{"a": 1}"#)),
        Err(failure("ERR", "stream broke", None)),
        Ok(json(r#"{"c": 3}"#)),
    ];
    let (outcome, _) = stream(&new_router(), chunks, tok("tok"), "{}", None);
    assert!(outcome.is_error);
    assert!(text(&outcome).contains("stream broke"));
}

#[test]
fn test_stream_error_is_error_true() {
    let chunks = vec![Err(failure("ERR", "fail", None))];
    let (outcome, _) = stream(&new_router(), chunks, tok("tok"), "{}", None);
    assert!(outcome.is_error);
}

#[test]
fn test_stream_result_formatted() {
    let router = ExecutionRouter::new(false, true);
    let format: Format = |value| format!("formatted:{}", value.as_object().unwrap().len());
    let chunks = vec![Ok(json(r#"{"a": 1}"#)), Ok(json(r#"{"b": 2}"#))];
    let (outcome, _) = stream(&router, chunks, tok("tok"), "{}", Some(format));
    assert!(!outcome.is_error);
    assert_eq!(text(&outcome), "formatted:2");
}

#[test]
fn test_stream_result_has_trace_id() {
    let chunks = vec![Ok(json(r#"{"a": 1}"#))];
    let context = r#"{"trace_id": "trace-xyz"}"#;
    let (outcome, _) = stream(&new_router(), chunks, tok("tok"), context, None);
    assert!(!outcome.is_error);
    assert_eq!(outcome.trace_id, Some("trace-xyz".to_string()));
}

#[test]
fn test_stream_fallback_to_non_streaming() {
    let fake = Fake::returning(r#"{"non_streaming": true}"#);
    let extra = with_token("tok", true);
    let (outcome, told) = call_with_extra(&new_router(), &fake, "mod", "{}", extra, None);
    assert!(!outcome.is_error);
    assert_eq!(parsed(&outcome)["non_streaming"], true);
    assert_eq!(told.len(), 0);
}

#[test]
fn test_handle_call_non_streaming() {
    let (outcome, _) = call_with_extra(
        &new_router(),
        &Fake::echo(),
        "test.module",
        r#"{"key": "val"}"#,
        CallExtra::none(),
        None,
    );
    assert!(!outcome.is_error);
    assert_eq!(parsed(&outcome)["module"], "test.module");
}

#[test]
fn test_handle_call_streaming_missing_send_notification() {
    let extra = with_token("tok", false);
    let (outcome, _) =
        call_with_extra(&new_router(), &Fake::full(), "mod", r#"{"x": 1}"#, extra, None);
    assert!(!outcome.is_error);
    assert_eq!(parsed(&outcome)["x"], 1);
}

#[test]
fn test_handle_call_streaming_executor_no_stream() {
    let extra = with_token("tok", true);
    let (outcome, told) =
        call_with_extra(&new_router(), &Fake::echo(), "test.module", "{}", extra, None);
    assert!(!outcome.is_error);
    assert_eq!(parsed(&outcome)["module"], "test.module");
    assert_eq!(told.len(), 0);
}

#[test]
fn test_handle_call_validation_before_execution() {
    let router = ExecutionRouter::new(true, false);
    let extra = CallExtra::none();
    let (outcome, _) =
        call_with_extra(&router, &Fake::full(), "mod", r#"{"name": "ok"}"#, extra, None);
    assert!(!outcome.is_error);
}

#[test]
fn test_handle_call_validation_failure_short_circuits() {
    let router = ExecutionRouter::new(true, false);
    let fake = Fake::full();
    let extra = CallExtra::none();
    let (outcome, _) = call_with_extra(&router, &fake, "mod", r#"{"invalid": true}"#, extra, None);
    assert!(outcome.is_error);
    assert!(text(&outcome).contains("Validation failed"));
    assert_eq!(*fake.calls.borrow(), 0);
}

#[test]
fn test_handle_call_passes_identity() {
    let extra = CallExtra { identity: Some(json(r#"{"id": "user-1"}"#)), ..CallExtra::none() };
    let (outcome, _) = call_with_extra(&new_router(), &Fake::whoami(), "mod", "{}", extra, None);
    assert!(!outcome.is_error);
    assert_eq!(parsed(&outcome)["identity"]["id"], "user-1");
}

#[test]
fn test_handle_call_no_extra() {
    let (outcome, _) = call_with_extra(
        &new_router(),
        &Fake::echo(),
        "test.module",
        r#"{"k": "v"}"#,
        CallExtra::none(),
        None,
    );
    assert!(!outcome.is_error);
    assert!(text(&outcome).contains("test.module"));
}

#[test]
fn test_handle_call_value_non_streaming() {
    let mut router = new_router();
    let outcome = call(&mut router, &Fake::echo(), "test.module", r#"{"key": "val"}"#, None);
    assert!(!outcome.is_error);
    assert_eq!(parsed(&outcome)["module"], "test.module");
}

#[test]
fn test_handle_call_value_with_identity() {
    let mut router = new_router();
    let extra = Some(r#"{"identity": {"id": "user-2"}}"#);
    let outcome = call(&mut router, &Fake::whoami(), "mod", "{}", extra);
    assert!(!outcome.is_error);
    assert_eq!(parsed(&outcome)["identity"]["id"], "user-2");
}

#[test]
fn test_handle_call_value_validation_failure() {
    let mut router = ExecutionRouter::new(true, false);
    let outcome = call(&mut router, &Fake::full(), "mod", r#"{"invalid": true}"#, None);
    assert!(outcome.is_error);
    assert!(text(&outcome).contains("Validation failed"));
}

#[test]
fn test_e2e_simple_call() {
    let fake = Fake::returning(r#"{"status": "ok", "count": 42}"#);
    let (outcome, _) = call_with_extra(
        &new_router(),
        &fake,
        "my.tool",
        r#"{"input": 1}"#,
        CallExtra::none(),
        None,
    );
    assert!(!outcome.is_error);
    assert!(outcome.trace_id.is_some());
    assert_eq!(parsed(&outcome)["status"], "ok");
    assert_eq!(parsed(&outcome)["count"], 42);
}

#[test]
fn test_e2e_call_with_custom_formatter() {
    let router = ExecutionRouter::new(false, true);
    let format: Format = |value| {
        let keys: Vec<&str> = value.as_object().unwrap().keys().map(|k| k.as_str()).collect();
        format!("Keys: {}", keys.join(", "))
    };
    let fake = Fake::returning(r#"{"x": 1, "y": 2}"#);
    let (outcome, _) =
        call_with_extra(&router, &fake, "mod", "{}", CallExtra::none(), Some(format));
    assert!(!outcome.is_error);
    assert!(text(&outcome).starts_with("Keys: "));
    assert_eq!(text(&outcome), "Keys: x, y");
}

#[test]
fn test_e2e_call_error_mapped() {
    let fake = Fake::failing("ERR_DIVIDE", "cannot divide by zero", None);
    let (outcome, _) =
        call_with_extra(&new_router(), &fake, "mod", "{}", CallExtra::none(), None);
    assert!(outcome.is_error);
    assert!(text(&outcome).contains("cannot divide by zero"));
}

#[test]
fn test_e2e_call_with_identity() {
    let identity = json(r#"{"user": "alice", "role": "admin"}"#);
    let extra = CallExtra { identity: Some(identity), ..CallExtra::none() };
    let (outcome, _) = call_with_extra(&new_router(), &Fake::whoami(), "mod", "{}", extra, None);
    assert!(!outcome.is_error);
    assert_eq!(parsed(&outcome)["identity"]["user"], "alice");
    assert_eq!(parsed(&outcome)["identity"]["role"], "admin");
}

#[test]
fn test_handle_call_streaming() {
    let fake = Fake::streaming(vec![Ok(json(r#"{"a": 1}"#)), Ok(json(r#"{"b": 2}"#))]);
    let extra = with_token("tok", true);
    let (outcome, told) = call_with_extra(&new_router(), &fake, "mod", "{}", extra, None);
    assert!(!outcome.is_error);
    assert_eq!(parsed(&outcome)["a"], 1);
    assert_eq!(parsed(&outcome)["b"], 2);
    assert_eq!(told.len(), 2);
}

#[test]
fn test_e2e_streaming_three_chunks() {
    let fake = Fake::streaming(vec![
        Ok(json(r#"{"part": "a"}"#)),
        Ok(json(r#"{"data": 1}"#)),
        Ok(json(r#"{"part": "c", "data": 2}"#)),
    ]);
    let extra = with_token("tok-e2e", true);
    let (outcome, told) = call_with_extra(&new_router(), &fake, "mod", "{}", extra, None);
    assert!(!outcome.is_error);
    assert_eq!(parsed(&outcome)["part"], "c");
    assert_eq!(parsed(&outcome)["data"], 2);
    assert_eq!(told.len(), 3);
}

#[test]
fn test_e2e_streaming_notification_content() {
    let fake = Fake::streaming(vec![Ok(json(r#"{"step": "done"}"#))]);
    let extra = with_token("tok-notif", true);
    let (_, told) = call_with_extra(&new_router(), &fake, "mod", "{}", extra, None);
    assert_eq!(told.len(), 1);
    assert_eq!(told[0]["method"], "notifications/progress");
    assert_eq!(told[0]["params"]["progressToken"], "tok-notif");
    assert_eq!(told[0]["params"]["progress"], 1);
    let message = told[0]["params"]["message"].as_str().unwrap();
    assert_eq!(to_value(&json(message))["step"], "done");
}

#[test]
fn test_e2e_streaming_error_mid_stream() {
    let fake = Fake::streaming(vec![
        Ok(json(r#"{"a": 1}"#)),
        Err(failure("STREAM_ERR", "stream failed at chunk 2", None)),
    ]);
    let extra = with_token("tok", true);
    let (outcome, _) = call_with_extra(&new_router(), &fake, "mod", "{}", extra, None);
    assert!(outcome.is_error);
    assert!(text(&outcome).contains("stream failed at chunk 2"));
}

#[test]
fn test_e2e_streaming_fallback_no_support() {
    let fake = Fake::returning(r#"{"fallback": true}"#);
    let extra = with_token("tok", true);
    let (outcome, told) = call_with_extra(&new_router(), &fake, "mod", "{}", extra, None);
    assert!(!outcome.is_error);
    assert_eq!(parsed(&outcome)["fallback"], true);
    assert_eq!(told.len(), 0);
}

#[test]
fn test_e2e_validation_pass() {
    let router = ExecutionRouter::new(true, false);
    let mut fake = Fake::returning(r#"{"result": "success"}"#);
    fake.validate = Some(Box::new(|_| ValidationResult {
        valid: true,
        errors: vec![],
        requires_approval: false,
    }));
    let (outcome, _) = call_with_extra(&router, &fake, "mod", "{}", CallExtra::none(), None);
    assert!(!outcome.is_error);
    assert_eq!(parsed(&outcome)["result"], "success");
}

#[test]
fn test_e2e_validation_fail() {
    let router = ExecutionRouter::new(true, false);
    let mut fake = Fake::returning(r#"{"should": "not reach"}"#);
    fake.validate = Some(Box::new(|_| ValidationResult {
        valid: false,
        errors: vec![error(Some("email"), "is not a valid email")],
        requires_approval: false,
    }));
    let (outcome, _) = call_with_extra(&router, &fake, "mod", "{}", CallExtra::none(), None);
    assert!(outcome.is_error);
    assert!(text(&outcome).contains("Validation failed"));
    assert!(text(&outcome).contains("email: is not a valid email"));
}

#[test]
fn test_e2e_validation_disabled() {
    let mut fake = Fake::returning(r#"{"executed": true}"#);
    fake.validate = Some(Box::new(|_| ValidationResult {
        valid: false,
        errors: vec![error(Some("x"), "bad")],
        requires_approval: false,
    }));
    let (outcome, _) =
        call_with_extra(&new_router(), &fake, "mod", "{}", CallExtra::none(), None);
    assert!(!outcome.is_error);
    assert_eq!(parsed(&outcome)["executed"], true);
}

#[test]
fn test_e2e_no_extra() {
    let fake = Fake::returning(r#"{"ok": true}"#);
    let (outcome, _) =
        call_with_extra(&new_router(), &fake, "mod", "{}", CallExtra::none(), None);
    assert!(!outcome.is_error);
    assert_eq!(parsed(&outcome)["ok"], true);
}

#[test]
fn test_e2e_error_with_ai_guidance() {
    let details = r#"{
        "retryable": true,
        "aiGuidance": "Wait 10 seconds and retry",
        "suggestion": "reduce request rate"
    }"#;
    let fake = Fake::failing("RATE_LIMIT", "Too many requests", Some(details));
    let (outcome, _) =
        call_with_extra(&new_router(), &fake, "mod", "{}", CallExtra::none(), None);
    assert!(outcome.is_error);
    let shown = text(&outcome);
    assert!(shown.contains("Too many requests"));
    assert!(shown.contains("retryable"));
    assert!(shown.contains("Wait 10 seconds and retry"));
    assert!(shown.contains("suggestion"));
}

#[test]
fn test_e2e_progress_callback_in_context() {
    let built = build(&with_token("tok", true));
    assert!(built.typed.data.read().contains_key("_mcp_progress"));
}

#[test]
fn test_e2e_elicit_callback_in_context() {
    let extra = CallExtra { session: Some("s1".to_string()), ..CallExtra::none() };
    let mut callbacks: ElicitRegistry<&str> = ElicitRegistry::new();
    let built =
        ExecutionRouter::build_context(&extra, None, &keys(), &mut callbacks, |_: &String| "asks");
    let shared = built.typed.data.read();
    assert!(shared.contains_key("_mcp_elicit"));
    let id = shared["_mcp_elicit_call_id"].as_str().unwrap();
    assert_eq!(callbacks.lookup(id), Some(&"asks"));
}

#[test]
fn test_trace_enabled_emits_trace_content_item() {
    let mut router = new_router().with_trace(true);
    let mut fake = Fake::returning(r#"{"ok": true}"#);
    fake.trace = Some(json(
        r#"{"strategy_name": "default", "steps": [{"name": "a"}, {"name": "b"}]}"#,
    ));
    let outcome = call(&mut router, &fake, "mod", "{}", None);
    assert!(!outcome.is_error);
    let item = outcome.content.iter().find(|item| item.content_type == "trace").unwrap();
    assert_eq!(to_value(&item.data)["steps"].as_array().unwrap().len(), 2);
}

#[test]
fn test_version_hint_flows_through() {
    let mut router = new_router();
    let fake = Fake::returning("{}");
    let extra = Some(r#"{"_meta": {"apcore": {"version": "2.0.1"}}}"#);
    let outcome = call(&mut router, &fake, "mod", "{}", extra);
    assert!(!outcome.is_error);
    assert_eq!(*fake.hints.borrow(), vec![Some("2.0.1".to_string())]);
}

#[test]
fn test_version_hint_ignores_top_level_apcore() {
    let mut router = new_router();
    let fake = Fake::returning("{}");
    let extra = Some(r#"{"apcore": {"version": "9.9.9"}}"#);
    let outcome = call(&mut router, &fake, "mod", "{}", extra);
    assert!(!outcome.is_error);
    assert_eq!(*fake.hints.borrow(), vec![None]);
}

#[test]
fn handle_call_inherits_traceparent_trace_id() {
    let mut router = new_router();
    let extra = Some(
        r#"{"_meta": {
            "traceparent": "00-4bf92f3577b34da6a3ce929d0e0e4736-00f067aa0ba902b7-01"
        }}"#,
    );
    let outcome = call(&mut router, &Fake::echo(), "mod", "{}", extra);
    assert!(!outcome.is_error);
    assert_eq!(outcome.trace_id, Some("4bf92f3577b34da6a3ce929d0e0e4736".to_string()));
}

#[test]
fn validate_tool_propagates_requires_approval() {
    let router = new_router();
    let outcome = ValidationOutcome::Checked(ValidationResult {
        valid: true,
        errors: vec![],
        requires_approval: true,
    });
    let result = router.validate_tool(&outcome);
    assert_eq!(result.get("requires_approval").unwrap().as_bool(), Some(true));
}

#[test]
fn test_typed_dispatch_panic_becomes_an_error_result() {
    let step =
        new_router().handle_call_async_with_hint("mod", None, CallEvent::TypedPanicked, None);
    match step {
        CallStep::Done(outcome) => {
            assert!(outcome.is_error);
            assert!(text(&outcome).contains("executor panicked"));
        }
        other => panic!("not done: {other:?}"),
    }
}

#[test]
fn test_typed_dispatch_declining_falls_back_to_call_async() {
    let fake = Fake::returning(r#"{"untyped": true}"#);
    let (outcome, _) =
        call_with_extra(&new_router(), &fake, "mod", "{}", CallExtra::none(), None);
    assert!(!outcome.is_error);
    assert!(text(&outcome).contains("untyped"));
}

#[test]
fn approval_check_meta_tool_routes_via_approval_bridge() {
    let mut router = new_router().with_approval_bridge();
    let plan = router.handle_call("__apcore_approval_check", None, None);
    assert!(matches!(plan.step, CallStep::ApprovalCheck));
    let arguments = json(r#"{"approval_id": "abc-123"}"#);
    let id = match ApprovalBridge::handle_meta_tool("__apcore_approval_check", &arguments) {
        ApprovalAction::Check(id) => id,
        ApprovalAction::Reply(..) => panic!("not a check"),
    };
    let found = ApprovalOutcome::Found { status: "approved".to_string(), reason: None };
    let (reply, is_error) = ApprovalBridge::handle_check(&id, &found);
    assert!(!is_error);
    let outcome = ExecutionRouter::meta_tool_response(&Ok(reply), "t");
    assert!(!outcome.is_error);
    assert_eq!(parsed(&outcome)["status"], "approved");
    assert_eq!(parsed(&outcome)["approval_id"], "abc-123");
}

#[test]
fn meta_tool_submit_routes_via_async_bridge() {
    let mut router = new_router().with_async_bridge();
    let plan = router.handle_call("__apcore_task_submit", None, None);
    assert!(matches!(plan.step, CallStep::TaskMetaTool));
    let arguments = json(r#"{"module_id": "some.module", "arguments": {}}"#);
    let action = AsyncTaskBridge::decide_meta_tool("__apcore_task_submit", &arguments, true);
    assert!(matches!(action, TaskAction::Submit { module_id, .. } if module_id == "some.module"));
    let executor = apcore::executor::Executor::new(
        apcore::registry::Registry::new(),
        apcore::config::Config::default(),
    );
    let mut bridge = AsyncTaskBridge::new(Arc::new(executor));
    let submitted = bridge.submit("task-1", None, false, None);
    let reply = AsyncTaskBridge::submit_reply(&submitted);
    let outcome = ExecutionRouter::meta_tool_response(&Ok(reply), "trace-1");
    assert!(!outcome.is_error);
    assert!(outcome.trace_id.is_some());
    assert_eq!(parsed(&outcome)["task_id"], "task-1");
    assert_eq!(parsed(&outcome)["status"], "pending");
    assert!(parsed(&outcome).get("module_id").is_none());
}

#[test]
fn async_hinted_module_routes_via_bridge() {
    let mut router = new_router().with_async_bridge();
    let plan = router.handle_call("heavy.module", None, None);
    assert!(matches!(plan.step, CallStep::AskAsync));
    assert!(matches!(router.after_async_answer(true, false), CallStep::SubmitTask));
}

#[test]
fn meta_tool_submit_reserved_id_is_error() {
    let arguments = json(r#"{"module_id": "__apcore_something"}"#);
    for hinted in [false, true] {
        let action = AsyncTaskBridge::decide_meta_tool("__apcore_task_submit", &arguments, hinted);
        assert!(matches!(action, TaskAction::Refuse(_)));
    }
}
