use apcore_mcp_server::json::{Json, JsonNumber};
use apcore_mcp_server::transport::{
    apply_auth_layer, delivery_reply, metrics_reply, new_session_id, post_reply, read_line,
    sse_endpoint, stamp_session_id, streamable_endpoint, trailing_slash_redirect, usage_json,
    usage_reply, write_line, HttpAuthConfig, MessageRoute, MetricsExporter, SseSessions,
    TransportError, TransportManager, UsageExporter, UsageSummary,
};
use apcore_mcp_server::value::{from_text, to_value};
use serde_json::Value;

fn json(text: &str) -> Json {
    from_text(text).unwrap()
}

fn float(number: f64) -> Json {
    Json::Number(JsonNumber::Float(serde_json::Number::from_f64(number).unwrap()))
}

struct NoExporter;

impl MetricsExporter for NoExporter {
    fn export_prometheus(&self) -> String {
        String::new()
    }
}

impl UsageExporter for NoExporter {
    fn export_json(&self) -> Json {
        Json::Null
    }
}

type Manager = TransportManager<NoExporter, NoExporter>;

fn metrics_of<M: MetricsExporter>(exporter: M) -> Result<String, ()> {
    TransportManager::<M, NoExporter>::new(Some(exporter)).build_metrics_response()
}

fn usage_of<U: UsageExporter>(exporter: U) -> Result<Json, ()> {
    let mut manager = TransportManager::<NoExporter, U>::new(None);
    assert!(manager.build_usage_response().is_err());
    manager.set_usage_exporter(Some(exporter));
    manager.build_usage_response()
}

#[test]
fn transport_error_invalid_port_display() {
    let err = TransportError::InvalidPort(0);
    assert_eq!(err.describe(), "port must be between 1 and 65535, got 0");
}

#[test]
fn transport_error_invalid_host_display() {
    let err = TransportError::InvalidHost("".to_string());
    assert_eq!(err.describe(), "invalid host: ");
}

#[test]
fn transport_error_io_wraps_and_preserves_message() {
    let io_err = std::io::Error::new(std::io::ErrorKind::NotFound, "file gone");
    let err = TransportError::Io(io_err.to_string());
    assert_eq!(err.describe(), "I/O error: file gone");
}

#[test]
fn transport_error_server_display() {
    let err = TransportError::Server("something broke".to_string());
    assert_eq!(err.describe(), "server error: something broke");
}

#[test]
fn transport_manager_new_without_exporter() {
    let tm = Manager::new(None);
    assert_eq!(tm.module_count(), 0);
    assert!(Manager::new(None).build_metrics_response().is_err());
}

#[test]
fn transport_manager_new_with_exporter() {
    struct DummyExporter;
    impl MetricsExporter for DummyExporter {
        fn export_prometheus(&self) -> String {
            "dummy".to_string()
        }
    }
    let metrics = metrics_of(DummyExporter);
    assert_eq!(metrics.unwrap(), "dummy");
}

#[test]
fn transport_manager_module_count_defaults_to_zero() {
    let tm = Manager::new(None);
    assert_eq!(tm.module_count(), 0);
}

#[test]
fn transport_manager_set_module_count() {
    let mut tm = Manager::new(None);
    tm.set_module_count(5);
    assert_eq!(tm.module_count(), 5);
}

#[test]
fn validate_host_port_rejects_empty_host() {
    let result = Manager::validate_host_port("", 8080);
    assert!(result.is_err());
    assert!(matches!(result.unwrap_err(), TransportError::InvalidHost(_)));
}

#[test]
fn validate_host_port_rejects_port_zero() {
    let result = Manager::validate_host_port("localhost", 0);
    assert!(result.is_err());
    assert!(matches!(result.unwrap_err(), TransportError::InvalidPort(0)));
}

#[test]
fn validate_host_port_accepts_valid() {
    assert!(Manager::validate_host_port("127.0.0.1", 8080).is_ok());
    assert!(Manager::validate_host_port("localhost", 1).is_ok());
    assert!(Manager::validate_host_port("0.0.0.0", 65535).is_ok());
}

#[test]
fn build_health_response_returns_ok_status() {
    let tm = Manager::new(None);
    let resp = to_value(&tm.build_health_response(float(0.5)));
    assert_eq!(resp["status"], "ok");
    assert!(resp["uptime_seconds"].as_f64().unwrap() >= 0.0);
    assert_eq!(resp["module_count"], 0);
}

#[test]
fn build_health_response_reflects_module_count() {
    let mut tm = Manager::new(None);
    tm.set_module_count(3);
    let resp = to_value(&tm.build_health_response(float(0.5)));
    assert_eq!(resp["module_count"], 3);
    assert_eq!(resp["uptime_seconds"], 0.5);
}

#[test]
fn build_metrics_response_without_exporter_returns_err() {
    assert!(Manager::new(None).build_metrics_response().is_err());
}

#[test]
fn build_metrics_response_with_exporter_returns_body() {
    struct MockExporter;
    impl MetricsExporter for MockExporter {
        fn export_prometheus(&self) -> String {
            "# HELP up\nup 1\n".to_string()
        }
    }
    let result = metrics_of(MockExporter);
    assert!(result.is_ok());
    assert_eq!(result.unwrap(), "# HELP up\nup 1\n");
}

#[test]
fn build_usage_response_without_exporter_returns_err() {
    assert!(Manager::new(None).build_usage_response().is_err());
}

#[test]
fn build_usage_response_with_exporter_returns_document() {
    let result = usage_of(NoExporter);
    assert!(result.unwrap().is_null());
}

#[test]
fn stamp_session_id_replaces_a_non_object_meta() {
    let mut message = json(
        r#"{"method": "tools/call", "params": { "name": "t", "_meta": "not-an-object" }}"#,
    );
    stamp_session_id(&mut message, "sess-1");
    let message = to_value(&message);
    assert_eq!(message["params"]["_meta"]["sessionId"], "sess-1");
    assert_eq!(message["params"]["name"], "t");
}

#[test]
fn stamp_session_id_leaves_a_message_without_object_params_untouched() {
    for text in [
        r#"{ "method": "tools/list" }"#,
        r#"{ "method": "tools/list", "params": [1, 2] }"#,
    ] {
        let mut message = json(text);
        let before = message.clone();
        stamp_session_id(&mut message, "sess-1");
        assert_eq!(message, before);
    }
}

#[test]
fn stamp_session_id_overwrites_what_a_client_named() {
    let mut message = json(
        r#"{"params": {"_meta": { "sessionId": "victim-session", "progressToken": 7 }}}"#,
    );
    stamp_session_id(&mut message, "own");
    let message = to_value(&message);
    assert_eq!(message["params"]["_meta"]["sessionId"], "own");
    assert_eq!(message["params"]["_meta"]["progressToken"], 7);
}

#[test]
fn transport_error_bind_display() {
    let err = TransportError::Server("bind failed".to_string());
    assert!(err.describe().contains("bind failed"));
}

#[test]
fn transport_error_is_debug() {
    let err = TransportError::InvalidPort(99);
    let debug = format!("{:?}", err);
    assert!(debug.contains("InvalidPort"));
    assert!(debug.contains("99"));
}

#[test]
fn transport_error_invalid_host_preserves_value() {
    let err = TransportError::InvalidHost("bad-host!".to_string());
    assert_eq!(err.describe(), "invalid host: bad-host!");
}

#[test]
fn transport_error_invalid_port_boundary_65535() {
    let err = TransportError::InvalidPort(65535);
    assert_eq!(err.describe(), "port must be between 1 and 65535, got 65535");
}

#[test]
fn validate_host_port_rejects_both_invalid() {
    let result = Manager::validate_host_port("", 0);
    assert!(matches!(result.unwrap_err(), TransportError::InvalidHost(_)));
}

#[test]
fn health_response_serializes_correctly() {
    let tm = Manager::new(None);
    let json = to_value(&tm.build_health_response(float(1.25)));
    assert!(json.get("status").is_some());
    assert!(json.get("uptime_seconds").is_some());
    assert!(json.get("module_count").is_some());
}

#[test]
fn cancel_handler_invocation() {
    let mut told: Vec<String> = vec![];
    let mut tm = Manager::new(None);
    assert!(tm.notify_cancel("sess-0").is_none());
    tm.set_cancel_handler(true);
    told.extend(tm.notify_cancel("sess-1"));
    told.extend(tm.notify_cancel("sess-2"));
    assert_eq!(told.len(), 2);
    assert_eq!(told, vec!["sess-1".to_string(), "sess-2".to_string()]);
}

#[test]
fn http_auth_config_default() {
    let cfg = HttpAuthConfig::default();
    assert!(!cfg.authenticator);
    assert!(!cfg.require_auth);
    assert!(cfg.explorer_prefix.is_none());
    assert!(cfg.exempt_paths.is_none());
}

#[test]
fn http_auth_config_debug_does_not_panic() {
    let cfg = HttpAuthConfig::default();
    let debug = format!("{:?}", cfg);
    assert!(debug.contains("HttpAuthConfig"));
}

#[test]
fn http_auth_config_clone() {
    let cfg = HttpAuthConfig {
        require_auth: true,
        explorer_prefix: Some("/explorer".into()),
        ..Default::default()
    };
    let cloned = cfg.clone();
    assert!(cloned.require_auth);
    assert_eq!(cloned.explorer_prefix.as_deref(), Some("/explorer"));
}

#[test]
fn apply_auth_layer_without_authenticator_is_noop() {
    assert!(apply_auth_layer(&HttpAuthConfig::default()).is_none());
}

#[test]
fn apply_auth_layer_exempts_the_explorer_and_paths() {
    let layer = apply_auth_layer(&HttpAuthConfig {
        authenticator: true,
        require_auth: true,
        explorer_prefix: Some("/explorer".into()),
        exempt_paths: Some(vec!["/health".into(), "metrics".into()]),
    })
    .unwrap();
    assert!(layer.require_auth);
    assert_eq!(layer.exempt_get_prefixes, vec!["/explorer", "/explorer/"]);
    assert_eq!(layer.exempt_paths.unwrap(), vec!["/health", "/metrics"]);
    let bare = apply_auth_layer(&HttpAuthConfig { authenticator: true, ..Default::default() });
    let bare = bare.unwrap();
    assert!(bare.exempt_get_prefixes.is_empty());
    assert!(bare.exempt_paths.is_none());
}

#[test]
fn lines_are_read() {
    let message = read_line("  {\"jsonrpc\":\"2.0\",\"id\":1,\"method\":\"x\"}\t\n").unwrap();
    assert_eq!(to_value(&message)["id"], 1);
    assert!(read_line("   \t\n").is_none());
    assert!(read_line("").is_none());
    assert!(read_line("not json\n").is_none());
    assert!(read_line("").is_none());
    assert_eq!(read_line("\u{a0}\u{3000}7\u{2028}").unwrap().as_i64(), Some(7));
    assert!(read_line("\u{200b}7").is_none());
}

#[test]
fn lines_are_written_and_read_back() {
    let response = json(r#"{"a":[1,null,"x"],"b":2.5}"#);
    let line = write_line(&response).unwrap();
    assert!(line.ends_with('\n'));
    assert_eq!(line.matches('\n').count(), 1);
    assert_eq!(to_value(&read_line(&line).unwrap()), to_value(&response));
}

#[test]
fn replies_over_http() {
    let metrics = metrics_reply(&Ok("up 1".to_string()));
    assert_eq!(metrics.status, 200);
    assert_eq!(
        metrics.content_type.as_deref(),
        Some("text/plain; version=0.0.4; charset=utf-8")
    );
    assert_eq!(metrics.body.as_deref(), Some("up 1"));
    assert_eq!(metrics_reply(&Err(())).status, 404);
    let usage = usage_reply(&Ok(json(r#"{"modules":[]}"#)));
    assert_eq!(usage.body.as_deref(), Some(r#"{"modules":[]}"#));
    assert_eq!(usage.content_type.as_deref(), Some("application/json"));
    assert_eq!(usage_reply(&Err(())).status, 404);
    let posted = post_reply(Some(&json(r#"{"id":1}"#)), "s");
    assert_eq!(posted.status, 200);
    assert_eq!(posted.session_id.as_deref(), Some("s"));
    assert_eq!(posted.body.as_deref(), Some(r#"{"id":1}"#));
    let accepted = post_reply(None, "s");
    assert_eq!(accepted.status, 202);
    assert_eq!(accepted.session_id.as_deref(), Some("s"));
    assert!(accepted.body.is_none());
    assert_eq!(delivery_reply(true).status, 202);
    assert_eq!(delivery_reply(false).status, 400);
    assert_eq!(delivery_reply(false).body.as_deref(), Some("session closed"));
}

#[test]
fn usage_is_summed_up() {
    let summary = UsageSummary {
        module_id: "m".into(),
        call_count: 4,
        error_count: 1,
        avg_latency_ms: float(2.5),
        unique_callers: 2,
        trend: "stable".into(),
    };
    let usage = to_value(&usage_json(&vec![summary]));
    assert_eq!(usage["modules"][0]["module_id"], "m");
    assert_eq!(usage["modules"][0]["call_count"], 4);
    assert_eq!(usage["modules"][0]["error_count"], 1);
    assert_eq!(usage["modules"][0]["avg_latency_ms"], 2.5);
    assert_eq!(usage["modules"][0]["unique_callers"], 2);
    assert_eq!(usage["modules"][0]["trend"], "stable");
    let none = to_value(&usage_json(&vec![]));
    assert_eq!(none["modules"], Value::Array(vec![]));
}

#[test]
fn trailing_slashes_redirect() {
    assert_eq!(trailing_slash_redirect("/mcp/").as_deref(), Some("/mcp"));
    assert_eq!(trailing_slash_redirect("/mcp///").as_deref(), Some("/mcp"));
    assert_eq!(trailing_slash_redirect("//").as_deref(), Some(""));
    assert!(trailing_slash_redirect("/").is_none());
    assert!(trailing_slash_redirect("/mcp").is_none());
    assert!(trailing_slash_redirect("").is_none());
}

#[test]
fn endpoints_name_the_session() {
    assert_eq!(streamable_endpoint("abc"), "/mcp?sessionId=abc");
    assert_eq!(sse_endpoint("abc"), "/messages/?sessionId=abc");
}

#[test]
fn messages_go_to_the_stream_they_name() {
    let mut manager = Manager::new(None);
    manager.set_cancel_handler(true);
    let mut sessions = SseSessions::new();
    sessions.register("a");
    sessions.register("b");
    assert_eq!(sessions.len(), 2);
    assert!(matches!(sessions.route(Some("a")), MessageRoute::Deliver(id) if id == "a"));
    match sessions.route(Some("c")) {
        MessageRoute::Reject(reply) => {
            assert_eq!(reply.status, 400);
            assert_eq!(reply.body.as_deref(), Some("unknown session"));
        }
        MessageRoute::Deliver(_) => panic!("there is no such session"),
    }
    match sessions.route(None) {
        MessageRoute::Reject(reply) => assert_eq!(
            reply.body.as_deref(),
            Some("missing sessionId query parameter; use the URL from the endpoint event")
        ),
        MessageRoute::Deliver(_) => panic!("no session was named"),
    }
    assert_eq!(sessions.close("a", &manager).as_deref(), Some("a"));
    assert!(!sessions.contains("a"));
    assert!(sessions.contains("b"));
}

#[test]
fn a_failed_bind_is_described() {
    let err = TransportError::Bind {
        host: "h".into(),
        port: 80,
        source: "in use".into(),
    };
    assert_eq!(err.describe(), "failed to bind to h:80: in use");
}

/// Answers a request with its params; a notification gets no answer.
fn echo(message: &Json) -> Option<Json> {
    let id = message.get("id")?;
    let params = message.get("params").cloned().unwrap_or(Json::Null);
    Some(
        Json::object()
            .with("jsonrpc", Json::text("2.0"))
            .with("id", id.clone())
            .with("result", params),
    )
}

/// What is written for what is read, line by line.
fn serve_lines(input: &str) -> String {
    let mut output = String::new();
    for line in input.split_inclusive('\n') {
        if let Some(response) = read_line(line).as_ref().and_then(echo) {
            output.push_str(&write_line(&response).unwrap());
        }
    }
    output
}

fn responses(output: &str) -> Vec<Value> {
    output.trim().split('\n').map(|line| to_value(&json(line))).collect()
}

#[test]
fn stdio_reads_jsonrpc_request_and_writes_response() {
    let input = r#"{"jsonrpc":"2.0","id":1,"method":"ping","params":{}}"#.to_string() + "\n";
    let answered = responses(&serve_lines(&input));
    assert_eq!(answered[0]["jsonrpc"], "2.0");
    assert_eq!(answered[0]["id"], 1);
}

#[test]
fn stdio_eof_returns_ok() {
    assert!(serve_lines("").is_empty());
}

#[test]
fn stdio_invalid_json_is_skipped() {
    let input = "not-json\n{\"jsonrpc\":\"2.0\",\"id\":2,\"method\":\"test\"}\n";
    let answered = responses(&serve_lines(input));
    assert_eq!(answered.len(), 1);
    assert_eq!(answered[0]["id"], 2);
}

#[test]
fn stdio_notification_produces_no_output() {
    let input = r#"{"jsonrpc":"2.0","method":"notify"}"#.to_string() + "\n";
    assert!(serve_lines(&input).is_empty());
}

#[test]
fn stdio_multiple_requests() {
    let input = [
        r#"{"jsonrpc":"2.0","id":1,"method":"a"}"#,
        "\n",
        r#"{"jsonrpc":"2.0","id":2,"method":"b"}"#,
        "\n",
    ]
    .concat();
    let answered = responses(&serve_lines(&input));
    assert_eq!(answered.len(), 2);
    assert_eq!(answered[0]["id"], 1);
    assert_eq!(answered[1]["id"], 2);
}

#[test]
fn stdio_empty_lines_are_skipped() {
    let input = "\n\n{\"jsonrpc\":\"2.0\",\"id\":1,\"method\":\"x\"}\n\n";
    assert_eq!(responses(&serve_lines(input)).len(), 1);
}

#[test]
fn stdio_whitespace_only_lines_are_skipped() {
    let input = "   \n\t\n{\"jsonrpc\":\"2.0\",\"id\":1,\"method\":\"x\"}\n";
    let answered = responses(&serve_lines(input));
    assert_eq!(answered.len(), 1);
    assert_eq!(answered[0]["id"], 1);
}

#[test]
fn stdio_response_ends_with_newline() {
    let input = r#"{"jsonrpc":"2.0","id":1,"method":"ping"}"#.to_string() + "\n";
    assert!(serve_lines(&input).as_bytes().last() == Some(&b'\n'));
}

#[test]
fn stdio_mixed_notifications_and_requests() {
    let input = [
        r#"{"jsonrpc":"2.0","method":"notify1"}"#,
        "\n",
        r#"{"jsonrpc":"2.0","id":1,"method":"req1"}"#,
        "\n",
        r#"{"jsonrpc":"2.0","method":"notify2"}"#,
        "\n",
        r#"{"jsonrpc":"2.0","id":2,"method":"req2"}"#,
        "\n",
    ]
    .concat();
    assert_eq!(responses(&serve_lines(&input)).len(), 2);
}

#[test]
fn health_handler_returns_json() {
    let health = to_value(&Manager::new(None).build_health_response(float(0.25)));
    assert_eq!(health["status"], "ok");
    assert_eq!(health["module_count"], 0);
    assert!(health["uptime_seconds"].as_f64().unwrap() >= 0.0);
}

#[test]
fn health_handler_reflects_module_count() {
    let mut manager = Manager::new(None);
    manager.set_module_count(7);
    let health = to_value(&manager.build_health_response(float(0.0)));
    assert_eq!(health["module_count"], 7);
}

#[test]
fn metrics_handler_returns_404_without_exporter() {
    let metrics = Manager::new(None).build_metrics_response();
    assert_eq!(metrics_reply(&metrics).status, 404);
}

struct FixedMetrics(&'static str);

impl MetricsExporter for FixedMetrics {
    fn export_prometheus(&self) -> String {
        self.0.to_string()
    }
}

#[test]
fn metrics_handler_returns_prometheus_text_with_exporter() {
    let exporter = FixedMetrics("# TYPE gauge\nmy_metric 42\n");
    let reply = metrics_reply(&metrics_of(exporter));
    assert_eq!(reply.status, 200);
    let content_type = reply.content_type.unwrap();
    assert_eq!(content_type, "text/plain; version=0.0.4; charset=utf-8");
    assert_eq!(reply.body.unwrap(), "# TYPE gauge\nmy_metric 42\n");
}

#[test]
fn integration_metrics_endpoint_200_with_exporter() {
    let exporter = FixedMetrics("# HELP test\ntest_total 99\n");
    let reply = metrics_reply(&metrics_of(exporter));
    assert_eq!(reply.status, 200);
    assert_eq!(reply.body.unwrap(), "# HELP test\ntest_total 99\n");
}

#[test]
fn integration_usage_endpoint_404_without_exporter() {
    let usage = Manager::new(None).build_usage_response();
    assert_eq!(usage_reply(&usage).status, 404);
}

struct FixedUsage;

impl UsageExporter for FixedUsage {
    fn export_json(&self) -> Json {
        json(r#"{"modules": [{"module_id": "a", "call_count": 1}]}"#)
    }
}

#[test]
fn integration_usage_endpoint_200_with_exporter() {
    let reply = usage_reply(&usage_of(FixedUsage));
    assert_eq!(reply.status, 200);
    assert!(json(&reply.body.unwrap()).get("modules").is_some());
}

#[test]
fn streamable_http_post_mcp_returns_jsonrpc_response() {
    let message =
        json(r#"{"jsonrpc": "2.0", "id": 42, "method": "tools/list", "params": {}}"#);
    let reply = post_reply(echo(&message).as_ref(), "s1");
    assert_eq!(reply.status, 200);
    assert!(reply.session_id.is_some());
    let body = to_value(&json(&reply.body.unwrap()));
    assert_eq!(body["jsonrpc"], "2.0");
    assert_eq!(body["id"], 42);
}

#[test]
fn streamable_http_post_notification_returns_202() {
    let message = json(r#"{"jsonrpc": "2.0", "method": "notifications/initialized"}"#);
    assert_eq!(post_reply(echo(&message).as_ref(), "s1").status, 202);
}

#[test]
fn streamable_http_post_mcp_returns_session_id_header() {
    let minted = new_session_id();
    let message = json(r#"{"jsonrpc":"2.0","id":1,"method":"test"}"#);
    let session_id = post_reply(echo(&message).as_ref(), &minted).session_id.unwrap();
    assert_eq!(session_id.len(), 36);
    assert!(uuid::Uuid::parse_str(&session_id).is_ok());
    assert_eq!(session_id, minted);
    assert_ne!(new_session_id(), minted);
}

#[test]
fn run_streamable_http_rejects_empty_host() {
    let result = Manager::validate_host_port("", 8080);
    assert!(matches!(result, Err(TransportError::InvalidHost(_))));
}

#[test]
fn run_streamable_http_rejects_port_zero() {
    let result = Manager::validate_host_port("localhost", 0);
    assert!(matches!(result, Err(TransportError::InvalidPort(0))));
}

#[test]
fn run_sse_rejects_empty_host() {
    let result = Manager::validate_host_port("", 8080);
    assert!(matches!(result, Err(TransportError::InvalidHost(_))));
}

#[test]
fn run_sse_rejects_port_zero() {
    let result = Manager::validate_host_port("localhost", 0);
    assert!(matches!(result, Err(TransportError::InvalidPort(0))));
}

#[test]
fn sse_messages_post_returns_202_for_a_live_session() {
    let mut sessions = SseSessions::new();
    sessions.register("live");
    match sessions.route(Some("live")) {
        MessageRoute::Deliver(session_id) => assert_eq!(session_id, "live"),
        MessageRoute::Reject(_) => panic!("rejected"),
    }
    assert_eq!(delivery_reply(true).status, 202);
}

#[test]
fn sse_messages_post_rejects_missing_session_id() {
    match SseSessions::new().route(None) {
        MessageRoute::Reject(reply) => assert_eq!(reply.status, 400),
        MessageRoute::Deliver(_) => panic!("delivered"),
    }
}

#[test]
fn sse_messages_post_rejects_unknown_session_id() {
    match SseSessions::new().route(Some("no-such-session")) {
        MessageRoute::Reject(reply) => assert_eq!(reply.status, 400),
        MessageRoute::Deliver(_) => panic!("delivered"),
    }
}

#[test]
fn sse_disconnect_deregisters_the_session() {
    let manager = Manager::new(None);
    let mut sessions = SseSessions::new();
    sessions.register("s1");
    assert!(sessions.contains("s1"));
    sessions.close("s1", &manager);
    assert_eq!(sessions.len(), 0);
    match sessions.route(Some("s1")) {
        MessageRoute::Reject(reply) => {
            assert_eq!(reply.status, 400);
            assert_eq!(reply.body.unwrap(), "unknown session");
        }
        MessageRoute::Deliver(_) => panic!("delivered"),
    }
}

fn dispatched(params: &str, session_id: &str) -> Value {
    let mut message = Json::object()
        .with("jsonrpc", Json::text("2.0"))
        .with("id", Json::integer(1))
        .with("method", Json::text("test"))
        .with("params", json(params));
    stamp_session_id(&mut message, session_id);
    to_value(&echo(&message).unwrap())
}

#[test]
fn sse_dispatch_stamps_the_connection_session_id() {
    assert_eq!(dispatched("{}", "s1")["result"]["_meta"]["sessionId"], "s1");
}

#[test]
fn sse_dispatch_overwrites_a_client_supplied_session_id() {
    let params = r#"{"_meta": {"sessionId": "victim-session", "progressToken": 7}}"#;
    let response = dispatched(params, "s1");
    assert_eq!(response["result"]["_meta"]["sessionId"], "s1");
    assert_eq!(response["result"]["_meta"]["progressToken"], 7);
}
