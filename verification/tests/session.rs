use apcore_mcp_server::json::{Json, JsonObject};
use apcore_mcp_server::session::{
    self, ElicitAction, ElicitResult, McpSession, SessionError, SessionRegistry, Waited,
    DEFAULT_ELICIT_TIMEOUT_SECS,
};
use apcore_mcp_server::value::{from_text, to_value};
use std::time::Duration;

fn json(text: &str) -> Json {
    from_text(text).unwrap()
}

/// Reads what a client answers a form with.
fn parse(document: &Json) -> Result<ElicitResult, String> {
    let action = match document.get("action").and_then(|action| action.as_str()) {
        Some("accept") => ElicitAction::Accept,
        Some("decline") => ElicitAction::Decline,
        Some("cancel") => ElicitAction::Cancel,
        Some(other) => return Err(format!("unknown variant `{other}`")),
        None => return Err("missing field `action`".to_string()),
    };
    let content = document.get("content").filter(|content| !content.is_null()).cloned();
    Ok(ElicitResult { action, content })
}

fn read_elicitation(response: &Json) -> Result<ElicitResult, SessionError> {
    session::read_elicitation(response, parse)
}

fn capable(id: &str) -> McpSession {
    let mut session = McpSession::new(id);
    session.set_client_capabilities(json(r#"{ "elicitation": {} }"#));
    session
}

/// The answer to the request `id` with this result.
fn answer(id: &str, result: &str) -> Json {
    Json::object()
        .with("jsonrpc", Json::text("2.0"))
        .with("id", Json::text(id))
        .with("result", json(result))
}

#[test]
fn elicit_is_refused_when_the_client_never_declared_the_capability() {
    let mut session = McpSession::new("s1");
    let error = session.elicit_form("approve?", &json("{}")).unwrap_err();
    assert!(error.describe().contains("elicitation capability"));
    assert_eq!(session.pending_count(), 0);
}

#[test]
fn elicit_is_refused_when_initialize_declared_other_capabilities_only() {
    let mut session = McpSession::new("s1");
    session.set_client_capabilities(json(r#"{ "roots": {} }"#));
    assert!(!session.supports_elicitation());
    assert!(session.elicit_form("approve?", &json("{}")).is_err());
}

#[test]
fn a_capability_that_is_null_is_none() {
    let mut session = McpSession::new("s1");
    session.set_client_capabilities(json(r#"{ "elicitation": null }"#));
    assert!(!session.supports_elicitation());
}

#[test]
fn elicit_sends_a_conforming_request_and_returns_the_client_answer() {
    let mut session = capable("s1");
    let schema = json(r#"{"type": "object", "properties": { "confirm": { "type": "boolean" } }}"#);
    let (id, request) = session.elicit_form("approve demo.gated?", &schema).unwrap();
    assert!(id.starts_with("apcore-mcp-"));
    assert_eq!(id.len(), "apcore-mcp-".len() + 36);
    assert_eq!(session.pending_count(), 1);

    let request = to_value(&request);
    assert_eq!(request["jsonrpc"], "2.0");
    assert_eq!(request["method"], "elicitation/create");
    assert_eq!(request["params"]["message"], "approve demo.gated?");
    assert_eq!(request["params"]["requestedSchema"], to_value(&schema));
    assert_eq!(request["id"], id.as_str());

    let response = answer(&id, r#"{"action": "accept", "content": { "confirm": true }}"#);
    assert_eq!(session.try_take_response(&response), Some(id));
    assert_eq!(session.pending_count(), 0);
    let received = session.await_outcome(Waited::Answered(response)).unwrap();
    let result = read_elicitation(&received).unwrap();
    assert_eq!(result.action, ElicitAction::Accept);
    assert_eq!(to_value(&result.content.unwrap())["confirm"], true);
}

#[test]
fn elicit_reports_a_declining_client_without_inventing_an_answer() {
    let mut session = capable("s1");
    let (id, _) = session.elicit_form("approve?", &json("{}")).unwrap();
    let response = answer(&id, r#"{ "action": "decline" }"#);
    let result = read_elicitation(&response).unwrap();
    assert_eq!(result.action, ElicitAction::Decline);
    assert!(result.content.is_none());
}

#[test]
fn each_request_gets_its_own_id() {
    let mut session = capable("s1");
    let (first, _) = session.elicit_form("first", &json("{}")).unwrap();
    let (second, _) = session.elicit_form("second", &json("{}")).unwrap();
    assert_ne!(first, second);
    assert_eq!(session.pending_count(), 2);
}

#[test]
fn a_client_error_response_fails_the_call_rather_than_approving_it() {
    let response = json(
        r#"{"jsonrpc": "2.0", "id": "x",
            "error": { "code": -32601, "message": "elicitation not implemented" }}"#,
    );
    let error = read_elicitation(&response).unwrap_err();
    assert!(error.describe().contains("elicitation not implemented"));
    let silent = read_elicitation(&json(r#"{"error": {"code": 1}}"#)).unwrap_err();
    assert!(silent.describe().contains("unspecified"));
}

#[test]
fn a_malformed_result_fails_the_call() {
    let error = read_elicitation(&answer("x", r#"{ "notAnAction": true }"#)).unwrap_err();
    assert_eq!(error.describe(), "malformed elicitation result: missing field `action`");
    assert_eq!(
        read_elicitation(&json("{}")).unwrap_err().describe(),
        "malformed elicitation result: response has neither result nor error"
    );
    assert!(read_elicitation(&answer("x", r#"{ "action": "maybe" }"#)).is_err());
    let cancelled = read_elicitation(&answer("x", r#"{ "action": "cancel", "content": null }"#));
    let cancelled = cancelled.unwrap();
    assert_eq!(cancelled.action, ElicitAction::Cancel);
    assert!(cancelled.content.is_none());
}

#[test]
fn a_failed_write_does_not_leak_a_pending_entry() {
    let mut session = capable("s1");
    let (id, _) = session.elicit_form("approve?", &json("{}")).unwrap();
    session.release(&id);
    assert_eq!(session.pending_count(), 0);
    assert_eq!(
        SessionError::Send("closed".to_string()).describe(),
        "failed to send request to client: closed"
    );
}

#[test]
fn a_silent_client_times_out_and_leaves_no_pending_entry() {
    let mut session = capable("s1").with_elicit_timeout(Duration::from_secs(30));
    let (id, _) = session.elicit_form("approve?", &json("{}")).unwrap();
    let error = session.await_outcome(Waited::TimedOut).unwrap_err();
    assert!(error.describe().contains("did not answer"));
    assert!(error.describe().contains("30s"));
    session.release(&id);
    assert_eq!(session.pending_count(), 0);
}

#[test]
fn the_limit_on_waiting_is_five_minutes() {
    assert_eq!(DEFAULT_ELICIT_TIMEOUT_SECS, 300);
    let error = McpSession::new("s").await_outcome(Waited::TimedOut).unwrap_err();
    assert!(matches!(error, SessionError::Timeout(limit) if limit == Duration::from_secs(300)));
    let short = McpSession::new("s").with_elicit_timeout(Duration::from_nanos(1_500));
    let error = short.await_outcome(Waited::TimedOut).unwrap_err();
    assert_eq!(error.describe(), "client did not answer within 1.5µs");
}

#[test]
fn a_message_with_a_method_is_never_taken_as_a_response() {
    let mut session = capable("s1");
    let (id, _) = session.elicit_form("approve?", &json("{}")).unwrap();
    let request = Json::object()
        .with("jsonrpc", Json::text("2.0"))
        .with("id", Json::text(&id))
        .with("method", Json::text("tools/call"))
        .with("params", Json::Object(JsonObject::new()));
    assert!(session.try_take_response(&request).is_none());
    assert_eq!(session.pending_count(), 1);
    session.close();
    assert!(session.await_outcome(Waited::Closed).is_err());
}

#[test]
fn an_unknown_id_is_passed_through_rather_than_swallowed() {
    let mut session = McpSession::new("s1");
    assert!(session.try_take_response(&answer("never-issued", "{}")).is_none());
}

#[test]
fn ids_are_matched_by_what_they_show() {
    let mut session = McpSession::new("s1");
    session.register("7");
    assert_eq!(
        session.try_take_response(&json(r#"{"id": 7, "result": {}}"#)),
        Some("7".to_string())
    );
    session.register("-3");
    assert_eq!(
        session.try_take_response(&json(r#"{"id": -3, "result": {}}"#)),
        Some("-3".to_string())
    );
    session.register("2.5");
    assert_eq!(
        session.try_take_response(&json(r#"{"id": 2.5, "result": {}}"#)),
        Some("2.5".to_string())
    );
    session.register("null");
    assert!(session.try_take_response(&json(r#"{"id": null, "result": {}}"#)).is_none());
    assert!(session.try_take_response(&json(r#"{"result": {}}"#)).is_none());
}

#[test]
fn closing_the_session_wakes_a_waiting_call() {
    let mut session = capable("s1").with_elicit_timeout(Duration::from_secs(3600));
    session.elicit_form("approve?", &json("{}")).unwrap();
    session.close();
    assert_eq!(session.pending_count(), 0);
    let error = session.await_outcome(Waited::Closed).unwrap_err();
    assert!(error.describe().contains("session closed"));
}

#[test]
fn the_registry_resolves_a_session_by_id_and_forgets_it_on_removal() {
    let mut registry = SessionRegistry::new();
    assert!(registry.is_empty());
    registry.insert(McpSession::new("s1"));
    assert_eq!(registry.len(), 1);
    assert_eq!(registry.get("s1").unwrap().id(), "s1");
    assert!(registry.get("s2").is_none());
    registry.remove("s1");
    assert!(registry.get("s1").is_none());
    assert!(registry.is_empty());
}

#[test]
fn removing_a_session_from_the_registry_wakes_its_waiters() {
    let mut registry = SessionRegistry::default();
    let mut session = capable("s1");
    session.elicit_form("approve?", &json("{}")).unwrap();
    registry.insert(session);
    let removed = registry.remove("s1").unwrap();
    assert_eq!(removed.pending_count(), 0);
    assert!(registry.remove("s1").is_none());
}

#[test]
fn a_session_takes_the_place_of_another_with_its_id() {
    let mut registry = SessionRegistry::new();
    let mut first = McpSession::new("s1");
    first.register("old");
    registry.insert(first);
    registry.insert(McpSession::new("s1"));
    assert_eq!(registry.len(), 1);
    assert_eq!(registry.get("s1").unwrap().pending_count(), 0);
}

#[test]
fn a_session_is_taken_out_as_it_is_and_put_back() {
    let mut registry = SessionRegistry::new();
    let mut session = McpSession::new("s1");
    session.register("k");
    registry.insert(session);
    registry.insert(McpSession::new("s2"));
    assert!(registry.take_out("s3").is_none());
    let mut taken = registry.take_out("s1").unwrap();
    assert_eq!(taken.pending_count(), 1);
    assert!(registry.get("s1").is_none());
    assert_eq!(taken.try_take_response(&answer("k", "{}")), Some("k".to_string()));
    registry.insert(taken);
    assert_eq!(registry.len(), 2);
    assert_eq!(registry.get("s1").unwrap().pending_count(), 0);
}

/// Whether `id` has the hyphenated notation of a UUID.
fn is_uuid(id: &str) -> bool {
    id.len() == 36
        && id.char_indices().all(|(i, c)| match i {
            8 | 13 | 18 | 23 => c == '-',
            _ => c.is_ascii_digit() || ('a'..='f').contains(&c),
        })
}

#[test]
fn requests_have_the_prefix_and_a_uuid_for_their_ids() {
    let mut session = capable("s1");
    let (asked, _) = session.request("roots/list", Json::object());
    assert!(is_uuid(asked.strip_prefix("apcore-mcp-").unwrap()));
    let (elicited, _) = session.elicit_form("approve?", &json("{}")).unwrap();
    assert!(is_uuid(elicited.strip_prefix("apcore-mcp-").unwrap()));
    assert_ne!(asked, elicited);
}

#[test]
fn each_answer_leaves_one_request_fewer() {
    let mut session = capable("s1");
    let (first, _) = session.request("roots/list", Json::object());
    let (second, _) = session.request("roots/list", Json::object());
    assert_eq!(session.pending_count(), 2);
    assert!(session.try_take_response(&answer(&first, "{}")).is_some());
    assert_eq!(session.pending_count(), 1);
    assert!(session.try_take_response(&answer(&first, "{}")).is_none());
    assert_eq!(session.pending_count(), 1);
    assert!(session.try_take_response(&answer(&second, "{}")).is_some());
    assert_eq!(session.pending_count(), 0);
}
