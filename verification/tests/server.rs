use apcore_mcp_server::json::{Json, JsonObject};
use apcore_mcp_server::server::{
    list_docs, read_doc, FactoryError, Handled, MCPServer, MCPServerConfig, ParseTransportError,
    RegistryOrExecutor, RpcResult, ServerHandler, TransportKind,
};
use apcore_mcp_server::types::{
    CallToolResult, InitializationOptions, ServerCapabilities, TextContent, Tool, ToolsCapability,
};
use apcore_mcp_server::value::{from_text, to_value};
use serde_json::Value;
use std::sync::Arc;

fn json(text: &str) -> Json {
    from_text(text).unwrap()
}

#[test]
fn transport_kind_from_str_stdio() {
    assert_eq!("stdio".parse::<TransportKind>().unwrap(), TransportKind::Stdio);
}

#[test]
fn transport_kind_from_str_streamable_http() {
    assert_eq!(
        "streamable-http".parse::<TransportKind>().unwrap(),
        TransportKind::StreamableHttp
    );
}

#[test]
fn transport_kind_from_str_sse() {
    assert_eq!("sse".parse::<TransportKind>().unwrap(), TransportKind::Sse);
}

#[test]
fn transport_kind_from_str_case_insensitive() {
    assert_eq!("STDIO".parse::<TransportKind>().unwrap(), TransportKind::Stdio);
    assert_eq!(
        "Streamable-Http".parse::<TransportKind>().unwrap(),
        TransportKind::StreamableHttp
    );
    assert_eq!("SSE".parse::<TransportKind>().unwrap(), TransportKind::Sse);
}

#[test]
fn transport_kind_from_str_unknown_returns_err() {
    let result = "unknown".parse::<TransportKind>();
    assert!(result.is_err());
    assert_eq!(result.unwrap_err().describe(), "unknown transport: \"unknown\"");
}

#[test]
fn transport_kind_stdio_address() {
    assert_eq!(TransportKind::Stdio.address("127.0.0.1", 8000), "stdio");
}

#[test]
fn transport_kind_streamable_http_address() {
    assert_eq!(
        TransportKind::StreamableHttp.address("127.0.0.1", 8000),
        "http://127.0.0.1:8000"
    );
}

#[test]
fn transport_kind_sse_address() {
    assert_eq!(TransportKind::Sse.address("0.0.0.0", 9090), "http://0.0.0.0:9090");
}

#[test]
fn transport_kind_display() {
    assert_eq!(TransportKind::Stdio.name(), "stdio");
    assert_eq!(TransportKind::StreamableHttp.name(), "streamable-http");
    assert_eq!(TransportKind::Sse.name(), "sse");
}

#[test]
fn config_default_values() {
    let config = MCPServerConfig::default();
    assert_eq!(config.transport, TransportKind::Stdio);
    assert_eq!(config.host, "127.0.0.1");
    assert_eq!(config.port, 8000);
    assert_eq!(config.name, "apcore-mcp");
    assert_eq!(config.version, None);
    assert!(!config.validate_inputs);
    assert!(config.require_auth);
    assert_eq!(config.tags, None);
    assert_eq!(config.prefix, None);
    assert_eq!(config.exempt_paths, None);
}

#[test]
fn config_can_be_customized() {
    let config = MCPServerConfig {
        transport: TransportKind::StreamableHttp,
        host: "0.0.0.0".to_string(),
        port: 9090,
        name: "my-server".to_string(),
        version: Some("1.0.0".to_string()),
        validate_inputs: true,
        require_auth: false,
        tags: Some(vec!["tag1".to_string()]),
        prefix: Some("my_prefix".to_string()),
        exempt_paths: Some(vec!["/_health".to_string()]),
        ..Default::default()
    };
    assert_eq!(config.transport, TransportKind::StreamableHttp);
    assert_eq!(config.host, "0.0.0.0");
    assert_eq!(config.port, 9090);
    assert_eq!(config.name, "my-server");
    assert_eq!(config.version, Some("1.0.0".to_string()));
    assert!(config.validate_inputs);
    assert!(!config.require_auth);
    assert_eq!(config.tags.as_ref().unwrap().len(), 1);
    assert_eq!(config.prefix, Some("my_prefix".to_string()));
    assert!(config.exempt_paths.as_ref().unwrap().contains(&"/_health".to_string()));
}

#[test]
fn server_new_with_config() {
    let config = MCPServerConfig {
        name: "test-server".to_string(),
        transport: TransportKind::StreamableHttp,
        host: "0.0.0.0".to_string(),
        port: 9090,
        ..Default::default()
    };
    let server = MCPServer::new(config);
    assert_eq!(server.name(), "test-server");
    assert_eq!(server.transport(), TransportKind::StreamableHttp);
    assert_eq!(server.address(), "http://0.0.0.0:9090");
}

#[test]
fn server_with_params_legacy_api() {
    let server = MCPServer::with_params("test", "stdio", "127.0.0.1", 0);
    assert_eq!(server.name(), "test");
    assert_eq!(server.transport(), TransportKind::Stdio);
    assert_eq!(server.address(), "stdio");
}

#[test]
fn server_address_delegates_to_transport_kind() {
    let stdio = MCPServer::new(MCPServerConfig::default());
    assert_eq!(stdio.address(), "stdio");

    let http = MCPServer::new(MCPServerConfig {
        transport: TransportKind::StreamableHttp,
        host: "localhost".to_string(),
        port: 3000,
        ..Default::default()
    });
    assert_eq!(http.address(), "http://localhost:3000");
}

#[test]
fn server_config_accessor() {
    let config = MCPServerConfig {
        validate_inputs: true,
        require_auth: false,
        ..Default::default()
    };
    let server = MCPServer::new(config);
    assert!(server.config().validate_inputs);
    assert!(!server.config().require_auth);
}

#[test]
fn registry_or_executor_registry_variant() {
    let reg = Arc::new(apcore::registry::registry::Registry::new());
    let roe = RegistryOrExecutor::Registry(reg);
    assert!(matches!(roe, RegistryOrExecutor::Registry(_)));
    assert_eq!(roe.describe(), "RegistryOrExecutor::Registry(..)");
}

#[test]
fn registry_or_executor_executor_variant() {
    let exec = Arc::new(apcore::executor::Executor::new(
        apcore::registry::registry::Registry::new(),
        apcore::config::Config::default(),
    ));
    let roe = RegistryOrExecutor::Executor(exec);
    assert!(matches!(roe, RegistryOrExecutor::Executor(_)));
    assert_eq!(roe.describe(), "RegistryOrExecutor::Executor(..)");
}

#[test]
fn server_with_registry_or_executor_stores_it() {
    let reg = Arc::new(apcore::registry::registry::Registry::new());
    let roe = RegistryOrExecutor::Registry(reg);
    let server = MCPServer::with_registry_or_executor(roe, MCPServerConfig::default());
    assert!(server.registry_or_executor().is_some());
    assert!(matches!(
        server.registry_or_executor().unwrap(),
        RegistryOrExecutor::Registry(_)
    ));
}

#[test]
fn server_new_has_no_registry_or_executor() {
    let server = MCPServer::new(MCPServerConfig::default());
    assert!(server.registry_or_executor().is_none());
}

#[test]
fn server_not_running_after_construction() {
    let mut server = MCPServer::new(MCPServerConfig::default());
    assert!(!server.is_running());
    let plan = server.stop();
    assert!(!plan.join);
    assert!(!plan.signal);
}

#[test]
fn server_new_with_stdio_address() {
    let server = MCPServer::new(MCPServerConfig::default());
    assert_eq!(server.address(), "stdio");
}

#[test]
fn server_new_with_streamable_http_address() {
    let config = MCPServerConfig {
        transport: TransportKind::StreamableHttp,
        ..Default::default()
    };
    let server = MCPServer::new(config);
    assert_eq!(server.address(), "http://127.0.0.1:8000");
}

#[test]
fn server_new_with_custom_host_port_address() {
    let config = MCPServerConfig {
        transport: TransportKind::StreamableHttp,
        host: "10.0.0.1".to_string(),
        port: 3000,
        ..Default::default()
    };
    let server = MCPServer::new(config);
    assert_eq!(server.address(), "http://10.0.0.1:3000");
}

#[test]
fn server_start_is_idempotent() {
    let mut server = MCPServer::new(MCPServerConfig::default());
    assert!(server.start("0.1.0").is_some());
    assert!(server.is_running());
    assert!(server.start("0.1.0").is_none());
    assert!(server.is_running());
    server.stop();
}

#[test]
fn has_tool_handlers_false_by_default() {
    let server = MCPServer::new(MCPServerConfig::default());
    assert!(!server.has_tool_handlers());
}

#[test]
fn has_resource_handlers_false_by_default() {
    let server = MCPServer::new(MCPServerConfig::default());
    assert!(!server.has_resource_handlers());
}

#[test]
fn has_tool_handlers_true_when_both_set() {
    let mut server = MCPServer::new(MCPServerConfig::default());
    server.set_tools(Vec::new());
    assert!(!server.has_tool_handlers());
    assert!(server.capabilities().tools.is_none());
    assert!(ServerHandler::from_server(&server, make_options()).is_none());

    server.set_tool_calls();
    assert!(server.has_tool_handlers());
    assert!(server.capabilities().tools.is_some());
    assert!(ServerHandler::from_server(&server, make_options()).is_some());
}

#[test]
fn has_resource_handlers_true_when_both_set() {
    let mut server = MCPServer::new(MCPServerConfig::default());
    server.set_listed_docs(JsonObject::new());
    assert!(!server.has_resource_handlers());
    assert!(server.list_resources().is_some());
    assert!(server.read_resource("docs://any").is_none());

    server.set_docs(JsonObject::new());
    assert!(server.has_resource_handlers());
    assert!(server.read_resource("docs://any").is_some());
}

#[test]
fn list_tools_returns_none_when_no_handler() {
    let server = MCPServer::new(MCPServerConfig::default());
    assert!(server.list_tools().is_none());
}

#[test]
fn list_tools_returns_tools_from_handler() {
    let mut server = MCPServer::new(MCPServerConfig::default());
    server.set_tools(vec![Tool {
        name: "test-tool".to_string(),
        description: "A test tool".to_string(),
        input_schema: json(r#"{"type": "object"}"#),
        annotations: None,
        meta: None,
    }]);
    let tools = server.list_tools().unwrap();
    assert_eq!(tools.len(), 1);
    assert_eq!(tools[0].name, "test-tool");
}

#[test]
fn list_resources_returns_none_when_no_handler() {
    let server = MCPServer::new(MCPServerConfig::default());
    assert!(server.list_resources().is_none());
}

#[test]
fn read_resource_returns_none_when_no_handler() {
    let server = MCPServer::new(MCPServerConfig::default());
    assert!(server.read_resource("test://uri").is_none());
}

#[test]
fn address_consistent_before_and_after_start() {
    let config = MCPServerConfig {
        transport: TransportKind::StreamableHttp,
        host: "0.0.0.0".to_string(),
        port: 9090,
        ..Default::default()
    };
    let mut server = MCPServer::new(config);
    let addr_before = server.address();
    let plan = server.start("0.1.0").unwrap();
    assert_eq!(plan.transport, TransportKind::StreamableHttp);
    assert_eq!(plan.host, "0.0.0.0");
    assert_eq!(plan.port, 9090);
    assert!(plan.handler.is_none());
    let addr_during = server.address();
    server.stop();
    let addr_after = server.address();
    assert_eq!(addr_before, "http://0.0.0.0:9090");
    assert_eq!(addr_before, addr_during);
    assert_eq!(addr_during, addr_after);
}

#[test]
fn full_lifecycle_start_stop_wait() {
    let mut server = MCPServer::new(MCPServerConfig::default());
    assert!(!server.is_running());

    server.start("0.1.0");
    assert!(server.is_running());

    let plan = server.stop();
    assert!(plan.signal);
    assert!(plan.join);
    assert!(!server.is_running());

    assert!(!server.wait());
    assert!(!server.is_running());
}

#[test]
fn double_stop_is_safe() {
    let mut server = MCPServer::new(MCPServerConfig::default());
    server.start("0.1.0");
    server.stop();
    let plan = server.stop();
    assert!(!plan.signal);
    assert!(!plan.join);
}

#[test]
fn restart_after_stop() {
    let mut server = MCPServer::new(MCPServerConfig::default());
    assert!(server.start("0.1.0").is_some());
    assert!(server.is_running());
    server.stop();
    assert!(!server.is_running());

    assert!(server.start("0.1.0").is_some());
    assert!(server.is_running());
    server.stop();
}

#[test]
fn waiting_leaves_the_stop_signal_in_place() {
    let mut server = MCPServer::new(MCPServerConfig::default());
    server.start("0.1.0");
    assert!(server.wait());
    let plan = server.stop();
    assert!(plan.signal);
    assert!(!plan.join);
}

#[test]
fn transport_kind_from_str_empty_string_is_error() {
    assert!("".parse::<TransportKind>().is_err());
}

#[test]
fn parse_transport_error_display() {
    let err = ParseTransportError("bad".to_string());
    assert_eq!(err.describe(), "unknown transport: \"bad\"");
}

#[test]
fn transport_kind_clone_and_copy() {
    let t = TransportKind::Sse;
    let t2 = t;
    let t3 = t;
    assert_eq!(t, t2);
    assert_eq!(t, t3);
}

#[test]
fn factory_error_display() {
    let e1 = FactoryError::ResourceNotFound("foo".into());
    assert_eq!(e1.describe(), "Resource not found: foo");

    let e2 = FactoryError::UnsupportedScheme("bar".into());
    assert_eq!(e2.describe(), "Unsupported URI scheme: bar");

    let e3 = FactoryError::Other("something".into());
    assert_eq!(e3.describe(), "something");
}

#[test]
fn factory_errors_of_names_are_described() {
    assert_eq!(
        FactoryError::ReservedPrefix("__apcore_x".into()).describe(),
        "Reserved module id: '__apcore_x' (the '__apcore_' prefix is owned by the async task bridge)"
    );
    assert_eq!(
        FactoryError::InvalidName(256).describe(),
        "Invalid server name: length 256 (must be non-empty and at most 255 characters)"
    );
}

#[test]
fn with_params_falls_back_to_stdio_for_unknown_transport() {
    let server = MCPServer::with_params("test", "invalid-transport", "1.2.3.4", 5555);
    assert_eq!(server.transport(), TransportKind::Stdio);
    assert_eq!(server.address(), "stdio");
}

fn documents() -> JsonObject {
    let mut docs = JsonObject::new();
    docs.insert("math.add", Json::text("Adds numbers."));
    docs.insert("text.join", Json::text("Joins texts."));
    docs
}

fn make_server(with_docs: bool) -> MCPServer {
    let mut server = MCPServer::new(MCPServerConfig::default());
    server.set_tools(vec![Tool {
        name: "test.echo".into(),
        description: "Echo test".into(),
        input_schema: json(r#"{"type": "object"}"#),
        annotations: None,
        meta: None,
    }]);
    server.set_tool_calls();
    if with_docs {
        server.set_listed_docs(documents());
        server.set_docs(documents());
    }
    server
}

fn make_options() -> InitializationOptions {
    InitializationOptions {
        server_name: "test-server".into(),
        server_version: "1.0.0".into(),
        capabilities: ServerCapabilities {
            tools: Some(ToolsCapability { list_changed: true }),
            resources: None,
            extensions: None,
        },
    }
}

fn make_test_handler() -> ServerHandler {
    ServerHandler::from_server(&make_server(false), make_options()).unwrap()
}

fn reply_of(handler: &ServerHandler, message: &str) -> Option<Value> {
    match handler.handle_message(&json(message)) {
        Handled::Reply(reply) => reply.map(|r| to_value(&r)),
        _ => panic!("no reply"),
    }
}

#[test]
fn handler_initialize_returns_capabilities() {
    let h = make_test_handler();
    let resp = reply_of(&h, r#"{"jsonrpc":"2.0","id":1,"method":"initialize","params":{}}"#).unwrap();
    assert_eq!(resp["id"], 1);
    assert!(resp.get("result").is_some());
    assert!(resp.get("error").is_none());
    assert_eq!(resp["result"]["serverInfo"]["name"], "test-server");
    assert_eq!(resp["result"]["serverInfo"]["version"], "1.0.0");
    assert_eq!(resp["result"]["protocolVersion"], "2025-03-26");
    assert_eq!(resp["result"]["capabilities"]["tools"]["listChanged"], true);
    assert_eq!(resp["result"]["capabilities"]["resources"]["listChanged"], false);
}

#[test]
fn handler_tools_list_returns_tools() {
    let h = make_test_handler();
    let resp = reply_of(&h, r#"{"jsonrpc":"2.0","id":2,"method":"tools/list","params":{}}"#).unwrap();
    assert_eq!(resp["result"]["tools"][0]["name"], "test.echo");
}

#[test]
fn handler_tools_call_success() {
    let h = make_test_handler();
    let message = json(
        r#"{"jsonrpc":"2.0","id":3,"method":"tools/call",
            "params":{"name":"test.echo","arguments":{"text":"hello"}}}"#,
    );
    match h.handle_message(&message) {
        Handled::CallTool { id, name, arguments, extra } => {
            assert!(extra.is_none());
            let text = arguments.get("text").unwrap().as_str().unwrap().to_string();
            let result = CallToolResult::new(
                vec![TextContent::new(&format!("{{\"name\":\"{name}\",\"text\":\"{text}\"}}"))],
                false,
            );
            let resp = to_value(&ServerHandler::finish_call(id, &result).unwrap());
            assert_eq!(resp["id"], 3);
            assert_eq!(resp["result"]["isError"], false);
            assert!(resp["result"]["content"][0]["text"].as_str().unwrap().contains("hello"));
        }
        _ => panic!("the tool has to be called"),
    }
}

#[test]
fn handler_unknown_method_returns_error() {
    let h = make_test_handler();
    let resp = reply_of(&h, r#"{"jsonrpc":"2.0","id":4,"method":"foo/bar","params":{}}"#).unwrap();
    assert!(resp.get("error").is_some());
    assert!(resp.get("result").is_none());
    assert_eq!(resp["error"]["code"], -32601);
    assert_eq!(resp["error"]["message"], "unknown method: foo/bar");
}

#[test]
fn handler_missing_method_returns_invalid_request() {
    let h = make_test_handler();
    let resp = reply_of(&h, r#"{"jsonrpc":"2.0","id":5}"#).unwrap();
    assert!(resp.get("error").is_some());
    assert_eq!(resp["error"]["code"], -32600);
}

#[test]
fn handler_tools_call_missing_name_returns_error() {
    let h = make_test_handler();
    let resp = reply_of(
        &h,
        r#"{"jsonrpc":"2.0","id":6,"method":"tools/call","params":{"arguments":{}}}"#,
    )
    .unwrap();
    assert!(resp.get("error").is_some());
    assert_eq!(resp["error"]["code"], -32602);
}

#[test]
fn handler_notification_returns_none() {
    let h = make_test_handler();
    assert!(reply_of(&h, r#"{"jsonrpc":"2.0","method":"notifications/initialized"}"#).is_none());
}

#[test]
fn cancelled_notification_invokes_cancel_handler() {
    let h = make_test_handler().with_cancel_handler();
    let message = json(
        r#"{"jsonrpc": "2.0", "method": "notifications/cancelled",
            "params": {"requestId": "req-42"}}"#,
    );
    match h.handle_message(&message) {
        Handled::Cancel(key) => assert_eq!(key, "req-42"),
        _ => panic!("the cancellation has to be told"),
    }
}

#[test]
fn cancelled_notification_takes_any_id() {
    let h = make_test_handler().with_cancel_handler();
    let numbered = json(r#"{"method": "notifications/cancelled", "params": {"requestId": 7}}"#);
    assert!(matches!(h.handle_message(&numbered), Handled::Cancel(key) if key == "7"));
    let own = json(r#"{"method": "notifications/cancelled", "id": "x"}"#);
    assert!(matches!(h.handle_message(&own), Handled::Cancel(key) if key == "\"x\""));
    let none = json(r#"{"method": "notifications/cancelled"}"#);
    assert!(matches!(h.handle_message(&none), Handled::Cancel(key) if key.is_empty()));
}

#[test]
fn cancelled_notification_without_handler_is_dropped() {
    let h = make_test_handler();
    let message = r#"{"method": "notifications/cancelled", "params": {"requestId": "r"}}"#;
    assert!(reply_of(&h, message).is_none());
}

#[test]
fn tools_call_defaults_its_arguments() {
    let h = make_test_handler();
    let message = json(
        r#"{"id":1,"method":"tools/call","params":{"name":"t","_meta":{"progressToken":1}}}"#,
    );
    match h.handle_message(&message) {
        Handled::CallTool { id, name, arguments, extra } => {
            assert_eq!(id.unwrap().as_i64(), Some(1));
            assert_eq!(name, "t");
            assert!(arguments.is_object());
            assert_eq!(to_value(&extra.unwrap())["progressToken"], 1);
        }
        _ => panic!("the tool has to be called"),
    }
}

#[test]
fn missing_params_are_invalid() {
    let h = make_test_handler();
    let call = reply_of(&h, r#"{"id":1,"method":"tools/call"}"#).unwrap();
    assert_eq!(call["error"]["code"], -32602);
    assert_eq!(call["error"]["message"], "Invalid params: missing 'params'");
    let read = reply_of(&h, r#"{"id":1,"method":"resources/read"}"#).unwrap();
    assert_eq!(read["error"]["message"], "Invalid params: missing 'params'");
    let uri = reply_of(&h, r#"{"id":1,"method":"resources/read","params":{}}"#).unwrap();
    assert_eq!(uri["error"]["message"], "Invalid params: missing 'uri' in params");
}

#[test]
fn resources_without_documents() {
    let h = make_test_handler();
    let listed = reply_of(&h, r#"{"id":1,"method":"resources/list"}"#).unwrap();
    assert_eq!(listed["result"]["resources"].as_array().unwrap().len(), 0);
    let read = reply_of(&h, r#"{"id":1,"method":"resources/read","params":{"uri":"docs://a"}}"#);
    assert_eq!(read.unwrap()["error"]["code"], -32601);
}

#[test]
fn resources_are_listed_and_read() {
    let server = make_server(true);
    let h = ServerHandler::from_server(&server, make_options()).unwrap();
    let listed = reply_of(&h, r#"{"id":1,"method":"resources/list"}"#).unwrap();
    let resources = listed["result"]["resources"].as_array().unwrap().clone();
    assert_eq!(resources.len(), 2);
    assert_eq!(resources[0]["uri"], "docs://math.add");
    assert_eq!(resources[0]["name"], "math.add documentation");
    assert_eq!(resources[0]["mimeType"], "text/plain");
    let read = reply_of(
        &h,
        r#"{"id":1,"method":"resources/read","params":{"uri":"docs://text.join"}}"#,
    )
    .unwrap();
    assert_eq!(read["result"]["contents"][0]["content"], "Joins texts.");
    assert_eq!(read["result"]["contents"][0]["mimeType"], "text/plain");
}

#[test]
fn resources_that_are_not_there() {
    let server = make_server(true);
    let h = ServerHandler::from_server(&server, make_options()).unwrap();
    let missing = reply_of(
        &h,
        r#"{"id":1,"method":"resources/read","params":{"uri":"docs://nothing"}}"#,
    )
    .unwrap();
    assert_eq!(missing["error"]["code"], -32602);
    assert_eq!(missing["error"]["message"], "Resource not found: docs://nothing");
    let other = reply_of(
        &h,
        r#"{"id":1,"method":"resources/read","params":{"uri":"file://x"}}"#,
    )
    .unwrap();
    assert_eq!(other["error"]["message"], "Unsupported URI scheme: file://x");
}

#[test]
fn every_listed_document_can_be_read() {
    let docs = documents();
    let listed = list_docs(&docs);
    assert_eq!(listed.len(), 2);
    for resource in &listed {
        assert!(read_doc(&docs, &resource.uri).is_ok());
    }
    assert!(matches!(
        read_doc(&docs, "docs://gone"),
        Err(FactoryError::ResourceNotFound(_))
    ));
    assert!(matches!(
        read_doc(&docs, "http://x"),
        Err(FactoryError::UnsupportedScheme(_))
    ));
}

#[test]
fn requests_get_answers_and_notifications_do_not() {
    let h = make_test_handler();
    for method in ["initialize", "tools/list", "resources/list", "nonsense"] {
        let asked = format!(r#"{{"id":"q","method":"{method}"}}"#);
        assert_eq!(reply_of(&h, &asked).unwrap()["id"], "q");
        let told = format!(r#"{{"method":"{method}"}}"#);
        assert!(reply_of(&h, &told).is_none());
    }
}

#[test]
fn responses_are_wrapped() {
    let id = Json::integer(9);
    let done = ServerHandler::wrap_response(Some(id), RpcResult::Success(Json::Bool(true)));
    assert_eq!(to_value(&done.unwrap())["result"], true);
    let failed = ServerHandler::wrap_response(
        Some(Json::integer(9)),
        ServerHandler::rpc_error(-32600, "no"),
    );
    let failed = to_value(&failed.unwrap());
    assert_eq!(failed["jsonrpc"], "2.0");
    assert_eq!(failed["id"], 9);
    assert_eq!(failed["error"]["code"], -32600);
    assert_eq!(failed["error"]["message"], "no");
    assert!(ServerHandler::wrap_response(None, RpcResult::Success(Json::Null)).is_none());
    assert!(ServerHandler::wrap_response(Some(Json::Null), RpcResult::Notification).is_none());
}

#[test]
fn options_tell_what_is_offered() {
    let server = make_server(true);
    let options = server.init_options("0.9.0");
    assert_eq!(options.server_name, "apcore-mcp");
    assert_eq!(options.server_version, "0.9.0");
    assert!(options.capabilities.tools.unwrap().list_changed);
    assert!(options.capabilities.resources.unwrap().list_changed);
    let bare = MCPServer::new(MCPServerConfig {
        version: Some("3.0.0".to_string()),
        ..Default::default()
    });
    let options = bare.init_options("0.9.0");
    assert_eq!(options.server_version, "3.0.0");
    assert!(options.capabilities.tools.is_none());
    assert!(options.capabilities.resources.is_none());
    assert!(ServerHandler::from_server(&bare, make_options()).is_none());
}

#[test]
fn stop_on_unstarted_server_is_noop() {
    let mut server = MCPServer::new(MCPServerConfig::default());
    assert!(!server.is_running());
    let plan = server.stop();
    assert!(!plan.signal && !plan.join);
    assert!(!server.is_running());
}

#[test]
fn start_then_stop_does_not_panic() {
    let mut server = MCPServer::new(MCPServerConfig::default());
    assert!(server.start("1.0.0").is_some());
    assert!(server.is_running());
    let plan = server.stop();
    assert!(plan.signal && plan.join);
    assert!(!server.is_running());
}

#[test]
fn after_stop_wait_completes() {
    let mut server = MCPServer::new(MCPServerConfig::default());
    assert!(server.start("1.0.0").is_some());
    server.stop();
    assert!(!server.wait());
}

#[test]
fn wait_on_unstarted_server_returns_immediately() {
    let mut server = MCPServer::new(MCPServerConfig::default());
    assert!(!server.wait());
}

#[test]
fn stop_then_is_running_false() {
    let mut server = MCPServer::new(MCPServerConfig::default());
    server.start("1.0.0");
    assert!(server.is_running());
    server.stop();
    assert!(!server.is_running());
    assert!(!server.stop().signal);
}

#[test]
fn start_with_handlers_drives_transport_and_stops() {
    let config = MCPServerConfig {
        transport: TransportKind::StreamableHttp,
        host: "127.0.0.1".to_string(),
        port: 8123,
        ..Default::default()
    };
    let mut server = MCPServer::new(config);
    server.set_tools(vec![]);
    server.set_tool_calls();
    assert!(server.has_tool_handlers());
    let plan = server.start("1.0.0").unwrap();
    assert!(plan.handler.is_some());
    assert_eq!(plan.transport, TransportKind::StreamableHttp);
    assert_eq!((plan.host.as_str(), plan.port), ("127.0.0.1", 8123));
    assert!(server.is_running());
    server.stop();
    assert!(!server.is_running());
}

#[test]
fn parameters_leave_the_rest_as_by_default() {
    let server = MCPServer::with_params("n", "sse", "0.0.0.0", 9000);
    let config = server.config();
    assert_eq!((config.name.as_str(), config.host.as_str(), config.port), ("n", "0.0.0.0", 9000));
    assert_eq!(config.transport, TransportKind::Sse);
    assert!(!config.allow_execute && !config.output_formatter && config.strategy.is_none());
    assert_eq!(config.explorer_title, "MCP Tool Explorer");
}
