use apcore_mcp_server::async_task_bridge::AsyncTaskBridge;
use apcore_mcp_server::factory::{
    enrich_description, format_intent_label, summarize_trace, tool_result, tool_result_from,
    MCPServerFactory, ModuleSource, ToolAdapters, ToolAnnotationBuilder,
};
use apcore_mcp_server::json::{Json, JsonObject};
use apcore_mcp_server::modules::{ModuleAnnotations, ModuleDescriptor};
use apcore_mcp_server::router::ContentItem;
use apcore_mcp_server::server::FactoryError;
use apcore_mcp_server::types::Tool;
use apcore_mcp_server::value::{from_text, to_value};
use apcore::registry::Registry;
use serde_json::Value;
use std::collections::HashMap;
use std::future::Future;
use std::pin::Pin;

fn json(text: &str) -> Json {
    from_text(text).unwrap()
}

struct MockModule {
    desc: String,
}

impl apcore::module::Module for MockModule {
    fn input_schema(&self) -> Value {
        to_value(&json(r#"{"type": "object", "properties": {"q": {"type": "string"}}}"#))
    }

    fn output_schema(&self) -> Value {
        Value::Object(Default::default())
    }

    fn description(&self) -> &str {
        &self.desc
    }

    fn execute<'a, 'b, 'c>(
        &'a self,
        _inputs: Value,
        _ctx: &'b apcore::context::Context<Value>,
    ) -> Pin<Box<dyn Future<Output = Result<Value, apcore::errors::ModuleError>> + Send + 'c>>
    where
        'a: 'c,
        'b: 'c,
        Self: 'c,
    {
        Box::pin(async { Ok(Value::Object(Default::default())) })
    }
}

/// Takes schemas as they are, and renders a heading, a description and the parameters.
struct PlainAdapters;

impl ToolAdapters for PlainAdapters {
    fn convert_input_schema(&self, schema: &Json) -> Result<Json, String> {
        Ok(schema.clone())
    }

    fn render_markdown(&self, descriptor: &ModuleDescriptor) -> String {
        format!("# {}\n\n{}\n\n## Parameters\n", descriptor.module_id, descriptor.description)
    }
}

fn object(text: &str) -> JsonObject {
    match json(text) {
        Json::Object(entries) => entries,
        _ => panic!("no object"),
    }
}

fn make_descriptor(name: &str, annotations: ModuleAnnotations) -> ModuleDescriptor {
    ModuleDescriptor {
        module_id: name.to_string(),
        description: String::new(),
        documentation: None,
        input_schema: json(r#"{"type": "object", "properties": {"query": {"type": "string"}}}"#),
        output_schema: json("{}"),
        version: "1.0.0".to_string(),
        tags: vec![],
        annotations: Some(annotations),
        metadata: JsonObject::new(),
        display: None,
    }
}

fn make_factory() -> MCPServerFactory {
    MCPServerFactory::new()
}

fn build(
    factory: &MCPServerFactory,
    descriptor: &ModuleDescriptor,
    description: &str,
    name: Option<&str>,
) -> Result<Tool, FactoryError> {
    let schema = PlainAdapters.convert_input_schema(&descriptor.input_schema);
    factory.build_tool(descriptor, description, name, schema)
}

fn make_registry_with_modules(modules: Vec<(&str, &str, Vec<String>)>) -> Registry {
    make_registry_with_modules_and_metadata(
        modules
            .into_iter()
            .map(|(n, d, t)| (n, d, t, HashMap::new()))
            .collect(),
    )
}

fn apcore_descriptor(
    name: &str,
    desc: &str,
    tags: Vec<String>,
    metadata: HashMap<String, Value>,
    display: Option<Value>,
) -> apcore::registry::ModuleDescriptor {
    apcore::registry::ModuleDescriptor {
        module_id: name.to_string(),
        name: None,
        description: desc.to_string(),
        documentation: None,
        input_schema: to_value(&json(
            r#"{"type": "object", "properties": {"q": {"type": "string"}}}"#,
        )),
        output_schema: Value::Object(Default::default()),
        version: "1.0.0".to_string(),
        tags,
        annotations: Some(apcore::module::ModuleAnnotations::default()),
        examples: vec![],
        metadata,
        display,
        sunset_date: None,
        dependencies: vec![],
        enabled: true,
    }
}

fn make_registry_with_modules_and_metadata(
    modules: Vec<(&str, &str, Vec<String>, HashMap<String, Value>)>,
) -> Registry {
    let registry = Registry::new();
    for (name, desc, tags, metadata) in modules {
        let module = Box::new(MockModule { desc: desc.to_string() });
        let descriptor = apcore_descriptor(name, desc, tags, metadata, None);
        registry.register_internal(name, module, descriptor).unwrap();
    }
    registry
}

fn build_tools(
    factory: &MCPServerFactory,
    registry: &Registry,
    tags: Option<&[&str]>,
    prefix: Option<&str>,
) -> Vec<Tool> {
    factory.build_tools(registry, &PlainAdapters, tags, prefix).unwrap()
}

fn overlay(text: &str) -> HashMap<String, Value> {
    HashMap::from([("display".to_string(), to_value(&json(text)))])
}

#[test]
fn test_build_tool_name_is_module_name() {
    let factory = make_factory();
    let desc = make_descriptor("my.module.id", ModuleAnnotations::default());
    let tool = build(&factory, &desc, "A tool", None).unwrap();
    assert_eq!(tool.name, "my.module.id");
}

#[test]
fn test_build_tool_description() {
    let factory = make_factory();
    let desc = make_descriptor("mod.test", ModuleAnnotations::default());
    let tool = build(&factory, &desc, "Reads files from disk", None)
        .unwrap();
    assert_eq!(tool.description, "Reads files from disk");
}

#[test]
fn test_build_tool_input_schema() {
    let factory = make_factory();
    let desc = make_descriptor("mod.test", ModuleAnnotations::default());
    let tool = build(&factory, &desc, "desc", None).unwrap();
    assert_eq!(to_value(&tool.input_schema)["type"], "object");
    assert_eq!(to_value(&tool.input_schema)["properties"]["query"]["type"], "string");
}

#[test]
fn test_build_tool_annotations_mapped() {
    let factory = make_factory();
    let ann = ModuleAnnotations {
        readonly: true,
        destructive: true,
        ..Default::default()
    };
    let desc = make_descriptor("mod.test", ann);
    let tool = build(&factory, &desc, "desc", None).unwrap();
    let annotations = tool.annotations.unwrap();
    assert_eq!(annotations.read_only_hint, Some(true));
    assert_eq!(annotations.destructive_hint, Some(true));
}

#[test]
fn test_build_tool_meta_requires_approval() {
    let factory = make_factory();
    let ann = ModuleAnnotations {
        requires_approval: true,
        ..Default::default()
    };
    let desc = make_descriptor("mod.test", ann);
    let tool = build(&factory, &desc, "desc", None).unwrap();
    let meta = to_value(&tool.meta.unwrap());
    assert_eq!(meta["requiresApproval"], true);
    assert!(meta.get("streaming").is_none());
}

#[test]
fn test_build_tool_meta_streaming() {
    let factory = make_factory();
    let ann = ModuleAnnotations {
        streaming: true,
        ..Default::default()
    };
    let desc = make_descriptor("mod.test", ann);
    let tool = build(&factory, &desc, "desc", None).unwrap();
    let meta = to_value(&tool.meta.unwrap());
    assert_eq!(meta["streaming"], true);
    assert!(meta.get("requiresApproval").is_none());
}

#[test]
fn test_build_tool_meta_both() {
    let factory = make_factory();
    let ann = ModuleAnnotations {
        requires_approval: true,
        streaming: true,
        ..Default::default()
    };
    let desc = make_descriptor("mod.test", ann);
    let tool = build(&factory, &desc, "desc", None).unwrap();
    let meta = to_value(&tool.meta.unwrap());
    assert_eq!(meta["requiresApproval"], true);
    assert_eq!(meta["streaming"], true);
}

#[test]
fn test_build_tool_meta_none() {
    let factory = make_factory();
    let desc = make_descriptor("mod.test", ModuleAnnotations::default());
    let tool = build(&factory, &desc, "desc", None).unwrap();
    assert!(tool.meta.is_none());
}

#[test]
fn test_no_metadata_no_suffix() {
    let result = enrich_description("Base description", None);
    assert_eq!(result, "Base description");
}

#[test]
fn test_empty_metadata_no_suffix() {
    let metadata = JsonObject::new();
    let result = enrich_description("Base description", Some(&metadata));
    assert_eq!(result, "Base description");
}

#[test]
fn test_when_to_use_appended() {
    let mut metadata = JsonObject::new();
    metadata.insert("x-when-to-use", Json::text("Use for reading files"));
    let result = enrich_description("Base description", Some(&metadata));
    assert_eq!(
        result,
        "Base description\n\nWhen To Use: Use for reading files"
    );
}

#[test]
fn test_multiple_intents_appended() {
    let mut metadata = JsonObject::new();
    metadata.insert("x-when-to-use", Json::text("Use for reads"));
    metadata.insert("x-common-mistakes", Json::text("Forgetting the path"));
    let result = enrich_description("Base", Some(&metadata));
    assert!(result.contains("When To Use: Use for reads"));
    assert!(result.contains("Common Mistakes: Forgetting the path"));
    let suffix = result.strip_prefix("Base\n\n").unwrap();
    assert!(suffix.contains('\n'));
}

#[test]
fn test_intent_key_label_formatting() {
    assert_eq!(format_intent_label("x-when-to-use"), "When To Use");
    assert_eq!(format_intent_label("x-when-not-to-use"), "When Not To Use");
    assert_eq!(format_intent_label("x-common-mistakes"), "Common Mistakes");
    assert_eq!(format_intent_label("x-workflow-hints"), "Workflow Hints");
}

#[test]
fn test_empty_intent_value_skipped() {
    let mut metadata = JsonObject::new();
    metadata.insert("x-when-to-use", Json::text(""));
    metadata.insert("x-common-mistakes", Json::text("Don't forget"));
    let result = enrich_description("Base", Some(&metadata));
    assert!(!result.contains("When To Use"));
    assert!(result.contains("Common Mistakes: Don't forget"));
}

#[test]
fn test_non_intent_metadata_ignored() {
    let mut metadata = JsonObject::new();
    metadata.insert("x-custom-field", Json::text("some value"));
    metadata.insert("random-key", Json::text("other value"));
    let result = enrich_description("Base", Some(&metadata));
    assert_eq!(result, "Base");
}

#[test]
fn test_build_tool_with_ai_intent_metadata() {
    let factory = make_factory();
    let mut desc = make_descriptor("files.read", ModuleAnnotations::default());
    desc.metadata.insert("x-when-to-use", Json::text("Use for reading files"));
    desc.metadata.insert("x-common-mistakes", Json::text("Forgetting the path"));
    let tool = build(&factory, &desc, "Read files", None).unwrap();
    assert!(tool.description.starts_with("Read files\n\n"));
    assert!(tool
        .description
        .contains("When To Use: Use for reading files"));
    assert!(tool
        .description
        .contains("Common Mistakes: Forgetting the path"));
}

#[test]
fn test_intent_order_follows_constant() {
    let mut metadata = JsonObject::new();
    metadata.insert("x-workflow-hints", Json::text("hint"));
    metadata.insert("x-when-to-use", Json::text("use"));
    metadata.insert("x-common-mistakes", Json::text("mistake"));
    metadata.insert("x-when-not-to-use", Json::text("not use"));
    let result = enrich_description("Base", Some(&metadata));
    let suffix = result.strip_prefix("Base\n\n").unwrap();
    let lines: Vec<&str> = suffix.lines().collect();
    assert_eq!(lines.len(), 4);
    assert!(lines[0].starts_with("When To Use:"));
    assert!(lines[1].starts_with("When Not To Use:"));
    assert!(lines[2].starts_with("Common Mistakes:"));
    assert!(lines[3].starts_with("Workflow Hints:"));
}

#[test]
fn test_readonly_maps_to_read_only_hint() {
    let ann = ModuleAnnotations {
        readonly: true,
        ..Default::default()
    };
    let result = ToolAnnotationBuilder::build_annotations(Some(&ann));
    assert!(result.read_only_hint);
}

#[test]
fn test_destructive_maps_to_destructive_hint() {
    let ann = ModuleAnnotations {
        destructive: true,
        ..Default::default()
    };
    let result = ToolAnnotationBuilder::build_annotations(Some(&ann));
    assert!(result.destructive_hint);
}

#[test]
fn test_idempotent_maps_to_idempotent_hint() {
    let ann = ModuleAnnotations {
        idempotent: true,
        ..Default::default()
    };
    let result = ToolAnnotationBuilder::build_annotations(Some(&ann));
    assert!(result.idempotent_hint);
}

#[test]
fn test_open_world_maps_to_open_world_hint() {
    let ann = ModuleAnnotations {
        open_world: false,
        ..Default::default()
    };
    let result = ToolAnnotationBuilder::build_annotations(Some(&ann));
    assert!(!result.open_world_hint);
}

#[test]
fn test_default_annotations_mapping() {
    let ann = ModuleAnnotations::default();
    let result = ToolAnnotationBuilder::build_annotations(Some(&ann));
    assert!(!result.read_only_hint);
    assert!(!result.destructive_hint);
    assert!(!result.idempotent_hint);
    assert!(result.open_world_hint);
}

#[test]
fn test_has_requires_approval_true() {
    let ann = ModuleAnnotations {
        requires_approval: true,
        ..Default::default()
    };
    let meta = ToolAnnotationBuilder::build_meta(Some(&ann));
    assert!(meta.requires_approval);
}

#[test]
fn test_has_requires_approval_false() {
    let ann = ModuleAnnotations::default();
    let meta = ToolAnnotationBuilder::build_meta(Some(&ann));
    assert!(!meta.requires_approval);
}

#[test]
fn test_streaming_flag() {
    let ann = ModuleAnnotations {
        streaming: true,
        ..Default::default()
    };
    assert!(ToolAnnotationBuilder::is_streaming(Some(&ann)));
    let meta = ToolAnnotationBuilder::build_meta(Some(&ann));
    assert!(meta.streaming);
}

#[test]
fn test_streaming_flag_false_by_default() {
    let ann = ModuleAnnotations::default();
    assert!(!ToolAnnotationBuilder::is_streaming(Some(&ann)));
}

#[test]
fn test_streaming_flag_none() {
    assert!(!ToolAnnotationBuilder::is_streaming(None));
}

#[test]
fn test_build_meta_value_empty_for_defaults() {
    let ann = ModuleAnnotations::default();
    let meta = ToolAnnotationBuilder::build_meta_value(Some(&ann));
    let meta = to_value(&meta);
    let obj = meta.as_object().unwrap();
    assert!(obj.is_empty());
}

#[test]
fn test_build_meta_value_with_approval_and_streaming() {
    let ann = ModuleAnnotations {
        requires_approval: true,
        streaming: true,
        ..Default::default()
    };
    let meta = ToolAnnotationBuilder::build_meta_value(Some(&ann));
    let meta = to_value(&meta);
    let obj = meta.as_object().unwrap();
    assert_eq!(obj.get("requiresApproval"), Some(&Value::Bool(true)));
    assert_eq!(obj.get("streaming"), Some(&Value::Bool(true)));
}

#[test]
fn test_build_meta_value_none_annotations() {
    let meta = ToolAnnotationBuilder::build_meta_value(None);
    let meta = to_value(&meta);
    let obj = meta.as_object().unwrap();
    assert!(obj.is_empty());
}

#[test]
fn test_build_tools_all_modules() {
    let factory = make_factory();
    let registry = make_registry_with_modules(vec![
        ("mod.a", "Module A", vec![]),
        ("mod.b", "Module B", vec![]),
        ("mod.c", "Module C", vec![]),
    ]);

    let tools = build_tools(&factory, &registry, None, None);
    assert_eq!(tools.len(), 3);
}

#[test]
fn test_build_tools_tag_filter() {
    let factory = make_factory();
    let registry = make_registry_with_modules(vec![
        ("mod.a", "Module A", vec!["search".to_string()]),
        ("mod.b", "Module B", vec!["io".to_string()]),
        (
            "mod.c",
            "Module C",
            vec!["search".to_string(), "io".to_string()],
        ),
    ]);

    let tools = build_tools(&factory, &registry, Some(&["search"]), None);
    let names: Vec<&str> = tools.iter().map(|t| t.name.as_str()).collect();
    assert!(names.contains(&"mod.a"));
    assert!(names.contains(&"mod.c"));
    assert!(!names.contains(&"mod.b"));
}

#[test]
fn test_build_tools_prefix_filter() {
    let factory = make_factory();
    let registry = make_registry_with_modules(vec![
        ("files.read", "Read files", vec![]),
        ("files.write", "Write files", vec![]),
        ("search.query", "Search query", vec![]),
    ]);

    let tools = build_tools(&factory, &registry, None, Some("files."));
    let names: Vec<&str> = tools.iter().map(|t| t.name.as_str()).collect();
    assert!(names.contains(&"files.read"));
    assert!(names.contains(&"files.write"));
    assert!(!names.contains(&"search.query"));
}

#[test]
fn test_build_tools_empty_registry() {
    let factory = make_factory();
    let registry = Registry::new();
    let tools = build_tools(&factory, &registry, None, None);
    assert!(tools.is_empty());
}

#[test]
fn test_build_tools_combined_filters() {
    let factory = make_factory();
    let registry = make_registry_with_modules(vec![
        ("files.read", "Read files", vec!["io".to_string()]),
        (
            "files.write",
            "Write files",
            vec!["io".to_string(), "mutation".to_string()],
        ),
        ("search.query", "Search", vec!["io".to_string()]),
    ]);

    let tools = build_tools(&factory, &registry, Some(&["io"]), Some("files."));
    let names: Vec<&str> = tools.iter().map(|t| t.name.as_str()).collect();
    assert!(names.contains(&"files.read"));
    assert!(names.contains(&"files.write"));
    assert!(!names.contains(&"search.query"));
}

#[test]
fn test_build_tools_descriptions_from_registry() {
    let factory = make_factory();
    let registry =
        make_registry_with_modules(vec![("mod.a", "Custom description for A", vec![])]);

    let tools = build_tools(&factory, &registry, None, None);
    assert_eq!(tools.len(), 1);
    assert_eq!(tools[0].description, "Custom description for A");
}

#[test]
fn test_list_tools_returns_all_tools() {
    let factory = make_factory();
    let mut server = factory.create_server("test", "1.0.0").unwrap();
    let tools = vec![
        Tool {
            name: "tool.a".to_string(),
            description: "A".to_string(),
            input_schema: json("{}"),
            annotations: None,
            meta: None,
        },
        Tool {
            name: "tool.b".to_string(),
            description: "B".to_string(),
            input_schema: json("{}"),
            annotations: None,
            meta: None,
        },
    ];

        factory.register_handlers(&mut server, tools);

    let listed = server.list_tools().unwrap();
    assert_eq!(listed.len(), 2);
    assert_eq!(listed[0].name, "tool.a");
    assert_eq!(listed[1].name, "tool.b");
}

#[test]
fn test_handlers_registered_flag() {
    let factory = make_factory();
    let mut server = factory.create_server("test", "1.0.0").unwrap();
    assert!(!server.has_tool_handlers());

        factory.register_handlers(&mut server, vec![]);
    assert!(server.has_tool_handlers());
}

#[test]
fn test_list_resources_returns_documented_modules() {
    let factory = make_factory();
    let mut server = factory.create_server("test", "1.0.0").unwrap();
    let registry = make_registry_with_modules(vec![
        ("mod.a", "Module A docs", vec![]),
        ("mod.b", "Module B docs", vec![]),
    ]);

    factory.register_resource_handlers(&mut server, &registry);

    let resources = server.list_resources().unwrap();
    assert_eq!(resources.len(), 2);
    for r in &resources {
        assert!(r.uri.starts_with("docs://"));
        assert!(r.name.ends_with(" documentation"));
        assert_eq!(r.mime_type, "text/plain");
    }
}

#[test]
fn test_read_resource_returns_documentation() {
    let factory = make_factory();
    let mut server = factory.create_server("test", "1.0.0").unwrap();
    let registry =
        make_registry_with_modules(vec![("mod.a", "Module A documentation text", vec![])]);

    factory.register_resource_handlers(&mut server, &registry);

    let result = server.read_resource("docs://mod.a").unwrap();
    let contents = result.unwrap();
    assert_eq!(contents.len(), 1);
    assert_eq!(contents[0].content, "Module A documentation text");
    assert_eq!(contents[0].mime_type, "text/plain");
}

#[test]
fn test_read_resource_unknown_uri_errors() {
    let factory = make_factory();
    let mut server = factory.create_server("test", "1.0.0").unwrap();
    let registry = make_registry_with_modules(vec![("mod.a", "Module A docs", vec![])]);

    factory.register_resource_handlers(&mut server, &registry);

    let result = server
        .read_resource("docs://nonexistent")
        .unwrap();
    assert!(result.is_err());
}

#[test]
fn test_read_resource_wrong_scheme_errors() {
    let factory = make_factory();
    let mut server = factory.create_server("test", "1.0.0").unwrap();
    let registry = make_registry_with_modules(vec![("mod.a", "Module A docs", vec![])]);

    factory.register_resource_handlers(&mut server, &registry);

    let result = server.read_resource("http://mod.a").unwrap();
    assert!(result.is_err());
}

#[test]
fn test_resource_handlers_registered_flag() {
    let factory = make_factory();
    let mut server = factory.create_server("test", "1.0.0").unwrap();
    assert!(!server.has_resource_handlers());

    let registry = make_registry_with_modules(vec![("mod.a", "Module A docs", vec![])]);
    factory.register_resource_handlers(&mut server, &registry);
    assert!(server.has_resource_handlers());
}

#[test]
fn test_init_options_has_server_name() {
    let factory = make_factory();
    let server = factory.create_server("my-server", "2.0.0").unwrap();
    let opts = factory.build_init_options(&server, "my-server", "2.0.0");
    assert_eq!(opts.server_name, "my-server");
}

#[test]
fn test_init_options_has_server_version() {
    let factory = make_factory();
    let server = factory.create_server("test", "1.2.3").unwrap();
    let opts = factory.build_init_options(&server, "test", "1.2.3");
    assert_eq!(opts.server_version, "1.2.3");
}

#[test]
fn test_init_options_no_capabilities_when_no_handlers() {
    let factory = make_factory();
    let server = factory.create_server("test", "1.0.0").unwrap();
    let opts = factory.build_init_options(&server, "test", "1.0.0");
    assert!(opts.capabilities.tools.is_none());
    assert!(opts.capabilities.resources.is_none());
}

#[test]
fn test_init_options_tools_capability_when_handlers_registered() {
    let factory = make_factory();
    let mut server = factory.create_server("test", "1.0.0").unwrap();
        factory.register_handlers(&mut server, vec![]);

    let opts = factory.build_init_options(&server, "test", "1.0.0");
    assert!(opts.capabilities.tools.is_some());
    assert!(opts.capabilities.tools.unwrap().list_changed);
}

#[test]
fn test_init_options_resources_capability_when_handlers_registered() {
    let factory = make_factory();
    let mut server = factory.create_server("test", "1.0.0").unwrap();
    let registry = make_registry_with_modules(vec![("mod.a", "Module A docs", vec![])]);
    factory.register_resource_handlers(&mut server, &registry);

    let opts = factory.build_init_options(&server, "test", "1.0.0");
    assert!(opts.capabilities.resources.is_some());
    assert!(opts.capabilities.resources.unwrap().list_changed);
}

#[test]
fn test_init_options_default_values() {
    let factory = make_factory();
    let server = factory.create_server("apcore-mcp", "0.1.0").unwrap();
    let opts = factory.build_init_options(&server, "apcore-mcp", "0.1.0");
    assert_eq!(opts.server_name, "apcore-mcp");
    assert_eq!(opts.server_version, "0.1.0");
}

#[test]
fn test_factory_new_initializes_components() {
    let factory = MCPServerFactory::new();
    let server = factory.create_server("test", "1.0.0").unwrap();
    assert_eq!(server.name(), "test");
}

#[test]
fn test_create_server_returns_server() {
    let factory = make_factory();
    let server = factory.create_server("integration-test", "0.5.0").unwrap();
    assert_eq!(server.name(), "integration-test");
}

#[test]
fn test_full_lifecycle() {
    let factory = make_factory();
    let mut server = factory.create_server("lifecycle-test", "1.0.0").unwrap();

    let registry = make_registry_with_modules(vec![
        (
            "mod.alpha",
            "Alpha module with docs",
            vec!["core".to_string()],
        ),
        ("mod.beta", "Beta module", vec!["io".to_string()]),
    ]);

    let tools = build_tools(&factory, &registry, None, None);
    assert_eq!(tools.len(), 2);

        factory.register_handlers(&mut server, tools);
    assert!(server.has_tool_handlers());

    factory.register_resource_handlers(&mut server, &registry);
    assert!(server.has_resource_handlers());

    let opts = factory.build_init_options(&server, "lifecycle-test", "1.0.0");
    assert_eq!(opts.server_name, "lifecycle-test");
    assert_eq!(opts.server_version, "1.0.0");
    assert!(opts.capabilities.tools.is_some());
    assert!(opts.capabilities.resources.is_some());

    let listed_tools = server.list_tools().unwrap();
    assert_eq!(listed_tools.len(), 2);

    let resources = server.list_resources().unwrap();
    assert_eq!(resources.len(), 2);
}

#[test]
fn test_end_to_end_resource_read() {
    let factory = make_factory();
    let mut server = factory.create_server("test", "1.0.0").unwrap();
    let registry = make_registry_with_modules(vec![(
        "doc.module",
        "This is the documentation for doc.module",
        vec![],
    )]);

    factory.register_resource_handlers(&mut server, &registry);

    let result = server
        .read_resource("docs://doc.module")
        .unwrap()
        .unwrap();
    assert_eq!(result.len(), 1);
    assert_eq!(
        result[0].content,
        "This is the documentation for doc.module"
    );
}

#[test]
fn test_display_overlay_alias_used_as_tool_name() {
    let factory = make_factory();
    let meta = overlay(r#"{"mcp": {"alias": "my-custom-alias"}}"#);
    let registry = make_registry_with_modules_and_metadata(vec![(
        "mod.original",
        "Original desc",
        vec![],
        meta,
    )]);

    let tools = build_tools(&factory, &registry, None, None);
    assert_eq!(tools.len(), 1);
    assert_eq!(tools[0].name, "my-custom-alias");
}

#[test]
fn test_display_overlay_description_used() {
    let factory = make_factory();
    let meta = overlay(r#"{"mcp": {"description": "Overridden description"}}"#);
    let registry = make_registry_with_modules_and_metadata(vec![(
        "mod.a",
        "Default description",
        vec![],
        meta,
    )]);

    let tools = build_tools(&factory, &registry, None, None);
    assert_eq!(tools.len(), 1);
    assert_eq!(tools[0].description, "Overridden description");
}

#[test]
fn test_display_overlay_guidance_appended() {
    let factory = make_factory();
    let meta = overlay(r#"{"mcp": {"guidance": "Use this tool when you need to process data"}}"#);
    let registry = make_registry_with_modules_and_metadata(vec![(
        "mod.a",
        "Base description",
        vec![],
        meta,
    )]);

    let tools = build_tools(&factory, &registry, None, None);
    assert_eq!(tools.len(), 1);
    assert_eq!(
        tools[0].description,
        "Base description\n\nGuidance: Use this tool when you need to process data"
    );
}

#[test]
fn test_display_overlay_fallback_when_no_overlay() {
    let factory = make_factory();
    let registry = make_registry_with_modules(vec![("mod.a", "Default description", vec![])]);

    let tools = build_tools(&factory, &registry, None, None);
    assert_eq!(tools.len(), 1);
    assert_eq!(tools[0].name, "mod.a");
    assert_eq!(tools[0].description, "Default description");
}

#[test]
fn test_build_tool_name_override_param() {
    let factory = make_factory();
    let desc = make_descriptor("mod.original", ModuleAnnotations::default());
    let tool = build(&factory, &desc, "desc", Some("custom-name"))
        .unwrap();
    assert_eq!(tool.name, "custom-name");
}

#[test]
fn test_build_tool_name_override_none_uses_descriptor() {
    let factory = make_factory();
    let desc = make_descriptor("mod.original", ModuleAnnotations::default());
    let tool = build(&factory, &desc, "desc", None).unwrap();
    assert_eq!(tool.name, "mod.original");
}

#[test]
fn test_display_overlay_all_fields_combined() {
    let factory = make_factory();
    let meta = overlay(r#"{ "mcp": { "alias": "custom-tool", "description": "Custom description", "guidance": "Important usage notes" } }"#);
    let registry = make_registry_with_modules_and_metadata(vec![(
        "mod.a",
        "Default description",
        vec![],
        meta,
    )]);

    let tools = build_tools(&factory, &registry, None, None);
    assert_eq!(tools.len(), 1);
    assert_eq!(tools[0].name, "custom-tool");
    assert_eq!(
        tools[0].description,
        "Custom description\n\nGuidance: Important usage notes"
    );
}

#[test]
fn is_reserved_id_detection_matches_async_bridge() {
    assert!(AsyncTaskBridge::is_reserved_id("__apcore_task_submit"));
    assert!(AsyncTaskBridge::is_reserved_id("__apcore_custom"));
    assert!(!AsyncTaskBridge::is_reserved_id("legitimate.module"));
}

#[test]
fn append_meta_tools_adds_five_reserved_names() {
    let mut tools = Vec::new();
    MCPServerFactory::append_meta_tools(&mut tools);
    let names: Vec<&str> = tools.iter().map(|t| t.name.as_str()).collect();
    assert_eq!(names.len(), 5);
    assert!(names.contains(&"__apcore_task_submit"));
    assert!(names.contains(&"__apcore_task_status"));
    assert!(names.contains(&"__apcore_task_cancel"));
    assert!(names.contains(&"__apcore_task_list"));
    assert!(names.contains(&"__apcore_module_preview"));
}

#[test]
fn append_approval_meta_tools_adds_approval_check() {
    let mut tools = Vec::new();
    MCPServerFactory::append_meta_tools(&mut tools);
    let before = tools.len();
    MCPServerFactory::append_approval_meta_tools(&mut tools);
    assert_eq!(tools.len(), before + 1);
    let names: Vec<&str> = tools.iter().map(|t| t.name.as_str()).collect();
    assert!(names.contains(&"__apcore_approval_check"));
}

#[test]
fn test_build_tool_description_propagated_to_tool() {
    let factory = make_factory();
    let desc = make_descriptor("test.module", ModuleAnnotations::default());
    let tool = build(&factory, &desc, "identity test", None).unwrap();
    assert_eq!(tool.description, "identity test");
    assert_eq!(tool.name, "test.module");
}

#[test]
fn build_tools_rich_description_renders_markdown() {
    let registry = Registry::default();
    let module = Box::new(MockModule { desc: "Resize an image".to_string() });
    let descriptor = apcore_descriptor(
        "image.resize",
        "Resize an image",
        vec!["image".to_string()],
        HashMap::new(),
        None,
    );
    registry.register("image.resize", module, descriptor).unwrap();
    let factory = MCPServerFactory::with_rich_description(true);
    assert!(factory.rich_description());
    let tools = build_tools(&factory, &registry, None, None);
    assert_eq!(tools.len(), 1);
    let desc = &tools[0].description;
    assert!(desc.starts_with("# "));
    assert!(desc.contains("## Parameters"));
    assert!(desc.contains("Resize an image"));
}

#[test]
fn build_tools_rich_description_respects_display_override() {
    let registry = Registry::default();
    let module = Box::new(MockModule { desc: "Resize an image".to_string() });
    let descriptor = apcore_descriptor(
        "image.resize",
        "Resize an image",
        vec![],
        HashMap::new(),
        Some(to_value(&json(r#"{"mcp": {"description": "Operator-typed override"}}"#))),
    );
    registry.register("image.resize", module, descriptor).unwrap();
    let factory = MCPServerFactory::with_rich_description(true);
    let tools = build_tools(&factory, &registry, None, None);
    assert_eq!(tools[0].description, "Operator-typed override");
}

#[test]
fn build_tool_rejects_reserved_apcore_prefix() {
    let factory = MCPServerFactory::new();
    let descriptor = make_descriptor("__apcore_custom", ModuleAnnotations::default());
    let result = build(&factory, &descriptor, "should be rejected", None);
    assert!(result.is_err());
    let err_msg = result.err().unwrap().describe();
    assert!(err_msg.contains("Reserved module id") || err_msg.contains("__apcore_"));
}

fn source(id: &str, schema: Result<Json, String>) -> ModuleSource {
    ModuleSource {
        module_id: id.to_string(),
        descriptor: Some(make_descriptor(id, ModuleAnnotations::default())),
        input_schema: schema,
        markdown: String::new(),
    }
}

#[test]
fn build_tools_hard_fails_on_reserved_prefix_in_registry() {
    assert!(matches!(
        FactoryError::ReservedPrefix("__apcore_custom".to_string()),
        FactoryError::ReservedPrefix(_)
    ));
    let sources = vec![source("fine", Ok(json("{}"))), source("__apcore_custom", Ok(json("{}")))];
    match make_factory().assemble(sources) {
        Err(FactoryError::ReservedPrefix(id)) => assert_eq!(id, "__apcore_custom"),
        _ => panic!("a reserved id has to be fatal"),
    }
}

#[test]
fn modules_without_a_schema_or_a_definition_are_skipped() {
    let mut gone = source("gone", Ok(json("{}")));
    gone.descriptor = None;
    let sources = vec![
        source("bad", Err("no schema".to_string())),
        gone,
        source("good", Ok(json("{}"))),
    ];
    let tools = make_factory().assemble(sources).unwrap();
    assert_eq!(tools.len(), 1);
    assert_eq!(tools[0].name, "good");
}

#[test]
fn test_build_tool_with_registry_uses_local_schema_converter() {
    let factory = make_factory();
    let desc = make_descriptor("test.module", ModuleAnnotations::default());
    let schema = PlainAdapters.convert_input_schema(&desc.input_schema);
    let tool = factory
        .build_tool_with_registry(&desc, "test description", None, None, schema)
        .unwrap();
    let schema = to_value(&tool.input_schema);
    assert_eq!(schema["type"], "object");
    assert!(schema.get("properties").is_some());
}

#[test]
fn a_schema_that_cannot_be_converted_fails_the_tool() {
    let desc = make_descriptor("test.module", ModuleAnnotations::default());
    let result = make_factory().build_tool(&desc, "d", None, Err("circular".to_string()));
    assert!(matches!(result, Err(FactoryError::Other(reason)) if reason == "circular"));
}

#[test]
fn server_names_have_one_to_255_characters() {
    let factory = make_factory();
    assert!(matches!(factory.create_server("", "1"), Err(FactoryError::InvalidName(0))));
    assert!(factory.create_server(&"n".repeat(255), "1").is_ok());
    assert!(matches!(
        factory.create_server(&"n".repeat(256), "1"),
        Err(FactoryError::InvalidName(256))
    ));
    assert!(factory.create_server(&"\u{e9}".repeat(255), "1").is_ok());
}

#[test]
fn labels_take_any_letter() {
    assert_eq!(format_intent_label("x-\u{df}-\u{e9}t\u{e9}"), "SS \u{c9}t\u{e9}");
    assert_eq!(format_intent_label("plain"), "Plain");
    assert_eq!(format_intent_label(""), "");
}

fn item(text: &str) -> ContentItem {
    ContentItem { content_type: "text".to_string(), data: Json::text(text) }
}

#[test]
fn results_carry_their_trace() {
    let trace = "4bf92f3577b34da6a3ce929d0e0e4736";
    let result = tool_result_from(&vec![item("hello")], false, Some(trace), "00f067aa0ba902b7");
    assert_eq!(result.content[0].text, "hello");
    assert!(!result.is_error);
    let meta = to_value(&result.meta.unwrap());
    assert_eq!(
        meta["traceparent"],
        "00-4bf92f3577b34da6a3ce929d0e0e4736-00f067aa0ba902b7-01"
    );
    let made = tool_result(&vec![item("hello")], false, Some(trace));
    let header = to_value(&made.meta.unwrap())["traceparent"].as_str().unwrap().to_string();
    assert_eq!(header.len(), 55);
    assert!(header.starts_with("00-4bf92f3577b34da6a3ce929d0e0e4736-"));
    assert!(header.ends_with("-01"));
    assert!(tool_result(&vec![], true, None).meta.is_none());
}

#[test]
fn traces_are_summed_up() {
    let trace = json(
        r#"{"steps": [{"name": "acl", "duration_ms": 1.5, "skip_reason": null, "more": 1},
                      {"name": "run", "duration_ms": 2, "skip_reason": "off"},
                      {}]}"#,
    );
    let summary = to_value(&summarize_trace(&trace));
    assert_eq!(summary["step_count"], 3);
    assert_eq!(summary["steps"][0]["name"], "acl");
    assert_eq!(summary["steps"][0]["duration_ms"], 1.5);
    assert!(summary["steps"][0].get("skip_reason").is_none());
    assert!(summary["steps"][0].get("more").is_none());
    assert_eq!(summary["steps"][1]["skip_reason"], "off");
    assert_eq!(to_value(&summarize_trace(&json("{}")))["step_count"], 0);
}

#[test]
fn servers_are_set_up_as_by_default() {
    let server = MCPServerFactory::new().create_server("named", "9.9.9").unwrap();
    let config = server.config();
    assert_eq!(config.name, "named");
    assert!(config.version.is_none() && config.strategy.is_none() && config.prefix.is_none());
    assert!(!config.allow_execute && !config.explorer && !config.validate_inputs);
    assert_eq!((config.explorer_prefix.as_str(), config.port), ("/explorer", 8000));
}

#[test]
fn labels_show_words_and_no_marks() {
    assert_eq!(format_intent_label("x-when-to-use"), "When To Use");
    assert_eq!(format_intent_label("when-to-use"), "When To Use");
    assert_eq!(format_intent_label("x-a--b-"), "A  B ");
    assert_eq!(format_intent_label("élan-vital"), "Élan Vital");
}
