use apcore_mcp_server::factory::{MCPServerFactory, ToolAdapters};
use apcore_mcp_server::json::{Json, JsonObject};
use apcore_mcp_server::listener::RegistryListener;
use apcore_mcp_server::modules::{ModuleAnnotations, ModuleDescriptor};
use apcore_mcp_server::value::{from_text, to_value};
use apcore::registry::Registry;
use serde_json::Value;
use std::collections::HashMap;
use std::future::Future;
use std::pin::Pin;

fn json(text: &str) -> Json {
    from_text(text).unwrap()
}

struct MockModule {
    desc: String,
}

impl apcore::module::Module for MockModule {
    fn input_schema(&self) -> Value {
        to_value(&json(r#"{"type": "object", "properties": {"q": {"type": "string"}}}"#))
    }

    fn output_schema(&self) -> Value {
        Value::Object(Default::default())
    }

    fn description(&self) -> &str {
        &self.desc
    }

    fn execute<'a, 'b, 'c>(
        &'a self,
        _inputs: Value,
        _ctx: &'b apcore::context::Context<Value>,
    ) -> Pin<Box<dyn Future<Output = Result<Value, apcore::errors::ModuleError>> + Send + 'c>>
    where
        'a: 'c,
        'b: 'c,
        Self: 'c,
    {
        Box::pin(async { Ok(Value::Object(Default::default())) })
    }
}

/// Takes schemas as they are, and renders a heading, a description and the parameters.
struct PlainAdapters;

impl ToolAdapters for PlainAdapters {
    fn convert_input_schema(&self, schema: &Json) -> Result<Json, String> {
        Ok(schema.clone())
    }

    fn render_markdown(&self, descriptor: &ModuleDescriptor) -> String {
        format!("# {}\n\n{}\n\n## Parameters\n", descriptor.module_id, descriptor.description)
    }
}

fn insert_tool(listener: &mut RegistryListener, name: &str) {
    let was_active = listener.is_active();
    listener.start();
    let descriptor = ModuleDescriptor {
        module_id: name.to_string(),
        description: format!("Test tool {}", name),
        documentation: None,
        input_schema: json(r#"{"type": "object", "properties": {}}"#),
        output_schema: json("{}"),
        version: "1.0.0".to_string(),
        tags: vec![],
        annotations: Some(ModuleAnnotations::default()),
        metadata: JsonObject::new(),
        display: None,
    };
    let schema = Ok(descriptor.input_schema.clone());
    listener.on_register(&MCPServerFactory::new(), name, Some(&descriptor), schema);
    if !was_active {
        listener.stop();
    }
}

fn remove_tool(listener: &mut RegistryListener, name: &str) -> bool {
    let was_active = listener.is_active();
    listener.start();
    let removed = listener.on_unregister(name);
    if !was_active {
        listener.stop();
    }
    removed
}

fn register(registry: &Registry, name: &str, desc: &str, module_desc: &str) {
    let descriptor = apcore::registry::ModuleDescriptor {
        module_id: name.to_string(),
        name: None,
        description: desc.to_string(),
        documentation: None,
        input_schema: to_value(&json(r#"{"type": "object", "properties": {}}"#)),
        output_schema: to_value(&json(r#"{"type": "object"}"#)),
        version: "2.5.0".to_string(),
        tags: vec!["analytics".to_string(), "experimental".to_string()],
        annotations: Some(apcore::module::ModuleAnnotations::default()),
        examples: vec![],
        metadata: HashMap::new(),
        display: None,
        sunset_date: None,
        dependencies: vec![],
        enabled: true,
    };
    let module = Box::new(MockModule { desc: module_desc.to_string() });
    registry.register(name, module, descriptor).unwrap();
}

#[test]
fn tools_returns_empty_map_on_fresh_listener() {
    let listener = RegistryListener::new();
    assert!(listener.tools().is_empty());
}

#[test]
fn tools_returns_snapshot_not_reference() {
    let mut listener = RegistryListener::new();
    insert_tool(&mut listener, "mod_a");

    let snapshot1 = listener.tools();
    let snapshot2 = listener.tools();

    assert_eq!(snapshot1.len(), 1);
    assert_eq!(snapshot2.len(), 1);
    assert!(snapshot1.contains_key("mod_a"));
    assert!(snapshot2.contains_key("mod_a"));
}

#[test]
fn snapshot_is_isolated_from_later_mutations() {
    let mut listener = RegistryListener::new();
    insert_tool(&mut listener, "mod_a");

    let snapshot = listener.tools();
    assert_eq!(snapshot.len(), 1);

    insert_tool(&mut listener, "mod_b");
    assert_eq!(snapshot.len(), 1);
    assert!(!snapshot.contains_key("mod_b"));
    assert_eq!(listener.tools().len(), 2);
}

#[test]
fn default_creates_inactive_listener() {
    let listener = RegistryListener::default();
    assert!(!listener.is_active());
    assert!(listener.tools().is_empty());
}

#[test]
fn after_register_tools_contains_tool() {
    let mut listener = RegistryListener::new();
    insert_tool(&mut listener, "mod_a");

    let tools = listener.tools();
    assert_eq!(tools.len(), 1);
    assert!(tools.contains_key("mod_a"));
    assert_eq!(tools.get("mod_a").unwrap().name, "mod_a");
}

#[test]
fn after_unregister_tools_no_longer_contains_tool() {
    let mut listener = RegistryListener::new();
    insert_tool(&mut listener, "mod_a");
    assert_eq!(listener.tools().len(), 1);

    let removed = remove_tool(&mut listener, "mod_a");
    assert!(removed);
    assert!(listener.tools().is_empty());
}

#[test]
fn unregister_nonexistent_tool_returns_false() {
    let mut listener = RegistryListener::new();
    let removed = remove_tool(&mut listener, "nonexistent");
    assert!(!removed);
}

#[test]
fn multiple_tools_registered_and_unregistered() {
    let mut listener = RegistryListener::new();
    insert_tool(&mut listener, "mod_a");
    insert_tool(&mut listener, "mod_b");
    insert_tool(&mut listener, "mod_c");

    assert_eq!(listener.tools().len(), 3);

    remove_tool(&mut listener, "mod_b");
    let tools = listener.tools();
    assert_eq!(tools.len(), 2);
    assert!(tools.contains_key("mod_a"));
    assert!(!tools.contains_key("mod_b"));
    assert!(tools.contains_key("mod_c"));
}

#[test]
fn listener_start_is_idempotent() {
    let mut listener = RegistryListener::new();
    assert!(listener.start());
    assert!(listener.is_active());

    assert!(!listener.start());
    assert!(listener.is_active());
}

#[test]
fn stop_deactivates_listener() {
    let mut listener = RegistryListener::new();
    listener.start();
    assert!(listener.is_active());

    listener.stop();
    assert!(!listener.is_active());
}

#[test]
fn stop_is_idempotent() {
    let mut listener = RegistryListener::new();
    listener.stop();
    assert!(!listener.is_active());

    listener.start();
    listener.stop();
    listener.stop();
    assert!(!listener.is_active());
}

#[test]
fn start_registers_callbacks_that_respond_to_events() {
    let mut listener = RegistryListener::new();
    let factory = MCPServerFactory::new();
    let registry = Registry::new();
    listener.start();

    register(&registry, "dummy_a", "", "A dummy module A");
    listener.on_register_in(&factory, &registry, &PlainAdapters, "dummy_a");

    let tools = listener.tools();
    assert_eq!(tools.len(), 1);
    assert!(tools.contains_key("dummy_a"));
}

#[test]
fn stopped_listener_ignores_register_events() {
    let mut listener = RegistryListener::new();
    let factory = MCPServerFactory::new();
    let registry = Registry::new();
    listener.start();
    listener.stop();

    register(&registry, "dummy_b", "", "A dummy module B");
    listener.on_register_in(&factory, &registry, &PlainAdapters, "dummy_b");

    assert!(listener.tools().is_empty());
}

#[test]
fn unregister_event_removes_tool() {
    let mut listener = RegistryListener::new();
    let factory = MCPServerFactory::new();
    let registry = Registry::new();
    listener.start();

    register(&registry, "dummy_c", "", "A dummy module C");
    listener.on_register_in(&factory, &registry, &PlainAdapters, "dummy_c");
    assert_eq!(listener.tools().len(), 1);

    registry.unregister("dummy_c").unwrap();
    assert!(listener.on_unregister("dummy_c"));
    assert!(listener.tools().is_empty());
}

#[test]
fn register_callback_uses_canonical_descriptor_not_synthesized() {
    let mut listener = RegistryListener::new();
    let factory = MCPServerFactory::new();
    let registry = Registry::new();
    listener.start();

    register(
        &registry,
        "rich_dummy",
        "canonical descriptor description (must be used)",
        "trait-level description (should NOT be used)",
    );
    listener.on_register_in(&factory, &registry, &PlainAdapters, "rich_dummy");

    let tools = listener.tools();
    let tool = tools.get("rich_dummy").unwrap();
    assert!(tool.description.contains("canonical descriptor description"));
}

#[test]
fn a_module_that_is_not_registered_brings_no_tool() {
    let mut listener = RegistryListener::new();
    listener.start();
    let registry = Registry::new();
    listener.on_register_in(&MCPServerFactory::new(), &registry, &PlainAdapters, "nobody");
    assert!(listener.tools().is_empty());
}

#[test]
fn a_module_that_came_again_has_one_tool() {
    let mut listener = RegistryListener::new();
    insert_tool(&mut listener, "mod_a");
    insert_tool(&mut listener, "mod_a");
    assert_eq!(listener.tools().len(), 1);
}

#[test]
fn a_stopped_listener_keeps_what_it_has() {
    let mut listener = RegistryListener::new();
    insert_tool(&mut listener, "mod_a");
    assert!(!listener.on_unregister("mod_a"));
    assert_eq!(listener.tools().len(), 1);
}
