//! The protocol's data: tools, resources, results and capabilities.

use crate::json::{self, Json, JsonView};
use crate::text;
use vstd::prelude::*;

verus! {

/// A tool as `tools/list` shows it.
#[derive(Debug)]
pub struct Tool {
    pub name: String,
    pub description: String,
    pub input_schema: Json,
    pub annotations: Option<ToolAnnotations>,
    pub meta: Option<Json>,
}

/// The mathematical counterpart of [`Tool`].
#[verifier::ext_equal]
pub struct ToolView {
    pub name: Seq<char>,
    pub description: Seq<char>,
    pub input_schema: JsonView,
    pub annotations: Option<AnnotationsView>,
    pub meta: Option<JsonView>,
}

/// Hints on how a tool behaves.
#[derive(Debug)]
pub struct ToolAnnotations {
    pub title: Option<String>,
    pub read_only_hint: Option<bool>,
    pub destructive_hint: Option<bool>,
    pub idempotent_hint: Option<bool>,
    pub open_world_hint: Option<bool>,
}

/// The mathematical counterpart of [`ToolAnnotations`].
#[verifier::ext_equal]
pub struct AnnotationsView {
    pub title: Option<Seq<char>>,
    pub read_only_hint: Option<bool>,
    pub destructive_hint: Option<bool>,
    pub idempotent_hint: Option<bool>,
    pub open_world_hint: Option<bool>,
}

impl View for ToolAnnotations {
    type V = AnnotationsView;

    open spec fn view(&self) -> AnnotationsView {
        AnnotationsView {
            title: text::opt_view(self.title),
            read_only_hint: self.read_only_hint,
            destructive_hint: self.destructive_hint,
            idempotent_hint: self.idempotent_hint,
            open_world_hint: self.open_world_hint,
        }
    }
}

impl View for Tool {
    type V = ToolView;

    open spec fn view(&self) -> ToolView {
        ToolView {
            name: self.name@,
            description: self.description@,
            input_schema: self.input_schema@,
            annotations: match self.annotations {
                Some(annotations) => Some(annotations@),
                None => None,
            },
            meta: json::opt_view(self.meta),
        }
    }
}

/// What the tools of a list are.
pub open spec fn tool_views(tools: Seq<Tool>) -> Seq<ToolView> {
    tools.map_values(|tool: Tool| tool@)
}

/// A copy of an optional string.
pub fn copy_text(s: &Option<String>) -> (copy: Option<String>)
    ensures
        text::opt_view(copy) == text::opt_view(*s),
{
    match s {
        Some(string) => Some(string.clone()),
        None => None,
    }
}

/// A copy of an optional document.
pub fn copy_json(json: &Option<Json>) -> (copy: Option<Json>)
    ensures
        json::opt_view(copy) == json::opt_view(*json),
{
    match json {
        Some(document) => Some(document.clone()),
        None => None,
    }
}

/// A copy of a document that may be missing.
pub fn copy_ref(json: Option<&Json>) -> (copy: Option<Json>)
    ensures
        json::opt_view(copy) == json::ref_view(json),
{
    match json {
        Some(document) => Some(document.clone()),
        None => None,
    }
}

impl Clone for ToolAnnotations {
    fn clone(&self) -> (copy: ToolAnnotations)
        ensures
            copy@ == self@,
    {
        ToolAnnotations {
            title: copy_text(&self.title),
            read_only_hint: self.read_only_hint,
            destructive_hint: self.destructive_hint,
            idempotent_hint: self.idempotent_hint,
            open_world_hint: self.open_world_hint,
        }
    }
}

impl Clone for Tool {
    fn clone(&self) -> (copy: Tool)
        ensures
            copy@ == self@,
    {
        Tool {
            name: self.name.clone(),
            description: self.description.clone(),
            input_schema: self.input_schema.clone(),
            annotations: match &self.annotations {
                Some(annotations) => Some(annotations.clone()),
                None => None,
            },
            meta: copy_json(&self.meta),
        }
    }
}

impl Default for ToolAnnotations {
    fn default() -> (annotations: ToolAnnotations)
        ensures
            annotations@ == (AnnotationsView {
                title: None,
                read_only_hint: Some(false),
                destructive_hint: Some(false),
                idempotent_hint: Some(false),
                open_world_hint: Some(true),
            }),
    {
        ToolAnnotations {
            title: None,
            read_only_hint: Some(false),
            destructive_hint: Some(false),
            idempotent_hint: Some(false),
            open_world_hint: Some(true),
        }
    }
}

/// An optional flag as a document.
pub open spec fn flag_view(flag: Option<bool>) -> Option<JsonView> {
    match flag {
        Some(b) => Some(JsonView::Bool(b)),
        None => None,
    }
}

/// An optional text as a document.
pub open spec fn text_opt_view(s: Option<Seq<char>>) -> Option<JsonView> {
    match s {
        Some(string) => Some(JsonView::text(string)),
        None => None,
    }
}

fn flag_json(flag: Option<bool>) -> (json: Option<Json>)
    ensures
        json::opt_view(json) == flag_view(flag),
{
    match flag {
        Some(b) => Some(Json::Bool(b)),
        None => None,
    }
}

/// An optional text as a document.
pub fn text_opt_json(s: Option<&str>) -> (json: Option<Json>)
    ensures
        json::opt_view(json) == text_opt_view(text::ref_view(s)),
{
    match s {
        Some(string) => Some(Json::text(string)),
        None => None,
    }
}

impl AnnotationsView {
    /// The annotations on the wire: each that is given, under its name there.
    pub open spec fn json(self) -> JsonView {
        JsonView::object().with_opt("title"@, text_opt_view(self.title)).with_opt(
            "readOnlyHint"@,
            flag_view(self.read_only_hint),
        ).with_opt("destructiveHint"@, flag_view(self.destructive_hint)).with_opt(
            "idempotentHint"@,
            flag_view(self.idempotent_hint),
        ).with_opt("openWorldHint"@, flag_view(self.open_world_hint))
    }
}

impl ToolAnnotations {
    /// The annotations on the wire.
    pub fn to_json(&self) -> (json: Json)
        ensures
            json@ == self@.json(),
    {
        let title = match &self.title {
            Some(title) => Some(Json::text(title.as_str())),
            None => None,
        };
        Json::object().with_opt("title", title).with_opt(
            "readOnlyHint",
            flag_json(self.read_only_hint),
        ).with_opt("destructiveHint", flag_json(self.destructive_hint)).with_opt(
            "idempotentHint",
            flag_json(self.idempotent_hint),
        ).with_opt("openWorldHint", flag_json(self.open_world_hint))
    }
}

impl ToolView {
    /// The tool as `tools/list` shows it.
    pub open spec fn listed(self) -> JsonView {
        JsonView::object().with("name"@, JsonView::text(self.name)).with(
            "description"@,
            JsonView::text(self.description),
        ).with("inputSchema"@, self.input_schema).with_opt(
            "annotations"@,
            match self.annotations {
                Some(annotations) => Some(annotations.json()),
                None => None,
            },
        )
    }
}

impl ToolView {
    /// The tool on the wire: as it is listed, and with its metadata where it has any.
    pub open spec fn json(self) -> JsonView {
        self.listed().with_opt("_meta"@, self.meta)
    }
}

impl Tool {
    /// The tool on the wire.
    pub fn to_json(&self) -> (json: Json)
        ensures
            json@ == self@.json(),
    {
        self.to_listed().with_opt("_meta", copy_json(&self.meta))
    }

    /// The tool as `tools/list` shows it.
    pub fn to_listed(&self) -> (json: Json)
        ensures
            json@ == self@.listed(),
    {
        let annotations = match &self.annotations {
            Some(annotations) => Some(annotations.to_json()),
            None => None,
        };
        Json::object().with("name", Json::text(self.name.as_str())).with(
            "description",
            Json::text(self.description.as_str()),
        ).with("inputSchema", self.input_schema.clone()).with_opt("annotations", annotations)
    }
}

/// A piece of text in a result.
#[derive(Debug)]
pub struct TextContent {
    pub content_type: String,
    pub text: String,
}

/// The mathematical counterpart of [`TextContent`].
pub struct TextView {
    pub content_type: Seq<char>,
    pub text: Seq<char>,
}

impl View for TextContent {
    type V = TextView;

    open spec fn view(&self) -> TextView {
        TextView { content_type: self.content_type@, text: self.text@ }
    }
}

/// What the pieces of text of a list are.
pub open spec fn text_views(content: Seq<TextContent>) -> Seq<TextView> {
    content.map_values(|piece: TextContent| piece@)
}

impl TextContent {
    /// A piece of text.
    pub fn new(text: &str) -> (content: TextContent)
        ensures
            content@ == (TextView { content_type: "text"@, text: text@ }),
    {
        TextContent { content_type: "text".to_string(), text: text.to_string() }
    }

    /// The piece of text on the wire.
    pub fn to_json(&self) -> (json: Json)
        ensures
            json@ == self@.json(),
    {
        Json::object().with("type", Json::text(self.content_type.as_str())).with(
            "text",
            Json::text(self.text.as_str()),
        )
    }
}

impl TextView {
    /// The piece of text on the wire.
    pub open spec fn json(self) -> JsonView {
        JsonView::object().with("type"@, JsonView::text(self.content_type)).with(
            "text"@,
            JsonView::text(self.text),
        )
    }
}

/// The result of a tool call.
#[derive(Debug)]
pub struct CallToolResult {
    pub content: Vec<TextContent>,
    pub is_error: bool,
    pub meta: Option<Json>,
}

impl CallToolResult {
    /// A result without metadata.
    pub fn new(content: Vec<TextContent>, is_error: bool) -> (result: CallToolResult)
        ensures
            result.content == content,
            result.is_error == is_error,
            result.meta is None,
    {
        CallToolResult { content, is_error, meta: None }
    }

    /// The result on the wire.
    pub open spec fn json(self) -> JsonView {
        JsonView::object().with(
            "content"@,
            JsonView::Array(text_views(self.content@).map_values(|piece: TextView| piece.json())),
        ).with("isError"@, JsonView::Bool(self.is_error)).with_opt(
            "_meta"@,
            json::opt_view(self.meta),
        )
    }

    /// The result on the wire.
    pub fn to_json(&self) -> (json: Json)
        ensures
            json@ == self.json(),
    {
        let mut pieces: Vec<Json> = Vec::new();
        let ghost shown = text_views(self.content@).map_values(|piece: TextView| piece.json());
        let mut i: usize = 0;
        while i < self.content.len()
            invariant
                i <= self.content.len(),
                pieces.len() == i,
                shown == text_views(self.content@).map_values(|piece: TextView| piece.json()),
                forall|j: int| 0 <= j < i ==> (#[trigger] pieces@[j])@ == shown[j],
            decreases self.content.len() - i,
        {
            pieces.push(self.content[i].to_json());
            i = i + 1;
        }
        assert(json::views(pieces@) =~= shown);
        Json::object().with("content", Json::array(pieces)).with(
            "isError",
            Json::Bool(self.is_error),
        ).with_opt("_meta", copy_json(&self.meta))
    }
}

/// A resource as `resources/list` shows it.
#[derive(Debug)]
pub struct Resource {
    pub uri: String,
    pub name: String,
    pub mime_type: String,
}

/// The mathematical counterpart of [`Resource`].
pub struct ResourceView {
    pub uri: Seq<char>,
    pub name: Seq<char>,
    pub mime_type: Seq<char>,
}

impl View for Resource {
    type V = ResourceView;

    open spec fn view(&self) -> ResourceView {
        ResourceView { uri: self.uri@, name: self.name@, mime_type: self.mime_type@ }
    }
}

/// What the resources of a list are.
pub open spec fn resource_views(resources: Seq<Resource>) -> Seq<ResourceView> {
    resources.map_values(|resource: Resource| resource@)
}

impl ResourceView {
    /// The resource as `resources/list` shows it.
    pub open spec fn listed(self) -> JsonView {
        JsonView::object().with("uri"@, JsonView::text(self.uri)).with(
            "name"@,
            JsonView::text(self.name),
        ).with("mimeType"@, JsonView::text(self.mime_type))
    }
}

impl Resource {
    /// The resource as `resources/list` shows it.
    pub fn to_listed(&self) -> (json: Json)
        ensures
            json@ == self@.listed(),
    {
        Json::object().with("uri", Json::text(self.uri.as_str())).with(
            "name",
            Json::text(self.name.as_str()),
        ).with("mimeType", Json::text(self.mime_type.as_str()))
    }
}

impl Clone for Resource {
    fn clone(&self) -> (copy: Resource)
        ensures
            copy@ == self@,
    {
        Resource {
            uri: self.uri.clone(),
            name: self.name.clone(),
            mime_type: self.mime_type.clone(),
        }
    }
}

/// What reading a resource gives.
#[derive(Debug)]
pub struct ReadResourceContents {
    pub content: String,
    pub mime_type: String,
}

/// The mathematical counterpart of [`ReadResourceContents`].
pub struct ContentsView {
    pub content: Seq<char>,
    pub mime_type: Seq<char>,
}

impl View for ReadResourceContents {
    type V = ContentsView;

    open spec fn view(&self) -> ContentsView {
        ContentsView { content: self.content@, mime_type: self.mime_type@ }
    }
}

/// What the contents of a list are.
pub open spec fn contents_views(contents: Seq<ReadResourceContents>) -> Seq<ContentsView> {
    contents.map_values(|item: ReadResourceContents| item@)
}

impl ContentsView {
    /// The contents in the answer to `resources/read`.
    pub open spec fn listed(self) -> JsonView {
        JsonView::object().with("content"@, JsonView::text(self.content)).with(
            "mimeType"@,
            JsonView::text(self.mime_type),
        )
    }
}

impl ReadResourceContents {
    /// The contents in the answer to `resources/read`.
    pub fn to_listed(&self) -> (json: Json)
        ensures
            json@ == self@.listed(),
    {
        Json::object().with("content", Json::text(self.content.as_str())).with(
            "mimeType",
            Json::text(self.mime_type.as_str()),
        )
    }
}

/// A family of resources, named by a template of their URIs.
#[derive(Debug, Clone)]
pub struct ResourceTemplate {
    pub uri_template: String,
    pub name: String,
    pub mime_type: String,
}

impl ResourceTemplate {
    /// The template on the wire.
    pub fn to_json(&self) -> (json: Json)
        ensures
            json@ == JsonView::object().with("uriTemplate"@, JsonView::text(self.uri_template@)).with(
                "name"@,
                JsonView::text(self.name@),
            ).with("mimeType"@, JsonView::text(self.mime_type@)),
    {
        Json::object().with("uriTemplate", Json::text(self.uri_template.as_str())).with(
            "name",
            Json::text(self.name.as_str()),
        ).with("mimeType", Json::text(self.mime_type.as_str()))
    }
}

/// What the server says of itself when a client connects.
#[derive(Debug)]
pub struct InitializationOptions {
    pub server_name: String,
    pub server_version: String,
    pub capabilities: ServerCapabilities,
}

impl InitializationOptions {
    /// The options on the wire.
    pub fn to_json(&self) -> (json: Json)
        ensures
            json@ == JsonView::object().with("server_name"@, JsonView::text(self.server_name@)).with(
                "server_version"@,
                JsonView::text(self.server_version@),
            ).with("capabilities"@, self.capabilities.json()),
    {
        Json::object().with("server_name", Json::text(self.server_name.as_str())).with(
            "server_version",
            Json::text(self.server_version.as_str()),
        ).with("capabilities", self.capabilities.to_json())
    }
}

/// What the server offers.
#[derive(Debug)]
pub struct ServerCapabilities {
    pub tools: Option<ToolsCapability>,
    pub resources: Option<ResourcesCapability>,
    /// Capabilities of vendors, by their ids; nothing where there are none.
    pub extensions: Option<Json>,
}

/// Whether changes are announced, on the wire.
pub open spec fn list_changed_view(list_changed: bool) -> JsonView {
    JsonView::object().with("listChanged"@, JsonView::Bool(list_changed))
}

impl ServerCapabilities {
    /// The capabilities on the wire: each that is offered.
    pub open spec fn json(self) -> JsonView {
        JsonView::object().with_opt(
            "tools"@,
            match self.tools {
                Some(tools) => Some(list_changed_view(tools.list_changed)),
                None => None,
            },
        ).with_opt(
            "resources"@,
            match self.resources {
                Some(resources) => Some(list_changed_view(resources.list_changed)),
                None => None,
            },
        ).with_opt("extensions"@, json::opt_view(self.extensions))
    }

    /// The capabilities on the wire.
    pub fn to_json(&self) -> (json: Json)
        ensures
            json@ == self.json(),
    {
        let tools = match &self.tools {
            Some(tools) => Some(Json::object().with("listChanged", Json::Bool(tools.list_changed))),
            None => None,
        };
        let resources = match &self.resources {
            Some(resources) => Some(
                Json::object().with("listChanged", Json::Bool(resources.list_changed)),
            ),
            None => None,
        };
        Json::object().with_opt("tools", tools).with_opt("resources", resources).with_opt(
            "extensions",
            copy_json(&self.extensions),
        )
    }
}

/// How tools are offered.
#[derive(Debug, Clone, Copy)]
pub struct ToolsCapability {
    /// Whether clients are told when the list of tools changes.
    pub list_changed: bool,
}

/// How resources are offered.
#[derive(Debug, Clone, Copy)]
pub struct ResourcesCapability {
    /// Whether clients are told when the list of resources changes.
    pub list_changed: bool,
}

/// On the wire each hint stands under its own name, as it was given, and is missing exactly where
/// it was not given.
pub proof fn law_hints_stand_under_their_names(annotations: &ToolAnnotations, json: Json)
    requires
        call_ensures(ToolAnnotations::to_json, (annotations,), json),
    ensures
        json@ is Object,
        json@.get("title"@) == (match annotations.title {
            Some(title) => Some(JsonView::String(title@)),
            None => None,
        }),
        json@.get("readOnlyHint"@) == (match annotations.read_only_hint {
            Some(flag) => Some(JsonView::Bool(flag)),
            None => None,
        }),
        json@.get("destructiveHint"@) == (match annotations.destructive_hint {
            Some(flag) => Some(JsonView::Bool(flag)),
            None => None,
        }),
        json@.get("idempotentHint"@) == (match annotations.idempotent_hint {
            Some(flag) => Some(JsonView::Bool(flag)),
            None => None,
        }),
        json@.get("openWorldHint"@) == (match annotations.open_world_hint {
            Some(flag) => Some(JsonView::Bool(flag)),
            None => None,
        }),
{
    broadcast use json::group_members;

    reveal_strlit("title");
    reveal_strlit("readOnlyHint");
    reveal_strlit("destructiveHint");
    reveal_strlit("idempotentHint");
    reveal_strlit("openWorldHint");
    assert("title"@.len() == 5);
    assert("readOnlyHint"@.len() == 12);
    assert("destructiveHint"@.len() == 15);
    assert("idempotentHint"@.len() == 14);
    assert("openWorldHint"@.len() == 13);
}

/// A tool is listed with its own name, description and schema, and with its hints exactly where it
/// has any; its metadata is not listed, and stands on the wire where there is any.
pub proof fn law_tools_are_listed_as_they_are(tool: &Tool, listed: Json, whole: Json, hints: Json)
    requires
        call_ensures(Tool::to_listed, (tool,), listed),
        call_ensures(Tool::to_json, (tool,), whole),
        tool.annotations matches Some(annotations) ==> call_ensures(
            ToolAnnotations::to_json,
            (&annotations,),
            hints,
        ),
    ensures
        listed@.get("name"@) == Some(JsonView::String(tool.name@)),
        listed@.get("description"@) == Some(JsonView::String(tool.description@)),
        listed@.get("inputSchema"@) == Some(tool.input_schema@),
        listed@.get("annotations"@) == (if tool.annotations is Some {
            Some(hints@)
        } else {
            None
        }),
        listed@.get("_meta"@) is None,
        whole@.get("_meta"@) == (match tool.meta {
            Some(meta) => Some(meta@),
            None => None,
        }),
        forall|key: Seq<char>| key != "_meta"@ ==> #[trigger] whole@.get(key) == listed@.get(key),
{
    broadcast use json::group_members;

    reveal_strlit("name");
    reveal_strlit("description");
    reveal_strlit("inputSchema");
    reveal_strlit("annotations");
    reveal_strlit("_meta");
    assert("name"@.len() == 4);
    assert("description"@.len() == 11);
    assert("inputSchema"@.len() == 11);
    assert("annotations"@.len() == 11);
    assert("_meta"@.len() == 5);
    assert("description"@[0] != "inputSchema"@[0]);
    assert("description"@[0] != "annotations"@[0]);
    assert("inputSchema"@[0] != "annotations"@[0]);
}

/// A copy of a tool says what the tool says.
pub proof fn law_copies_of_tools(tool: &Tool, copy: Tool)
    requires
        call_ensures(<Tool as Clone>::clone, (tool,), copy),
    ensures
        copy.name@ == tool.name@,
        copy.description@ == tool.description@,
        copy.input_schema@ == tool.input_schema@,
        copy.annotations is Some == tool.annotations is Some,
        tool.annotations matches Some(from) ==> (copy.annotations matches Some(to)
            && to.read_only_hint == from.read_only_hint && to.destructive_hint
            == from.destructive_hint && to.idempotent_hint == from.idempotent_hint
            && to.open_world_hint == from.open_world_hint && text::opt_view(to.title)
            == text::opt_view(from.title)),
        json::opt_view(copy.meta) == json::opt_view(tool.meta),
{
    assert(copy@ == tool@);
    assert(copy@.annotations == tool@.annotations);
}

/// A piece of text is one of the type `text`, and on the wire has its type and its text.
pub proof fn law_pieces_of_text(s: &str, piece: TextContent, any: &TextContent, json: Json)
    requires
        call_ensures(TextContent::new, (s,), piece),
        call_ensures(TextContent::to_json, (any,), json),
    ensures
        piece.content_type@ == "text"@,
        piece.text@ == s@,
        json@.get("type"@) == Some(JsonView::String(any.content_type@)),
        json@.get("text"@) == Some(JsonView::String(any.text@)),
{
    broadcast use json::group_members;

    assert(piece@.text == s@);
    reveal_strlit("type");
    reveal_strlit("text");
    assert("type"@.len() == 4);
    assert("text"@.len() == 4);
    assert("type"@[1] != "text"@[1]);
}

/// A result on the wire says whether it is an error, has one object for each piece of text, in
/// their order and with their types and texts, and has metadata exactly where there is any.
pub proof fn law_results_on_the_wire(
    content: Vec<TextContent>,
    is_error: bool,
    plain: CallToolResult,
    result: &CallToolResult,
    json: Json,
)
    requires
        call_ensures(CallToolResult::new, (content, is_error), plain),
        call_ensures(CallToolResult::to_json, (result,), json),
    ensures
        plain.content == content,
        plain.is_error == is_error,
        plain.meta is None,
        json@.get("isError"@) == Some(JsonView::Bool(result.is_error)),
        json@.get("_meta"@) == (match result.meta {
            Some(meta) => Some(meta@),
            None => None,
        }),
        json@.get("content"@) matches Some(JsonView::Array(pieces)) && pieces.len()
            == result.content.len() && forall|i: int|
            0 <= i < pieces.len() ==> (#[trigger] pieces[i]).get("type"@) == Some(
                JsonView::String(result.content@[i].content_type@),
            ) && pieces[i].get("text"@) == Some(JsonView::String(result.content@[i].text@)),
{
    broadcast use json::group_members;

    reveal_strlit("content");
    reveal_strlit("isError");
    reveal_strlit("_meta");
    reveal_strlit("type");
    reveal_strlit("text");
    assert("content"@.len() == 7);
    assert("isError"@.len() == 7);
    assert("_meta"@.len() == 5);
    assert("type"@.len() == 4);
    assert("text"@.len() == 4);
    assert("content"@[0] != "isError"@[0]);
    assert("type"@[1] != "text"@[1]);
}

/// A resource, a template and contents stand on the wire with each of their members under its own
/// name.
pub proof fn law_resources_on_the_wire(
    resource: &Resource,
    listed: Json,
    template: &ResourceTemplate,
    templated: Json,
    contents: &ReadResourceContents,
    read: Json,
)
    requires
        call_ensures(Resource::to_listed, (resource,), listed),
        call_ensures(ResourceTemplate::to_json, (template,), templated),
        call_ensures(ReadResourceContents::to_listed, (contents,), read),
    ensures
        listed@.get("uri"@) == Some(JsonView::String(resource.uri@)),
        listed@.get("name"@) == Some(JsonView::String(resource.name@)),
        listed@.get("mimeType"@) == Some(JsonView::String(resource.mime_type@)),
        templated@.get("uriTemplate"@) == Some(JsonView::String(template.uri_template@)),
        templated@.get("name"@) == Some(JsonView::String(template.name@)),
        templated@.get("mimeType"@) == Some(JsonView::String(template.mime_type@)),
        read@.get("content"@) == Some(JsonView::String(contents.content@)),
        read@.get("mimeType"@) == Some(JsonView::String(contents.mime_type@)),
{
    broadcast use json::group_members;

    reveal_strlit("uri");
    reveal_strlit("name");
    reveal_strlit("mimeType");
    reveal_strlit("uriTemplate");
    reveal_strlit("content");
    assert("uri"@.len() == 3);
    assert("name"@.len() == 4);
    assert("mimeType"@.len() == 8);
    assert("uriTemplate"@.len() == 11);
    assert("content"@.len() == 7);
}

/// A copy of a resource says what the resource says.
pub proof fn law_copies_of_resources(resource: &Resource, copy: Resource)
    requires
        call_ensures(<Resource as Clone>::clone, (resource,), copy),
    ensures
        copy.uri@ == resource.uri@,
        copy.name@ == resource.name@,
        copy.mime_type@ == resource.mime_type@,
{
    assert(copy@ == resource@);
}

/// Options and capabilities stand on the wire with each of their members under its own name; a
/// capability that is not offered is missing.
pub proof fn law_options_on_the_wire(
    options: &InitializationOptions,
    json: Json,
    capabilities: &ServerCapabilities,
    offered: Json,
)
    requires
        call_ensures(InitializationOptions::to_json, (options,), json),
        call_ensures(ServerCapabilities::to_json, (capabilities,), offered),
    ensures
        json@.get("server_name"@) == Some(JsonView::String(options.server_name@)),
        json@.get("server_version"@) == Some(JsonView::String(options.server_version@)),
        *capabilities == options.capabilities ==> json@.get("capabilities"@) == Some(offered@),
        match capabilities.tools {
            Some(tools) => offered@.get("tools"@) matches Some(flags) && flags.get("listChanged"@)
                == Some(JsonView::Bool(tools.list_changed)),
            None => offered@.get("tools"@) is None,
        },
        match capabilities.resources {
            Some(resources) => offered@.get("resources"@) matches Some(flags) && flags.get(
                "listChanged"@,
            ) == Some(JsonView::Bool(resources.list_changed)),
            None => offered@.get("resources"@) is None,
        },
        offered@.get("extensions"@) == (match capabilities.extensions {
            Some(extensions) => Some(extensions@),
            None => None,
        }),
{
    broadcast use json::group_members;

    reveal_strlit("server_name");
    reveal_strlit("server_version");
    reveal_strlit("capabilities");
    reveal_strlit("tools");
    reveal_strlit("resources");
    reveal_strlit("extensions");
    reveal_strlit("listChanged");
    assert("server_name"@.len() == 11);
    assert("server_version"@.len() == 14);
    assert("capabilities"@.len() == 12);
    assert("tools"@.len() == 5);
    assert("resources"@.len() == 9);
    assert("extensions"@.len() == 10);
    assert("listChanged"@.len() == 11);
    assert("server_name"@[0] != "listChanged"@[0]);
}

/// Where nothing is said of a tool, it is taken to do no harm and to reach the outside world.
pub proof fn law_default_hints(annotations: ToolAnnotations)
    requires
        call_ensures(<ToolAnnotations as Default>::default, (), annotations),
    ensures
        annotations.title is None,
        annotations.read_only_hint == Some(false),
        annotations.destructive_hint == Some(false),
        annotations.idempotent_hint == Some(false),
        annotations.open_world_hint == Some(true),
{
    assert(annotations@.title is None);
}

/// The counterparts of tools, pieces and resources say what these say, one by one.
pub proof fn law_counterparts_say_the_same(
    tools: Seq<Tool>,
    pieces: Seq<TextContent>,
    resources: Seq<Resource>,
    contents: Seq<ReadResourceContents>,
    i: int,
)
    ensures
        tool_views(tools).len() == tools.len(),
        0 <= i < tools.len() ==> {
            let view = tool_views(tools)[i];
            &&& view.name == tools[i].name@
            &&& view.description == tools[i].description@
            &&& view.input_schema == tools[i].input_schema@
            &&& view.meta == json::opt_view(tools[i].meta)
            &&& match (view.annotations, tools[i].annotations) {
                (Some(a), Some(b)) => a.read_only_hint == b.read_only_hint && a.destructive_hint
                    == b.destructive_hint && a.idempotent_hint == b.idempotent_hint
                    && a.open_world_hint == b.open_world_hint && a.title == text::opt_view(
                    b.title,
                ),
                (None, None) => true,
                _ => false,
            }
        },
        text_views(pieces).len() == pieces.len(),
        0 <= i < pieces.len() ==> text_views(pieces)[i].content_type == pieces[i].content_type@
            && text_views(pieces)[i].text == pieces[i].text@,
        resource_views(resources).len() == resources.len(),
        0 <= i < resources.len() ==> resource_views(resources)[i].uri == resources[i].uri@
            && resource_views(resources)[i].name == resources[i].name@ && resource_views(
            resources,
        )[i].mime_type == resources[i].mime_type@,
        contents_views(contents).len() == contents.len(),
        0 <= i < contents.len() ==> contents_views(contents)[i].content == contents[i].content@
            && contents_views(contents)[i].mime_type == contents[i].mime_type@,
{
}

/// A copy of an optional text or document holds what the original holds, and a text as a document
/// is a string.
pub proof fn law_optional_copies(
    s: &Option<String>,
    copied: Option<String>,
    document: &Option<Json>,
    copy: Option<Json>,
    reference: Option<&Json>,
    taken: Option<Json>,
    slice: Option<&str>,
    written: Option<Json>,
)
    requires
        call_ensures(copy_text, (s,), copied),
        call_ensures(copy_json, (document,), copy),
        call_ensures(copy_ref, (reference,), taken),
        call_ensures(text_opt_json, (slice,), written),
    ensures
        match (s, copied) {
            (Some(a), Some(b)) => a@ == b@,
            (None, None) => true,
            _ => false,
        },
        match (document, copy) {
            (Some(a), Some(b)) => a@ == b@,
            (None, None) => true,
            _ => false,
        },
        match (reference, taken) {
            (Some(a), Some(b)) => a@ == b@,
            (None, None) => true,
            _ => false,
        },
        match (slice, written) {
            (Some(a), Some(b)) => b@ == JsonView::String(a@),
            (None, None) => true,
            _ => false,
        },
{
}

} // verus!
