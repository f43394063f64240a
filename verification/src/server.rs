//! The server: its configuration, its life cycle and how it answers messages.

use crate::json::{self, Entries, Json, JsonObject, JsonView};
use crate::text;
use crate::types::{
    self, CallToolResult, ContentsView, InitializationOptions, ReadResourceContents, Resource,
    ResourceView, ResourcesCapability, ServerCapabilities, TextView, Tool, ToolView,
    ToolsCapability,
};
use crate::value;
use vstd::prelude::*;

verus! {

/// How clients reach the server.
#[derive(Debug, Clone, Copy, PartialEq, Eq, Structural)]
pub enum TransportKind {
    /// Standard input and output.
    Stdio,
    /// Streamable HTTP.
    StreamableHttp,
    /// Server-sent events.
    Sse,
}

/// A name that means no transport.
#[derive(Debug, Clone, PartialEq, Eq)]
pub struct ParseTransportError(pub String);

impl View for ParseTransportError {
    type V = Seq<char>;

    open spec fn view(&self) -> Seq<char> {
        self.0@
    }
}

impl ParseTransportError {
    /// The message that the error is reported with.
    pub fn describe(&self) -> (s: String)
        ensures
            s@ == "unknown transport: \""@ + self@ + "\""@,
    {
        "unknown transport: \"".to_string().concat(self.0.as_str()).concat("\"")
    }
}

/// The name of a transport.
pub open spec fn transport_name(kind: TransportKind) -> Seq<char> {
    match kind {
        TransportKind::Stdio => "stdio"@,
        TransportKind::StreamableHttp => "streamable-http"@,
        TransportKind::Sse => "sse"@,
    }
}

/// The transport that a name means, whatever the case of its letters.
pub open spec fn named_transport(name: Seq<char>) -> Option<TransportKind> {
    if text::lower(name) == "stdio"@ {
        Some(TransportKind::Stdio)
    } else if text::lower(name) == "streamable-http"@ {
        Some(TransportKind::StreamableHttp)
    } else if text::lower(name) == "sse"@ {
        Some(TransportKind::Sse)
    } else {
        None
    }
}

/// Where a server with this transport is reached.
pub open spec fn transport_address(kind: TransportKind, host: Seq<char>, port: u16) -> Seq<char> {
    match kind {
        TransportKind::Stdio => "stdio"@,
        _ => "http://"@ + host + ":"@ + text::decimal_text(port as nat),
    }
}

impl TransportKind {
    /// The transport that `name` means.
    pub fn parse(name: &str) -> (r: Result<TransportKind, ParseTransportError>)
        ensures
            match r {
                Ok(kind) => named_transport(name@) == Some(kind),
                Err(error) => named_transport(name@) is None && error@ == name@,
            },
    {
        let lower = text::lowercase(name);
        if text::same(lower.as_str(), "stdio") {
            Ok(TransportKind::Stdio)
        } else if text::same(lower.as_str(), "streamable-http") {
            Ok(TransportKind::StreamableHttp)
        } else if text::same(lower.as_str(), "sse") {
            Ok(TransportKind::Sse)
        } else {
            Err(ParseTransportError(name.to_string()))
        }
    }

    /// The name of the transport.
    pub fn name(self) -> (name: &'static str)
        ensures
            name@ == transport_name(self),
    {
        match self {
            TransportKind::Stdio => "stdio",
            TransportKind::StreamableHttp => "streamable-http",
            TransportKind::Sse => "sse",
        }
    }

    /// Where a server with this transport is reached.
    pub fn address(&self, host: &str, port: u16) -> (address: String)
        ensures
            address@ == transport_address(*self, host@, port),
    {
        match self {
            TransportKind::Stdio => "stdio".to_string(),
            TransportKind::StreamableHttp | TransportKind::Sse => {
                "http://".to_string().concat(host).concat(":").concat(
                    text::decimal(port as u64).as_str(),
                )
            },
        }
    }
}

impl std::str::FromStr for TransportKind {
    type Err = ParseTransportError;

    fn from_str(s: &str) -> (r: Result<TransportKind, ParseTransportError>)
        ensures
            match r {
                Ok(kind) => named_transport(s@) == Some(kind),
                Err(error) => named_transport(s@) is None && error@ == s@,
            },
    {
        TransportKind::parse(s)
    }
}

/// The name of a transport means that transport.
pub proof fn law_transport_names(kind: TransportKind)
    ensures
        named_transport(transport_name(kind)) == Some(kind),
{
    reveal_strlit("stdio");
    reveal_strlit("streamable-http");
    reveal_strlit("sse");
    assert(text::lower("stdio"@) =~= "stdio"@);
    assert(text::lower("streamable-http"@) =~= "streamable-http"@);
    assert(text::lower("sse"@) =~= "sse"@);
    assert("stdio"@.len() != "streamable-http"@.len());
    assert("stdio"@.len() != "sse"@.len());
    assert("streamable-http"@.len() != "sse"@.len());
}

/// A name means the same transport in any mixture of cases.
pub proof fn law_transport_names_ignore_case(a: Seq<char>, b: Seq<char>)
    requires
        text::lower(a) == text::lower(b),
    ensures
        named_transport(a) == named_transport(b),
{
}

/// How a server is set up.
#[derive(Debug, Clone)]
pub struct MCPServerConfig {
    pub transport: TransportKind,
    pub host: String,
    pub port: u16,
    pub name: String,
    pub version: Option<String>,
    /// Whether inputs are checked before a call.
    pub validate_inputs: bool,
    /// Only modules with these tags become tools.
    pub tags: Option<Vec<String>>,
    /// Only modules whose ids begin with this become tools.
    pub prefix: Option<String>,
    /// Whether HTTP clients have to authenticate.
    pub require_auth: bool,
    /// Paths that need no authentication.
    pub exempt_paths: Option<Vec<String>>,
    /// Whether results carry a trace.
    pub trace: bool,
    /// The strategy by which modules are run.
    pub strategy: Option<String>,
    /// Whether the tools can be explored in a browser.
    pub explorer: bool,
    pub explorer_prefix: String,
    pub explorer_title: String,
    pub explorer_project_name: Option<String>,
    pub explorer_project_url: Option<String>,
    /// Whether tools can be run from the explorer.
    pub allow_execute: bool,
    /// Whether results are written by a formatter of the host's own.
    pub output_formatter: bool,
}

/// The mathematical counterpart of [`MCPServerConfig`].
#[verifier::ext_equal]
pub struct ConfigView {
    pub transport: TransportKind,
    pub host: Seq<char>,
    pub port: u16,
    pub name: Seq<char>,
    pub version: Option<Seq<char>>,
    pub validate_inputs: bool,
    pub tags: Option<Seq<Seq<char>>>,
    pub prefix: Option<Seq<char>>,
    pub require_auth: bool,
    pub exempt_paths: Option<Seq<Seq<char>>>,
    pub trace: bool,
    pub strategy: Option<Seq<char>>,
    pub explorer: bool,
    pub explorer_prefix: Seq<char>,
    pub explorer_title: Seq<char>,
    pub explorer_project_name: Option<Seq<char>>,
    pub explorer_project_url: Option<Seq<char>>,
    pub allow_execute: bool,
    pub output_formatter: bool,
}

/// What the texts of an optional list are.
pub open spec fn opt_texts(texts: Option<Vec<String>>) -> Option<Seq<Seq<char>>> {
    match texts {
        Some(list) => Some(text::texts(list@)),
        None => None,
    }
}

impl View for MCPServerConfig {
    type V = ConfigView;

    open spec fn view(&self) -> ConfigView {
        ConfigView {
            transport: self.transport,
            host: self.host@,
            port: self.port,
            name: self.name@,
            version: text::opt_view(self.version),
            validate_inputs: self.validate_inputs,
            tags: opt_texts(self.tags),
            prefix: text::opt_view(self.prefix),
            require_auth: self.require_auth,
            exempt_paths: opt_texts(self.exempt_paths),
            trace: self.trace,
            strategy: text::opt_view(self.strategy),
            explorer: self.explorer,
            explorer_prefix: self.explorer_prefix@,
            explorer_title: self.explorer_title@,
            explorer_project_name: text::opt_view(self.explorer_project_name),
            explorer_project_url: text::opt_view(self.explorer_project_url),
            allow_execute: self.allow_execute,
            output_formatter: self.output_formatter,
        }
    }
}

/// How a server is set up where nothing else is asked for.
pub open spec fn default_config() -> ConfigView {
    ConfigView {
        transport: TransportKind::Stdio,
        host: "127.0.0.1"@,
        port: 8000,
        name: "apcore-mcp"@,
        version: None,
        validate_inputs: false,
        tags: None,
        prefix: None,
        require_auth: true,
        exempt_paths: None,
        trace: false,
        strategy: None,
        explorer: false,
        explorer_prefix: "/explorer"@,
        explorer_title: "MCP Tool Explorer"@,
        explorer_project_name: None,
        explorer_project_url: None,
        allow_execute: false,
        output_formatter: false,
    }
}

impl Default for MCPServerConfig {
    fn default() -> (config: MCPServerConfig)
        ensures
            config@ == default_config(),
    {
        MCPServerConfig {
            transport: TransportKind::Stdio,
            host: "127.0.0.1".to_string(),
            port: 8000,
            name: "apcore-mcp".to_string(),
            version: None,
            validate_inputs: false,
            tags: None,
            prefix: None,
            require_auth: true,
            exempt_paths: None,
            trace: false,
            strategy: None,
            explorer: false,
            explorer_prefix: "/explorer".to_string(),
            explorer_title: "MCP Tool Explorer".to_string(),
            explorer_project_name: None,
            explorer_project_url: None,
            allow_execute: false,
            output_formatter: false,
        }
    }
}

/// Why something could not be built or read.
#[derive(Debug)]
pub enum FactoryError {
    /// There is no such resource.
    ResourceNotFound(String),
    /// The resource's URI has a scheme that is not served.
    UnsupportedScheme(String),
    /// The module's id is reserved for meta-tools.
    ReservedPrefix(String),
    /// The server's name has this length, which is not allowed.
    InvalidName(usize),
    /// Anything else.
    Other(String),
}

impl FactoryError {
    /// The message that the error is reported with.
    pub open spec fn message(self) -> Seq<char> {
        match self {
            FactoryError::ResourceNotFound(uri) => "Resource not found: "@ + uri@,
            FactoryError::UnsupportedScheme(uri) => "Unsupported URI scheme: "@ + uri@,
            FactoryError::ReservedPrefix(id) => "Reserved module id: '"@ + id@
                + "' (the '__apcore_' prefix is owned by the async task bridge)"@,
            FactoryError::InvalidName(n) => "Invalid server name: length "@ + text::decimal_text(
                n as nat,
            ) + " (must be non-empty and at most 255 characters)"@,
            FactoryError::Other(reason) => reason@,
        }
    }

    /// The message that the error is reported with.
    pub fn describe(&self) -> (s: String)
        ensures
            s@ == self.message(),
    {
        match self {
            FactoryError::ResourceNotFound(uri) => "Resource not found: ".to_string().concat(
                uri.as_str(),
            ),
            FactoryError::UnsupportedScheme(uri) => "Unsupported URI scheme: ".to_string().concat(
                uri.as_str(),
            ),
            FactoryError::ReservedPrefix(id) => "Reserved module id: '".to_string().concat(
                id.as_str(),
            ).concat("' (the '__apcore_' prefix is owned by the async task bridge)"),
            FactoryError::InvalidName(n) => "Invalid server name: length ".to_string().concat(
                text::decimal(*n as u64).as_str(),
            ).concat(" (must be non-empty and at most 255 characters)"),
            FactoryError::Other(reason) => reason.clone(),
        }
    }
}

/// The scheme of the URIs under which documentation is served.
pub const DOCS_SCHEME: &'static str = "docs://";

/// The documentation of modules as resources, in the order of the modules.
pub open spec fn doc_resources(docs: Entries) -> Seq<ResourceView> {
    docs.map_values(
        |entry: (Seq<char>, JsonView)|
            ResourceView {
                uri: DOCS_SCHEME@ + entry.0,
                name: entry.0 + " documentation"@,
                mime_type: "text/plain"@,
            },
    )
}

/// The documentation of the module that a URI names; nothing where the URI has another scheme or
/// the module has no documentation.
pub open spec fn doc_at(docs: Entries, uri: Seq<char>) -> Option<Seq<char>> {
    if text::has_prefix(uri, DOCS_SCHEME@) {
        json::text_in(json::lookup(docs, uri.skip(DOCS_SCHEME@.len() as int)))
    } else {
        None
    }
}

/// What reading the resource `uri` gives, in `r`.
pub open spec fn reads(
    docs: Entries,
    uri: Seq<char>,
    r: Result<Vec<ReadResourceContents>, FactoryError>,
) -> bool {
    match r {
        Ok(contents) => doc_at(docs, uri) is Some && types::contents_views(contents@) == seq![
            ContentsView { content: doc_at(docs, uri).unwrap(), mime_type: "text/plain"@ },
        ],
        Err(FactoryError::UnsupportedScheme(u)) => u@ == uri && !text::has_prefix(
            uri,
            DOCS_SCHEME@,
        ),
        Err(FactoryError::ResourceNotFound(u)) => u@ == uri && text::has_prefix(uri, DOCS_SCHEME@)
            && doc_at(docs, uri) is None,
        Err(_) => false,
    }
}

/// The documentation of modules as resources.
pub fn list_docs(docs: &JsonObject) -> (resources: Vec<Resource>)
    ensures
        types::resource_views(resources@) == doc_resources(docs@),
{
    let mut resources: Vec<Resource> = Vec::new();
    let n: usize = docs.len();
    let mut i: usize = 0;
    while i < n
        invariant
            i <= n,
            n == docs@.len(),
            resources.len() == i,
            forall|j: int| 0 <= j < i ==> (#[trigger] resources@[j])@ == doc_resources(docs@)[j],
        decreases n - i,
    {
        let id = docs.key(i);
        resources.push(
            Resource {
                uri: DOCS_SCHEME.to_string().concat(id.as_str()),
                name: id.clone().concat(" documentation"),
                mime_type: "text/plain".to_string(),
            },
        );
        i = i + 1;
    }
    assert(types::resource_views(resources@) =~= doc_resources(docs@));
    resources
}

/// Reads the resource `uri`.
pub fn read_doc(docs: &JsonObject, uri: &str) -> (r: Result<
    Vec<ReadResourceContents>,
    FactoryError,
>)
    ensures
        reads(docs@, uri@, r),
{
    let module_id = match text::strip_prefix(uri, DOCS_SCHEME) {
        Some(rest) => rest,
        None => {
            return Err(FactoryError::UnsupportedScheme(uri.to_string()));
        },
    };
    match docs.get(module_id) {
        Some(Json::String(doc)) => {
            let mut contents: Vec<ReadResourceContents> = Vec::new();
            contents.push(
                ReadResourceContents { content: doc.clone(), mime_type: "text/plain".to_string() },
            );
            assert(types::contents_views(contents@) =~= seq![
                ContentsView { content: doc@, mime_type: "text/plain"@ },
            ]);
            Ok(contents)
        },
        _ => Err(FactoryError::ResourceNotFound(uri.to_string())),
    }
}

/// Every resource that is listed can be read, and gives the documentation that it was listed for.
pub proof fn law_listed_resources_are_read(docs: Entries, i: int, document: Seq<char>)
    requires
        json::unique_keys(docs),
        0 <= i < docs.len(),
        docs[i].1 == JsonView::text(document),
    ensures
        doc_at(docs, doc_resources(docs)[i].uri) == Some(document),
{
    let uri = doc_resources(docs)[i].uri;
    assert(uri.take(DOCS_SCHEME@.len() as int) =~= DOCS_SCHEME@);
    assert(uri.skip(DOCS_SCHEME@.len() as int) =~= docs[i].0);
    assert(json::first_at(docs, docs[i].0, i));
    json::lemma_first_at(docs, docs[i].0, i);
}

/// The outside type `apcore::executor::Executor`.
#[verifier::external_type_specification]
#[verifier::external_body]
pub struct ExExecutor(apcore::executor::Executor);

/// What a server runs modules from.
#[derive(Clone)]
pub enum RegistryOrExecutor {
    /// A registry of its own.
    Registry(std::sync::Arc<apcore::registry::Registry>),
    /// An executor, which has its own registry.
    Executor(std::sync::Arc<apcore::executor::Executor>),
}

impl RegistryOrExecutor {
    /// Which of the two it is.
    pub fn describe(&self) -> (s: &'static str)
        ensures
            s@ == (match self {
                RegistryOrExecutor::Registry(_) => "RegistryOrExecutor::Registry(..)"@,
                RegistryOrExecutor::Executor(_) => "RegistryOrExecutor::Executor(..)"@,
            }),
    {
        match self {
            RegistryOrExecutor::Registry(_) => "RegistryOrExecutor::Registry(..)",
            RegistryOrExecutor::Executor(_) => "RegistryOrExecutor::Executor(..)",
        }
    }
}

/// The server: what it offers, and whether it runs.
pub struct MCPServer {
    config: MCPServerConfig,
    registry_or_executor: Option<RegistryOrExecutor>,
    tools: Option<Vec<Tool>>,
    calls: bool,
    listed: Option<JsonObject>,
    docs: Option<JsonObject>,
    running: bool,
    stoppable: bool,
}

/// The mathematical counterpart of [`MCPServer`].
#[verifier::ext_equal]
pub struct ServerView {
    /// How the server is set up.
    pub config: MCPServerConfig,
    /// What it runs modules from.
    pub registry_or_executor: Option<RegistryOrExecutor>,
    /// The tools that it lists, where tools are listed.
    pub tools: Option<Seq<ToolView>>,
    /// Whether it calls tools.
    pub calls: bool,
    /// The documentation that it lists, where documentation is listed.
    pub listed: Option<Entries>,
    /// The documentation that it reads, where documentation is read.
    pub docs: Option<Entries>,
    /// Whether a task of the server runs.
    pub running: bool,
    /// Whether there is a task that can be told to stop.
    pub stoppable: bool,
}

impl View for MCPServer {
    type V = ServerView;

    closed spec fn view(&self) -> ServerView {
        ServerView {
            config: self.config,
            registry_or_executor: self.registry_or_executor,
            tools: match self.tools {
                Some(tools) => Some(types::tool_views(tools@)),
                None => None,
            },
            calls: self.calls,
            listed: match self.listed {
                Some(docs) => Some(docs@),
                None => None,
            },
            docs: match self.docs {
                Some(docs) => Some(docs@),
                None => None,
            },
            running: self.running,
            stoppable: self.stoppable,
        }
    }
}

/// A server that offers nothing yet and does not run.
pub open spec fn fresh_server(config: MCPServerConfig) -> ServerView {
    ServerView {
        config,
        registry_or_executor: None,
        tools: None,
        calls: false,
        listed: None,
        docs: None,
        running: false,
        stoppable: false,
    }
}

/// Whether the server both lists and calls tools.
pub open spec fn offers_tools(server: ServerView) -> bool {
    server.tools is Some && server.calls
}

/// Whether the server both lists and reads documentation.
pub open spec fn offers_resources(server: ServerView) -> bool {
    server.listed is Some && server.docs is Some
}

/// What to do to stop a server.
pub struct StopPlan {
    /// Whether its task is to be told.
    pub signal: bool,
    /// Whether its task is to be waited for.
    pub join: bool,
}

/// What to run to start a server.
pub struct StartPlan {
    /// What answers messages; nothing where no tools are offered.
    pub handler: Option<ServerHandler>,
    pub transport: TransportKind,
    pub host: String,
    pub port: u16,
}

/// A copy of a list of tools.
pub fn copy_tools(tools: &Vec<Tool>) -> (copy: Vec<Tool>)
    ensures
        types::tool_views(copy@) == types::tool_views(tools@),
{
    let mut copy: Vec<Tool> = Vec::new();
    let mut i: usize = 0;
    while i < tools.len()
        invariant
            i <= tools.len(),
            copy.len() == i,
            forall|j: int| 0 <= j < i ==> (#[trigger] copy@[j])@ == tools@[j]@,
        decreases tools.len() - i,
    {
        copy.push(tools[i].clone());
        i = i + 1;
    }
    assert(types::tool_views(copy@) =~= types::tool_views(tools@));
    copy
}

impl MCPServer {
    /// A server that is set up so.
    pub fn new(config: MCPServerConfig) -> (server: MCPServer)
        ensures
            server@ == fresh_server(config),
    {
        MCPServer {
            config,
            registry_or_executor: None,
            tools: None,
            calls: false,
            listed: None,
            docs: None,
            running: false,
            stoppable: false,
        }
    }

    /// A server that runs modules from `registry_or_executor`.
    pub fn with_registry_or_executor(
        registry_or_executor: RegistryOrExecutor,
        config: MCPServerConfig,
    ) -> (server: MCPServer)
        ensures
            server@ == (ServerView {
                registry_or_executor: Some(registry_or_executor),
                ..fresh_server(config)
            }),
    {
        MCPServer {
            config,
            registry_or_executor: Some(registry_or_executor),
            tools: None,
            calls: false,
            listed: None,
            docs: None,
            running: false,
            stoppable: false,
        }
    }

    /// A server with these parameters. A transport that is not known is taken for standard input
    /// and output.
    pub fn with_params(name: &str, transport: &str, host: &str, port: u16) -> (server: MCPServer)
        ensures
            server@ == fresh_server(server@.config),
            server@.config@ == (ConfigView {
                name: name@,
                transport: match named_transport(transport@) {
                    Some(kind) => kind,
                    None => TransportKind::Stdio,
                },
                host: host@,
                port,
                ..default_config()
            }),
    {
        let kind = match TransportKind::parse(transport) {
            Ok(kind) => kind,
            Err(_) => TransportKind::Stdio,
        };
        let mut config = MCPServerConfig::default();
        config.name = name.to_string();
        config.transport = kind;
        config.host = host.to_string();
        config.port = port;
        MCPServer::new(config)
    }

    /// The server's name.
    pub fn name(&self) -> (name: &str)
        ensures
            name@ == self@.config.name@,
    {
        self.config.name.as_str()
    }

    /// How clients reach the server.
    pub fn transport(&self) -> (kind: TransportKind)
        ensures
            kind == self@.config.transport,
    {
        self.config.transport
    }

    /// How the server is set up.
    pub fn config(&self) -> (config: &MCPServerConfig)
        ensures
            *config == self@.config,
    {
        &self.config
    }

    /// What the server runs modules from.
    pub fn registry_or_executor(&self) -> (r: Option<&RegistryOrExecutor>)
        ensures
            match r {
                Some(source) => self@.registry_or_executor == Some(*source),
                None => self@.registry_or_executor is None,
            },
    {
        match &self.registry_or_executor {
            Some(source) => Some(source),
            None => None,
        }
    }

    /// Lists `tools`.
    pub fn set_tools(&mut self, tools: Vec<Tool>)
        ensures
            final(self)@ == (ServerView {
                tools: Some(types::tool_views(tools@)),
                ..old(self)@
            }),
    {
        self.tools = Some(tools);
    }

    /// Calls tools.
    pub fn set_tool_calls(&mut self)
        ensures
            final(self)@ == (ServerView { calls: true, ..old(self)@ }),
    {
        self.calls = true;
    }

    /// Lists the documentation `docs`: texts by module.
    pub fn set_listed_docs(&mut self, docs: JsonObject)
        ensures
            final(self)@ == (ServerView { listed: Some(docs@), ..old(self)@ }),
    {
        self.listed = Some(docs);
    }

    /// Reads the documentation `docs`: texts by module.
    pub fn set_docs(&mut self, docs: JsonObject)
        ensures
            final(self)@ == (ServerView { docs: Some(docs@), ..old(self)@ }),
    {
        self.docs = Some(docs);
    }

    /// Whether tools are both listed and called.
    pub fn has_tool_handlers(&self) -> (r: bool)
        ensures
            r == offers_tools(self@),
    {
        self.tools.is_some() && self.calls
    }

    /// Whether documentation is both listed and read.
    pub fn has_resource_handlers(&self) -> (r: bool)
        ensures
            r == offers_resources(self@),
    {
        self.listed.is_some() && self.docs.is_some()
    }

    /// The tools that are listed.
    pub fn list_tools(&self) -> (r: Option<Vec<Tool>>)
        ensures
            match r {
                Some(tools) => self@.tools == Some(types::tool_views(tools@)),
                None => self@.tools is None,
            },
    {
        match &self.tools {
            Some(tools) => Some(copy_tools(tools)),
            None => None,
        }
    }

    /// The resources that are listed.
    pub fn list_resources(&self) -> (r: Option<Vec<Resource>>)
        ensures
            match r {
                Some(resources) => self@.listed is Some && types::resource_views(resources@)
                    == doc_resources(self@.listed.unwrap()),
                None => self@.listed is None,
            },
    {
        match &self.listed {
            Some(docs) => Some(list_docs(docs)),
            None => None,
        }
    }

    /// Reads the resource `uri`, where resources are read.
    pub fn read_resource(&self, uri: &str) -> (r: Option<
        Result<Vec<ReadResourceContents>, FactoryError>,
    >)
        ensures
            match r {
                Some(result) => self@.docs is Some && reads(
                    self@.docs.unwrap(),
                    uri@,
                    result,
                ),
                None => self@.docs is None,
            },
    {
        match &self.docs {
            Some(docs) => Some(read_doc(docs, uri)),
            None => None,
        }
    }

    /// Whether a task of the server runs.
    pub fn is_running(&self) -> (r: bool)
        ensures
            r == self@.running,
    {
        self.running
    }

    /// Where the server is reached.
    pub fn address(&self) -> (address: String)
        ensures
            address@ == transport_address(
                self@.config.transport,
                self@.config.host@,
                self@.config.port,
            ),
    {
        self.config.transport.address(self.config.host.as_str(), self.config.port)
    }

    /// What the server says of itself when it starts: its name, its version or else
    /// `default_version`, and what it offers.
    pub fn init_options(&self, default_version: &str) -> (options: InitializationOptions)
        ensures
            options_for(
                options,
                self@,
                self@.config.name@,
                match self@.config.version {
                    Some(version) => version@,
                    None => default_version@,
                },
            ),
    {
        let version = match &self.config.version {
            Some(version) => version.clone(),
            None => default_version.to_string(),
        };
        InitializationOptions {
            server_name: self.config.name.clone(),
            server_version: version,
            capabilities: self.capabilities(),
        }
    }

    /// What the server offers.
    pub fn capabilities(&self) -> (capabilities: ServerCapabilities)
        ensures
            offers(capabilities, self@),
    {
        ServerCapabilities {
            tools: if self.has_tool_handlers() {
                Some(ToolsCapability { list_changed: true })
            } else {
                None
            },
            resources: if self.has_resource_handlers() {
                Some(ResourcesCapability { list_changed: true })
            } else {
                None
            },
            extensions: None,
        }
    }

    /// Starts the server: gives what to run, or nothing where it runs already.
    pub fn start(&mut self, default_version: &str) -> (plan: Option<StartPlan>)
        ensures
            old(self)@.running ==> plan is None && final(self)@ == old(self)@,
            !old(self)@.running ==> final(self)@ == (ServerView {
                running: true,
                stoppable: true,
                ..old(self)@
            }),
            !old(self)@.running ==> (plan matches Some(p) && p.transport
                == old(self)@.config.transport && p.host@ == old(self)@.config.host@ && p.port
                == old(self)@.config.port && match p.handler {
                Some(handler) => handler_for(
                    handler@,
                    old(self)@,
                    old(self)@.config.name@,
                    match old(self)@.config.version {
                        Some(version) => version@,
                        None => default_version@,
                    },
                ),
                None => !offers_tools(old(self)@),
            }),
    {
        if self.running {
            return None;
        }
        let options = self.init_options(default_version);
        let handler = ServerHandler::from_server(self, options);
        self.running = true;
        self.stoppable = true;
        Some(
            StartPlan {
                handler,
                transport: self.config.transport,
                host: self.config.host.clone(),
                port: self.config.port,
            },
        )
    }

    /// Waits for the server's task: tells whether there is one to wait for, and takes it.
    pub fn wait(&mut self) -> (join: bool)
        ensures
            join == old(self)@.running,
            final(self)@ == (ServerView { running: false, ..old(self)@ }),
    {
        let join = self.running;
        self.running = false;
        join
    }

    /// Stops the server: tells what there is to do.
    pub fn stop(&mut self) -> (plan: StopPlan)
        ensures
            plan.signal == old(self)@.stoppable,
            plan.join == old(self)@.running,
            final(self)@ == (ServerView { running: false, stoppable: false, ..old(self)@ }),
    {
        let plan = StopPlan { signal: self.stoppable, join: self.running };
        self.running = false;
        self.stoppable = false;
        plan
    }
}

/// `capabilities` are what the server offers, where each that is offered announces changes.
pub open spec fn offers(capabilities: ServerCapabilities, server: ServerView) -> bool {
    &&& match capabilities.tools {
        Some(tools) => offers_tools(server) && tools.list_changed,
        None => !offers_tools(server),
    }
    &&& match capabilities.resources {
        Some(resources) => offers_resources(server) && resources.list_changed,
        None => !offers_resources(server),
    }
    &&& capabilities.extensions is None
}

/// `options` say what `server` is under this name and version.
pub open spec fn options_for(
    options: InitializationOptions,
    server: ServerView,
    name: Seq<char>,
    version: Seq<char>,
) -> bool {
    &&& options.server_name@ == name
    &&& options.server_version@ == version
    &&& offers(options.capabilities, server)
}

/// What the server's handler has of the server.
pub open spec fn handler_for(
    handler: HandlerView,
    server: ServerView,
    name: Seq<char>,
    version: Seq<char>,
) -> bool {
    &&& server.tools == Some(handler.tools)
    &&& server.calls
    &&& handler.listed == server.listed
    &&& handler.docs == server.docs
    &&& handler.server_name == name
    &&& handler.server_version == version
    &&& !handler.cancels
}

/// Answers the messages of clients.
pub struct ServerHandler {
    tools: Vec<Tool>,
    listed: Option<JsonObject>,
    docs: Option<JsonObject>,
    init_options: InitializationOptions,
    cancels: bool,
}

/// The mathematical counterpart of [`ServerHandler`].
#[verifier::ext_equal]
pub struct HandlerView {
    pub tools: Seq<ToolView>,
    /// The documentation that is listed, where documentation is listed.
    pub listed: Option<Entries>,
    /// The documentation that is read, where documentation is read.
    pub docs: Option<Entries>,
    pub server_name: Seq<char>,
    pub server_version: Seq<char>,
    /// Whether somebody is to be told of cancellations.
    pub cancels: bool,
}

impl View for ServerHandler {
    type V = HandlerView;

    closed spec fn view(&self) -> HandlerView {
        HandlerView {
            tools: types::tool_views(self.tools@),
            listed: match self.listed {
                Some(docs) => Some(docs@),
                None => None,
            },
            docs: match self.docs {
                Some(docs) => Some(docs@),
                None => None,
            },
            server_name: self.init_options.server_name@,
            server_version: self.init_options.server_version@,
            cancels: self.cancels,
        }
    }
}

/// The outcome of a request.
pub enum RpcResult {
    /// The request succeeded with this result.
    Success(Json),
    /// The request failed.
    Error { code: i32, message: String },
    /// The message wants no answer.
    Notification,
}

/// The answer to the request `id` that succeeded; none where there is no id.
pub open spec fn success(id: Option<JsonView>, result: JsonView) -> Option<JsonView> {
    match id {
        Some(request) => Some(
            JsonView::object().with("jsonrpc"@, JsonView::text("2.0"@)).with("id"@, request).with(
                "result"@,
                result,
            ),
        ),
        None => None,
    }
}

/// The answer to the request `id` that failed; none where there is no id.
pub open spec fn failure(id: Option<JsonView>, code: int, message: Seq<char>) -> Option<JsonView> {
    match id {
        Some(request) => Some(
            JsonView::object().with("jsonrpc"@, JsonView::text("2.0"@)).with("id"@, request).with(
                "error"@,
                JsonView::object().with("code"@, JsonView::integer(code)).with(
                    "message"@,
                    JsonView::text(message),
                ),
            ),
        ),
        None => None,
    }
}

/// The answer to the request `id` with this outcome.
pub open spec fn wrapped(id: Option<JsonView>, result: RpcResult) -> Option<JsonView> {
    match result {
        RpcResult::Success(value) => success(id, value@),
        RpcResult::Error { code, message } => failure(id, code as int, message@),
        RpcResult::Notification => None,
    }
}

/// What a message leads to.
pub enum Handled {
    /// Answer with this, where there is an answer.
    Reply(Option<Json>),
    /// Call the tool, and answer the request `id` with what it gives.
    CallTool { id: Option<Json>, name: String, arguments: Json, extra: Option<Json> },
    /// Tell whoever is to be told that this was cancelled.
    Cancel(String),
}

/// The mathematical counterpart of [`Handled`].
pub enum HandledView {
    Reply(Option<JsonView>),
    CallTool {
        id: Option<JsonView>,
        name: Seq<char>,
        arguments: JsonView,
        extra: Option<JsonView>,
    },
    Cancel(Seq<char>),
}

impl View for Handled {
    type V = HandledView;

    open spec fn view(&self) -> HandledView {
        match self {
            Handled::Reply(reply) => HandledView::Reply(json::opt_view(*reply)),
            Handled::CallTool { id, name, arguments, extra } => HandledView::CallTool {
                id: json::opt_view(*id),
                name: name@,
                arguments: arguments@,
                extra: json::opt_view(*extra),
            },
            Handled::Cancel(key) => HandledView::Cancel(key@),
        }
    }
}

/// The result of `initialize`.
pub open spec fn initialize_view(name: Seq<char>, version: Seq<char>) -> JsonView {
    JsonView::object().with(
        "capabilities"@,
        JsonView::object().with(
            "tools"@,
            JsonView::object().with("listChanged"@, JsonView::Bool(true)),
        ).with("resources"@, JsonView::object().with("listChanged"@, JsonView::Bool(false))),
    ).with(
        "serverInfo"@,
        JsonView::object().with("name"@, JsonView::text(name)).with(
            "version"@,
            JsonView::text(version),
        ),
    ).with("protocolVersion"@, JsonView::text("2025-03-26"@))
}

/// The result of `tools/list`.
pub open spec fn tools_view(tools: Seq<ToolView>) -> JsonView {
    JsonView::object().with(
        "tools"@,
        JsonView::Array(tools.map_values(|tool: ToolView| tool.listed())),
    )
}

/// The result of `resources/list`.
pub open spec fn resources_view(docs: Option<Entries>) -> JsonView {
    JsonView::object().with(
        "resources"@,
        JsonView::Array(
            match docs {
                Some(entries) => doc_resources(entries).map_values(
                    |resource: ResourceView| resource.listed(),
                ),
                None => Seq::empty(),
            },
        ),
    )
}

/// The answer to `resources/read` for `uri`.
pub open spec fn read_view(
    id: Option<JsonView>,
    docs: Option<Entries>,
    uri: Seq<char>,
) -> Option<JsonView> {
    match docs {
        None => failure(id, -32601, "resources not supported"@),
        Some(entries) => match doc_at(entries, uri) {
            Some(document) => success(
                id,
                JsonView::object().with(
                    "contents"@,
                    JsonView::Array(
                        seq![
                            (ContentsView {
                                content: document,
                                mime_type: "text/plain"@,
                            }).listed(),
                        ],
                    ),
                ),
            ),
            None => if text::has_prefix(uri, DOCS_SCHEME@) {
                failure(id, -32602, "Resource not found: "@ + uri)
            } else {
                failure(id, -32602, "Unsupported URI scheme: "@ + uri)
            },
        },
    }
}

/// What `tools/call` with these parameters leads to.
pub open spec fn call_step(id: Option<JsonView>, params: Option<JsonView>) -> HandledView {
    match params {
        None => HandledView::Reply(failure(id, -32602, "Invalid params: missing 'params'"@)),
        Some(p) => match json::text_in(p.get("name"@)) {
            None => HandledView::Reply(
                failure(id, -32602, "Invalid params: missing 'name' in params"@),
            ),
            Some(name) => HandledView::CallTool {
                id,
                name,
                arguments: match p.get("arguments"@) {
                    Some(arguments) => arguments,
                    None => JsonView::object(),
                },
                extra: p.get("_meta"@),
            },
        },
    }
}

/// What `resources/read` with these parameters is answered.
pub open spec fn read_step(
    id: Option<JsonView>,
    docs: Option<Entries>,
    params: Option<JsonView>,
) -> Option<JsonView> {
    match params {
        None => failure(id, -32602, "Invalid params: missing 'params'"@),
        Some(p) => match json::text_in(p.get("uri"@)) {
            None => failure(id, -32602, "Invalid params: missing 'uri' in params"@),
            Some(uri) => read_view(id, docs, uri),
        },
    }
}

/// What a cancellation names: the request in its parameters, a string as it is and anything else as
/// compact text; or else the message's own id as compact text; or else nothing.
pub open spec fn cancel_key(message: JsonView) -> Seq<char> {
    match json::get_in(message.get("params"@), "requestId"@) {
        Some(JsonView::String(s)) => s,
        Some(other) => value::text_or(other, Seq::empty()),
        None => match message.get("id"@) {
            Some(id) => value::text_or(id, Seq::empty()),
            None => Seq::empty(),
        },
    }
}

/// What `message` leads to.
pub open spec fn handled(handler: HandlerView, message: JsonView) -> HandledView {
    let id = message.get("id"@);
    match json::text_in(message.get("method"@)) {
        None => HandledView::Reply(failure(id, -32600, "Invalid Request: missing 'method'"@)),
        Some(method) => if method == "initialize"@ {
            HandledView::Reply(
                success(id, initialize_view(handler.server_name, handler.server_version)),
            )
        } else if method == "tools/list"@ {
            HandledView::Reply(success(id, tools_view(handler.tools)))
        } else if method == "tools/call"@ {
            call_step(id, message.get("params"@))
        } else if method == "resources/list"@ {
            HandledView::Reply(success(id, resources_view(handler.listed)))
        } else if method == "resources/read"@ {
            HandledView::Reply(read_step(id, handler.docs, message.get("params"@)))
        } else if method == "notifications/initialized"@ {
            HandledView::Reply(None)
        } else if method == "notifications/cancelled"@ {
            if handler.cancels {
                HandledView::Cancel(cancel_key(message))
            } else {
                HandledView::Reply(None)
            }
        } else {
            HandledView::Reply(failure(id, -32601, "unknown method: "@ + method))
        },
    }
}

/// A piece of text in the result of `tools/call`.
pub open spec fn piece_view(piece: TextView) -> JsonView {
    JsonView::object().with("type"@, JsonView::text(piece.content_type)).with(
        "text"@,
        JsonView::text(piece.text),
    )
}

/// The pieces of text in the result of `tools/call`.
pub open spec fn pieces_view(content: Seq<TextView>) -> Seq<JsonView> {
    content.map_values(|piece: TextView| piece_view(piece))
}

/// The result of `tools/call`.
pub open spec fn call_view(content: Seq<TextView>, is_error: bool) -> JsonView {
    JsonView::object().with("content"@, JsonView::Array(pieces_view(content))).with(
        "isError"@,
        JsonView::Bool(is_error),
    )
}

impl ServerHandler {
    /// The handler of a server; nothing where the server does not both list and call tools.
    pub fn from_server(server: &MCPServer, init_options: InitializationOptions) -> (r: Option<
        ServerHandler,
    >)
        ensures
            match r {
                Some(handler) => handler_for(
                    handler@,
                    server@,
                    init_options.server_name@,
                    init_options.server_version@,
                ),
                None => !offers_tools(server@),
            },
    {
        if !server.calls {
            return None;
        }
        match &server.tools {
            Some(tools) => Some(
                ServerHandler {
                    tools: copy_tools(tools),
                    listed: match &server.listed {
                        Some(docs) => Some(docs.clone()),
                        None => None,
                    },
                    docs: match &server.docs {
                        Some(docs) => Some(docs.clone()),
                        None => None,
                    },
                    init_options,
                    cancels: false,
                },
            ),
            None => None,
        }
    }

    /// The handler, with somebody to be told of cancellations.
    pub fn with_cancel_handler(self) -> (handler: ServerHandler)
        ensures
            handler@ == (HandlerView { cancels: true, ..self@ }),
    {
        let mut handler = self;
        handler.cancels = true;
        handler
    }

    /// The outcome of a request that failed.
    pub fn rpc_error(code: i32, message: &str) -> (result: RpcResult)
        ensures
            result matches RpcResult::Error { code: c, message: m } && c == code && m@ == message@,
    {
        RpcResult::Error { code, message: message.to_string() }
    }

    /// The answer to the request `id` with this outcome.
    pub fn wrap_response(id: Option<Json>, result: RpcResult) -> (reply: Option<Json>)
        ensures
            json::opt_view(reply) == wrapped(json::opt_view(id), result),
    {
        match result {
            RpcResult::Notification => None,
            RpcResult::Success(value) => match id {
                Some(id) => Some(
                    Json::object().with("jsonrpc", Json::text("2.0")).with("id", id).with(
                        "result",
                        value,
                    ),
                ),
                None => None,
            },
            RpcResult::Error { code, message } => match id {
                Some(id) => Some(
                    Json::object().with("jsonrpc", Json::text("2.0")).with("id", id).with(
                        "error",
                        Json::object().with("code", Json::integer(code as i64)).with(
                            "message",
                            Json::text(message.as_str()),
                        ),
                    ),
                ),
                None => None,
            },
        }
    }

    fn fail(id: Option<Json>, code: i32, message: &str) -> (handled: Handled)
        ensures
            handled@ == HandledView::Reply(failure(json::opt_view(id), code as int, message@)),
    {
        Handled::Reply(Self::wrap_response(id, Self::rpc_error(code, message)))
    }

    fn succeed(id: Option<Json>, result: Json) -> (handled: Handled)
        ensures
            handled@ == HandledView::Reply(success(json::opt_view(id), result@)),
    {
        Handled::Reply(Self::wrap_response(id, RpcResult::Success(result)))
    }

    fn initialize(&self) -> (result: Json)
        ensures
            result@ == initialize_view(self@.server_name, self@.server_version),
    {
        Json::object().with(
            "capabilities",
            Json::object().with(
                "tools",
                Json::object().with("listChanged", Json::Bool(true)),
            ).with("resources", Json::object().with("listChanged", Json::Bool(false))),
        ).with(
            "serverInfo",
            Json::object().with(
                "name",
                Json::text(self.init_options.server_name.as_str()),
            ).with("version", Json::text(self.init_options.server_version.as_str())),
        ).with("protocolVersion", Json::text("2025-03-26"))
    }

    fn tools_list(&self) -> (result: Json)
        ensures
            result@ == tools_view(self@.tools),
    {
        let mut list: Vec<Json> = Vec::new();
        let mut i: usize = 0;
        while i < self.tools.len()
            invariant
                i <= self.tools.len(),
                list.len() == i,
                forall|j: int| 0 <= j < i ==> (#[trigger] list@[j])@ == self.tools@[j]@.listed(),
            decreases self.tools.len() - i,
        {
            list.push(self.tools[i].to_listed());
            i = i + 1;
        }
        assert(json::views(list@) =~= self@.tools.map_values(|tool: ToolView| tool.listed()));
        Json::object().with("tools", Json::array(list))
    }

    fn resources_list(&self) -> (result: Json)
        ensures
            result@ == resources_view(self@.listed),
    {
        let mut list: Vec<Json> = Vec::new();
        match &self.listed {
            Some(docs) => {
                let resources = list_docs(docs);
                let mut i: usize = 0;
                while i < resources.len()
                    invariant
                        i <= resources.len(),
                        list.len() == i,
                        forall|j: int|
                            0 <= j < i ==> (#[trigger] list@[j])@ == resources@[j]@.listed(),
                    decreases resources.len() - i,
                {
                    list.push(resources[i].to_listed());
                    i = i + 1;
                }
                assert(json::views(list@) =~= types::resource_views(resources@).map_values(
                    |resource: ResourceView| resource.listed(),
                ));
            },
            None => {
                assert(json::views(list@) =~= Seq::<JsonView>::empty());
            },
        }
        Json::object().with("resources", Json::array(list))
    }

    fn resources_read(&self, id: Option<Json>, uri: &str) -> (handled: Handled)
        ensures
            handled@ == HandledView::Reply(read_view(json::opt_view(id), self@.docs, uri@)),
    {
        let docs = match &self.docs {
            Some(docs) => docs,
            None => {
                return Self::fail(id, -32601, "resources not supported");
            },
        };
        match read_doc(docs, uri) {
            Ok(contents) => {
                let mut list: Vec<Json> = Vec::new();
                assert(types::contents_views(contents@).len() == 1);
                assert(types::contents_views(contents@)[0] == contents@[0]@);
                list.push(contents[0].to_listed());
                assert(json::views(list@) =~= seq![contents@[0]@.listed()]);
                Self::succeed(id, Json::object().with("contents", Json::array(list)))
            },
            Err(error) => Self::fail(id, -32602, error.describe().as_str()),
        }
    }

    fn cancel_key(message: &Json) -> (key: String)
        ensures
            key@ == cancel_key(message@),
    {
        let request = match message.get("params") {
            Some(params) => params.get("requestId"),
            None => None,
        };
        match request {
            Some(Json::String(s)) => s.clone(),
            Some(other) => value::show(other),
            None => match message.get("id") {
                Some(id) => value::show(id),
                None => {
                    let key = String::new();
                    assert(key@ =~= Seq::<char>::empty());
                    key
                },
            },
        }
    }

    /// What `message` leads to.
    pub fn handle_message(&self, message: &Json) -> (r: Handled)
        ensures
            r@ == handled(self@, message@),
    {
        let id = types::copy_ref(message.get("id"));
        let method = match message.get("method") {
            Some(m) => m.as_str(),
            None => None,
        };
        let method = match method {
            Some(m) => m,
            None => {
                return Self::fail(id, -32600, "Invalid Request: missing 'method'");
            },
        };
        if text::same(method, "initialize") {
            Self::succeed(id, self.initialize())
        } else if text::same(method, "tools/list") {
            Self::succeed(id, self.tools_list())
        } else if text::same(method, "tools/call") {
            let params = match message.get("params") {
                Some(params) => params,
                None => {
                    return Self::fail(id, -32602, "Invalid params: missing 'params'");
                },
            };
            let name = match params.get("name") {
                Some(name) => name.as_str(),
                None => None,
            };
            match name {
                Some(name) => Handled::CallTool {
                    id,
                    name: name.to_string(),
                    arguments: match params.get("arguments") {
                        Some(arguments) => arguments.clone(),
                        None => Json::object(),
                    },
                    extra: types::copy_ref(params.get("_meta")),
                },
                None => Self::fail(id, -32602, "Invalid params: missing 'name' in params"),
            }
        } else if text::same(method, "resources/list") {
            Self::succeed(id, self.resources_list())
        } else if text::same(method, "resources/read") {
            let params = match message.get("params") {
                Some(params) => params,
                None => {
                    return Self::fail(id, -32602, "Invalid params: missing 'params'");
                },
            };
            let uri = match params.get("uri") {
                Some(uri) => uri.as_str(),
                None => None,
            };
            match uri {
                Some(uri) => self.resources_read(id, uri),
                None => Self::fail(id, -32602, "Invalid params: missing 'uri' in params"),
            }
        } else if text::same(method, "notifications/initialized") {
            Handled::Reply(None)
        } else if text::same(method, "notifications/cancelled") {
            if self.cancels {
                Handled::Cancel(Self::cancel_key(message))
            } else {
                Handled::Reply(None)
            }
        } else {
            let unknown = "unknown method: ".to_string().concat(method);
            Self::fail(id, -32601, unknown.as_str())
        }
    }

    /// The answer to the call of a tool under the request `id`.
    pub fn finish_call(id: Option<Json>, result: &CallToolResult) -> (reply: Option<Json>)
        ensures
            json::opt_view(reply) == success(
                json::opt_view(id),
                call_view(types::text_views(result.content@), result.is_error),
            ),
    {
        let mut list: Vec<Json> = Vec::new();
        let mut i: usize = 0;
        while i < result.content.len()
            invariant
                i <= result.content.len(),
                list.len() == i,
                forall|j: int|
                    0 <= j < i ==> (#[trigger] list@[j])@ == piece_view(result.content@[j]@),
            decreases result.content.len() - i,
        {
            list.push(
                Json::object().with(
                    "type",
                    Json::text(result.content[i].content_type.as_str()),
                ).with("text", Json::text(result.content[i].text.as_str())),
            );
            i = i + 1;
        }
        assert(json::views(list@) =~= pieces_view(types::text_views(result.content@)));
        let reply = Json::object().with("content", Json::array(list)).with(
            "isError",
            Json::Bool(result.is_error),
        );
        Self::wrap_response(id, RpcResult::Success(reply))
    }
}

/// A well-formed answer to the request `id`: it names the request, and has either a result or an
/// error.
pub open spec fn answers(reply: JsonView, id: JsonView) -> bool {
    &&& reply.get("jsonrpc"@) == Some(JsonView::text("2.0"@))
    &&& reply.get("id"@) == Some(id)
    &&& reply.get("result"@) is Some <==> reply.get("error"@) is None
}

proof fn lemma_answer_keys()
    ensures
        "jsonrpc"@ != "id"@,
        "jsonrpc"@ != "result"@,
        "jsonrpc"@ != "error"@,
        "id"@ != "result"@,
        "id"@ != "error"@,
        "result"@ != "error"@,
{
    reveal_strlit("jsonrpc");
    reveal_strlit("id");
    reveal_strlit("result");
    reveal_strlit("error");
    assert("jsonrpc"@.len() == 7);
    assert("id"@.len() == 2);
    assert("result"@.len() == 6);
    assert("error"@.len() == 5);
}

proof fn lemma_success_answers(id: JsonView, result: JsonView)
    ensures
        success(Some(id), result) matches Some(reply) && answers(reply, id),
{
    broadcast use {json::lemma_get_with, json::group_lookup};

    lemma_answer_keys();
}

proof fn lemma_failure_answers(id: JsonView, code: int, message: Seq<char>)
    ensures
        failure(Some(id), code, message) matches Some(reply) && answers(reply, id),
{
    broadcast use {json::lemma_get_with, json::group_lookup};

    lemma_answer_keys();
}

proof fn lemma_read_answers(id: JsonView, docs: Option<Entries>, params: Option<JsonView>)
    ensures
        read_step(Some(id), docs, params) matches Some(reply) && answers(reply, id),
{
    lemma_failure_answers(id, -32602, "Invalid params: missing 'params'"@);
    lemma_failure_answers(id, -32602, "Invalid params: missing 'uri' in params"@);
    lemma_failure_answers(id, -32601, "resources not supported"@);
    if let Some(p) = params {
        if let Some(uri) = json::text_in(p.get("uri"@)) {
            lemma_failure_answers(id, -32602, "Resource not found: "@ + uri);
            lemma_failure_answers(id, -32602, "Unsupported URI scheme: "@ + uri);
            if let Some(entries) = docs {
                if let Some(document) = doc_at(entries, uri) {
                    let contents = ContentsView { content: document, mime_type: "text/plain"@ };
                    lemma_success_answers(
                        id,
                        JsonView::object().with(
                            "contents"@,
                            JsonView::Array(seq![contents.listed()]),
                        ),
                    );
                }
            }
        }
    }
}

/// Whether a method is that of a notification, which wants no answer.
pub open spec fn notification_method(method: Option<Seq<char>>) -> bool {
    method == Some("notifications/initialized"@) || method == Some("notifications/cancelled"@)
}

/// Every request gets one well-formed answer to itself: at once, or when the tool that it calls has
/// given its result.
pub proof fn law_requests_are_answered(
    handler: HandlerView,
    message: JsonView,
    id: JsonView,
    result: JsonView,
)
    requires
        message.get("id"@) == Some(id),
        !notification_method(json::text_in(message.get("method"@))),
    ensures
        match handled(handler, message) {
            HandledView::Reply(reply) => reply matches Some(r) && answers(r, id),
            HandledView::CallTool { id: call_id, .. } => call_id == Some(id) && (success(
                call_id,
                result,
            ) matches Some(r) && answers(r, id)),
            HandledView::Cancel(_) => false,
        },
{
    reveal_strlit("notifications/cancelled");
    lemma_failure_answers(id, -32600, "Invalid Request: missing 'method'"@);
    lemma_failure_answers(id, -32602, "Invalid params: missing 'params'"@);
    lemma_failure_answers(id, -32602, "Invalid params: missing 'name' in params"@);
    lemma_success_answers(id, initialize_view(handler.server_name, handler.server_version));
    lemma_success_answers(id, tools_view(handler.tools));
    lemma_success_answers(id, resources_view(handler.listed));
    lemma_success_answers(id, result);
    lemma_read_answers(id, handler.docs, message.get("params"@));
    if let Some(method) = json::text_in(message.get("method"@)) {
        lemma_failure_answers(id, -32601, "unknown method: "@ + method);
    }
}

/// A message without an id is never answered, neither at once nor when a tool that it calls has
/// given its result.
pub proof fn law_notifications_are_not_answered(
    handler: HandlerView,
    message: JsonView,
    result: JsonView,
)
    requires
        message.get("id"@) is None,
    ensures
        match handled(handler, message) {
            HandledView::Reply(reply) => reply is None,
            HandledView::CallTool { id, .. } => id is None && success(id, result) is None,
            HandledView::Cancel(_) => true,
        },
{
}

/// An answer is one of the protocol's version, names its request, and has the result of a request
/// that succeeded or the code and the message of one that failed; a message without an id, and one
/// that wants no answer, gets none.
pub proof fn law_answers_are_wrapped(
    id: Json,
    result: Json,
    code: i32,
    message: &str,
    failed: RpcResult,
    success: Option<Json>,
    failure: Option<Json>,
    silent: Option<Json>,
    unasked: Option<Json>,
    unasked_failure: Option<Json>,
)
    requires
        call_ensures(ServerHandler::rpc_error, (code, message), failed),
        call_ensures(
            ServerHandler::wrap_response,
            (Some(id), RpcResult::Success(result)),
            success,
        ),
        call_ensures(ServerHandler::wrap_response, (Some(id), failed), failure),
        call_ensures(ServerHandler::wrap_response, (Some(id), RpcResult::Notification), silent),
        call_ensures(
            ServerHandler::wrap_response,
            (None::<Json>, RpcResult::Success(result)),
            unasked,
        ),
        call_ensures(ServerHandler::wrap_response, (None::<Json>, failed), unasked_failure),
    ensures
        success matches Some(reply) && reply@.get("jsonrpc"@) == Some(JsonView::String("2.0"@))
            && reply@.get("id"@) == Some(id@) && reply@.get("result"@) == Some(result@)
            && reply@.get("error"@) is None,
        failure matches Some(reply) && reply@.get("jsonrpc"@) == Some(JsonView::String("2.0"@))
            && reply@.get("id"@) == Some(id@) && reply@.get("result"@) is None && (reply@.get(
            "error"@,
        ) matches Some(error) && error.get("code"@) == Some(
            JsonView::Number(json::NumberView::Int(code as int)),
        ) && error.get("message"@) == Some(JsonView::String(message@))),
        silent is None,
        unasked is None,
        unasked_failure is None,
{
    broadcast use json::group_members;

    reveal_strlit("jsonrpc");
    reveal_strlit("id");
    reveal_strlit("result");
    reveal_strlit("error");
    reveal_strlit("code");
    reveal_strlit("message");
    assert("jsonrpc"@.len() == 7);
    assert("id"@.len() == 2);
    assert("result"@.len() == 6);
    assert("error"@.len() == 5);
    assert("code"@.len() == 4);
    assert("message"@.len() == 7);
    assert("jsonrpc"@[0] != "message"@[0]);
}

/// The answer to a call that ended says whether the result is an error, and has one object for each
/// piece of text, in their order and with their types and texts. A call without an id gets none.
pub proof fn law_finished_calls_are_answered(
    id: Json,
    result: &CallToolResult,
    reply: Option<Json>,
    unasked: Option<Json>,
)
    requires
        call_ensures(ServerHandler::finish_call, (Some(id), result), reply),
        call_ensures(ServerHandler::finish_call, (None::<Json>, result), unasked),
    ensures
        unasked is None,
        reply matches Some(answer) && answer@.get("jsonrpc"@) == Some(JsonView::String("2.0"@))
            && answer@.get("id"@) == Some(id@) && answer@.get("error"@) is None && (answer@.get(
            "result"@,
        ) matches Some(shown) && shown.get("isError"@) == Some(JsonView::Bool(result.is_error)) && (
        shown.get("content"@) matches Some(JsonView::Array(pieces)) && pieces.len()
            == result.content@.len() && forall|i: int|
            0 <= i < pieces.len() ==> (#[trigger] pieces[i]).get("type"@) == Some(
                JsonView::String(result.content@[i].content_type@),
            ) && pieces[i].get("text"@) == Some(JsonView::String(result.content@[i].text@)))),
{
    broadcast use json::group_members;

    reveal_strlit("jsonrpc");
    reveal_strlit("id");
    reveal_strlit("result");
    reveal_strlit("error");
    reveal_strlit("isError");
    reveal_strlit("content");
    reveal_strlit("type");
    reveal_strlit("text");
    assert("jsonrpc"@.len() == 7);
    assert("id"@.len() == 2);
    assert("result"@.len() == 6);
    assert("error"@.len() == 5);
    assert("isError"@.len() == 7);
    assert("content"@.len() == 7);
    assert("type"@.len() == 4);
    assert("text"@.len() == 4);
    assert("jsonrpc"@[0] != "isError"@[0]);
    assert("jsonrpc"@[0] != "content"@[0]);
    assert("isError"@[0] != "content"@[0]);
    assert("type"@[1] != "text"@[1]);
}

/// The message asks for this.
pub open spec fn asks(message: JsonView, method: Seq<char>) -> bool {
    message.get("method"@) == Some(JsonView::String(method))
}

/// The reply answers the request `id` with this result.
pub open spec fn answered_with(reply: HandledView, id: JsonView, result: JsonView) -> bool {
    reply matches HandledView::Reply(Some(answer)) && answer.get("jsonrpc"@) == Some(
        JsonView::String("2.0"@),
    ) && answer.get("id"@) == Some(id) && answer.get("result"@) == Some(result) && answer.get(
        "error"@,
    ) is None
}

/// The reply refuses the request `id` with this code and message.
pub open spec fn refused_with(
    reply: HandledView,
    id: JsonView,
    code: int,
    message: Seq<char>,
) -> bool {
    reply matches HandledView::Reply(Some(answer)) && answer.get("jsonrpc"@) == Some(
        JsonView::String("2.0"@),
    ) && answer.get("id"@) == Some(id) && answer.get("result"@) is None && (answer.get("error"@)
        matches Some(error) && error.get("code"@) == Some(JsonView::Number(json::NumberView::Int(code)))
        && error.get("message"@) == Some(JsonView::String(message)))
}

proof fn lemma_methods_differ()
    ensures
        "initialize"@ != "tools/list"@,
        "initialize"@ != "tools/call"@,
        "initialize"@ != "resources/list"@,
        "initialize"@ != "resources/read"@,
        "initialize"@ != "notifications/initialized"@,
        "initialize"@ != "notifications/cancelled"@,
        "tools/list"@ != "tools/call"@,
        "tools/list"@ != "resources/list"@,
        "tools/list"@ != "resources/read"@,
        "tools/list"@ != "notifications/initialized"@,
        "tools/list"@ != "notifications/cancelled"@,
        "tools/call"@ != "resources/list"@,
        "tools/call"@ != "resources/read"@,
        "tools/call"@ != "notifications/initialized"@,
        "tools/call"@ != "notifications/cancelled"@,
        "resources/list"@ != "resources/read"@,
        "resources/list"@ != "notifications/initialized"@,
        "resources/list"@ != "notifications/cancelled"@,
        "resources/read"@ != "notifications/initialized"@,
        "resources/read"@ != "notifications/cancelled"@,
        "notifications/initialized"@ != "notifications/cancelled"@,
{
    reveal_strlit("initialize");
    reveal_strlit("tools/list");
    reveal_strlit("tools/call");
    reveal_strlit("resources/list");
    reveal_strlit("resources/read");
    reveal_strlit("notifications/initialized");
    reveal_strlit("notifications/cancelled");
    assert("initialize"@.len() == 10);
    assert("tools/list"@.len() == 10);
    assert("tools/call"@.len() == 10);
    assert("resources/list"@.len() == 14);
    assert("resources/read"@.len() == 14);
    assert("notifications/initialized"@.len() == 25);
    assert("notifications/cancelled"@.len() == 23);
    assert("initialize"@[0] != "tools/list"@[0]);
    assert("initialize"@[0] != "tools/call"@[0]);
    assert("tools/list"@[6] != "tools/call"@[6]);
    assert("resources/list"@[10] != "resources/read"@[10]);
}

proof fn lemma_answered(id: JsonView, result: JsonView)
    ensures
        answered_with(HandledView::Reply(success(Some(id), result)), id, result),
{
    broadcast use json::group_members;

    lemma_answer_keys();
}

proof fn lemma_refused(id: JsonView, code: int, message: Seq<char>)
    ensures
        refused_with(HandledView::Reply(failure(Some(id), code, message)), id, code, message),
{
    broadcast use json::group_members;

    lemma_answer_keys();
    reveal_strlit("code");
    reveal_strlit("message");
    assert("code"@.len() == 4);
    assert("message"@.len() == 7);
}

/// A client that connects is told the server's own name and version, the version of the protocol,
/// and what is offered.
pub proof fn law_clients_are_told_who_serves(
    handler: &ServerHandler,
    message: &Json,
    id: JsonView,
    handled: Handled,
)
    requires
        call_ensures(ServerHandler::handle_message, (handler, message), handled),
        message@.get("id"@) == Some(id),
        asks(message@, "initialize"@),
    ensures
        handled matches Handled::Reply(Some(answer)) && answer@.get("id"@) == Some(id)
            && answer@.get("error"@) is None && (answer@.get("result"@) matches Some(result)
            && result.get("protocolVersion"@) == Some(JsonView::String("2025-03-26"@)) && (
        result.get("serverInfo"@) matches Some(info) && info.get("name"@) == Some(
            JsonView::String(handler@.server_name),
        ) && info.get("version"@) == Some(JsonView::String(handler@.server_version))) && (
        result.get("capabilities"@) matches Some(offered) && (offered.get("tools"@) matches Some(
            tools,
        ) && tools.get("listChanged"@) == Some(JsonView::Bool(true))) && (offered.get(
            "resources"@,
        ) matches Some(resources) && resources.get("listChanged"@) == Some(
            JsonView::Bool(false),
        )))),
{
    broadcast use json::group_members;

    lemma_answer_keys();
    lemma_methods_differ();
    reveal_strlit("protocolVersion");
    reveal_strlit("serverInfo");
    reveal_strlit("name");
    reveal_strlit("version");
    reveal_strlit("capabilities");
    reveal_strlit("tools");
    reveal_strlit("listChanged");
    reveal_strlit("resources");
    assert("protocolVersion"@.len() == 15);
    assert("serverInfo"@.len() == 10);
    assert("name"@.len() == 4);
    assert("version"@.len() == 7);
    assert("capabilities"@.len() == 12);
    assert("tools"@.len() == 5);
    assert("listChanged"@.len() == 11);
    assert("resources"@.len() == 9);
}

/// All the tools of a server are listed, in their order, each with its own name, description,
/// schema and hints.
pub proof fn law_all_tools_are_listed(
    handler: &ServerHandler,
    message: &Json,
    id: JsonView,
    handled: Handled,
)
    requires
        call_ensures(ServerHandler::handle_message, (handler, message), handled),
        message@.get("id"@) == Some(id),
        asks(message@, "tools/list"@),
    ensures
        handled matches Handled::Reply(Some(answer)) && answer@.get("id"@) == Some(id)
            && answer@.get("error"@) is None && (answer@.get("result"@) matches Some(result) && (
        result.get("tools"@) matches Some(JsonView::Array(tools)) && tools.len()
            == handler@.tools.len() && forall|i: int|
            0 <= i < tools.len() ==> (#[trigger] tools[i]).get("name"@) == Some(
                JsonView::String(handler@.tools[i].name),
            ) && tools[i].get("description"@) == Some(
                JsonView::String(handler@.tools[i].description),
            ) && tools[i].get("inputSchema"@) == Some(handler@.tools[i].input_schema) && (
            tools[i].get("annotations"@) is Some == handler@.tools[i].annotations is Some) && (
            handler@.tools[i].annotations matches Some(hints) ==> (tools[i].get("annotations"@)
                matches Some(shown) && shown.get("readOnlyHint"@) == (match hints.read_only_hint {
                Some(flag) => Some(JsonView::Bool(flag)),
                None => None,
            }) && shown.get("destructiveHint"@) == (match hints.destructive_hint {
                Some(flag) => Some(JsonView::Bool(flag)),
                None => None,
            }) && shown.get("idempotentHint"@) == (match hints.idempotent_hint {
                Some(flag) => Some(JsonView::Bool(flag)),
                None => None,
            }) && shown.get("openWorldHint"@) == (match hints.open_world_hint {
                Some(flag) => Some(JsonView::Bool(flag)),
                None => None,
            }))))),
{
    broadcast use json::group_members;

    lemma_answer_keys();
    lemma_methods_differ();
    reveal_strlit("tools");
    reveal_strlit("name");
    reveal_strlit("description");
    reveal_strlit("inputSchema");
    reveal_strlit("annotations");
    reveal_strlit("title");
    reveal_strlit("readOnlyHint");
    reveal_strlit("destructiveHint");
    reveal_strlit("idempotentHint");
    reveal_strlit("openWorldHint");
    assert("tools"@.len() == 5);
    assert("name"@.len() == 4);
    assert("description"@.len() == 11);
    assert("inputSchema"@.len() == 11);
    assert("annotations"@.len() == 11);
    assert("title"@.len() == 5);
    assert("readOnlyHint"@.len() == 12);
    assert("destructiveHint"@.len() == 15);
    assert("idempotentHint"@.len() == 14);
    assert("openWorldHint"@.len() == 13);
    assert("tools"@[1] != "title"@[1]);
    assert("description"@[0] != "inputSchema"@[0]);
    assert("description"@[0] != "annotations"@[0]);
    assert("inputSchema"@[0] != "annotations"@[0]);
}

/// A call of a tool goes to the tool that it names, with the arguments and the metadata that it
/// comes with, under its own id. A call that names no tool is refused.
pub proof fn law_calls_go_to_their_tools(
    handler: &ServerHandler,
    message: &Json,
    handled: Handled,
)
    requires
        call_ensures(ServerHandler::handle_message, (handler, message), handled),
        asks(message@, "tools/call"@),
    ensures
        json::get_in(message@.get("params"@), "name"@) matches Some(JsonView::String(tool)) ==> (
        handled matches Handled::CallTool { id, name, arguments, extra } && json::opt_view(id)
            == message@.get("id"@) && name@ == tool && arguments@ == (match json::get_in(
            message@.get("params"@),
            "arguments"@,
        ) {
            Some(given) => given,
            None => JsonView::Object(Seq::empty()),
        }) && json::opt_view(extra) == json::get_in(message@.get("params"@), "_meta"@)),
        message@.get("id"@) matches Some(id) ==> (message@.get("params"@) is None
            ==> refused_with(handled@, id, -32602, "Invalid params: missing 'params'"@)),
        message@.get("id"@) matches Some(id) ==> (message@.get("params"@) is Some && !(
        json::get_in(message@.get("params"@), "name"@) matches Some(JsonView::String(_)))
            ==> refused_with(handled@, id, -32602, "Invalid params: missing 'name' in params"@)),
{
    lemma_methods_differ();
    if let Some(id) = message@.get("id"@) {
        lemma_refused(id, -32602, "Invalid params: missing 'params'"@);
        lemma_refused(id, -32602, "Invalid params: missing 'name' in params"@);
    }
}

/// All documentation is listed, in the order of the modules: where it is read, what it is called,
/// and that it is plain text.
pub proof fn law_all_documentation_is_listed(
    handler: &ServerHandler,
    message: &Json,
    id: JsonView,
    handled: Handled,
)
    requires
        call_ensures(ServerHandler::handle_message, (handler, message), handled),
        message@.get("id"@) == Some(id),
        asks(message@, "resources/list"@),
    ensures
        handled matches Handled::Reply(Some(answer)) && answer@.get("id"@) == Some(id)
            && answer@.get("error"@) is None && (answer@.get("result"@) matches Some(result) && (
        result.get("resources"@) matches Some(JsonView::Array(resources)) && match handler@.listed {
            Some(docs) => resources.len() == docs.len() && forall|i: int|
                0 <= i < resources.len() ==> (#[trigger] resources[i]).get("uri"@) == Some(
                    JsonView::String("docs://"@ + docs[i].0),
                ) && resources[i].get("name"@) == Some(
                    JsonView::String(docs[i].0 + " documentation"@),
                ) && resources[i].get("mimeType"@) == Some(JsonView::String("text/plain"@)),
            None => resources.len() == 0,
        })),
{
    broadcast use json::group_members;

    lemma_answer_keys();
    lemma_methods_differ();
    reveal_strlit("resources");
    reveal_strlit("uri");
    reveal_strlit("name");
    reveal_strlit("mimeType");
    assert("resources"@.len() == 9);
    assert("uri"@.len() == 3);
    assert("name"@.len() == 4);
    assert("mimeType"@.len() == 8);
}

/// Reading the documentation of a module gives exactly its text; what is not there, what has
/// another scheme and what names nothing is refused, each with its own reason.
pub proof fn law_documentation_is_read(
    handler: &ServerHandler,
    message: &Json,
    id: JsonView,
    handled: Handled,
    module_id: Seq<char>,
)
    requires
        call_ensures(ServerHandler::handle_message, (handler, message), handled),
        message@.get("id"@) == Some(id),
        asks(message@, "resources/read"@),
    ensures
        message@.get("params"@) is None ==> refused_with(
            handled@,
            id,
            -32602,
            "Invalid params: missing 'params'"@,
        ),
        message@.get("params"@) is Some && !(json::get_in(message@.get("params"@), "uri"@) matches Some(
            JsonView::String(_),
        )) ==> refused_with(handled@, id, -32602, "Invalid params: missing 'uri' in params"@),
        json::get_in(message@.get("params"@), "uri"@) matches Some(JsonView::String(uri))
            ==> match handler@.docs {
            None => refused_with(handled@, id, -32601, "resources not supported"@),
            Some(docs) => {
                &&& uri == "docs://"@ + module_id ==> match JsonView::Object(docs).get(module_id) {
                    Some(JsonView::String(document)) => handled matches Handled::Reply(Some(answer))
                        && answer@.get("id"@) == Some(id) && answer@.get("error"@) is None && (
                    answer@.get("result"@) matches Some(result) && (result.get("contents"@) matches Some(
                        JsonView::Array(contents),
                    ) && contents.len() == 1 && contents[0].get("content"@) == Some(
                        JsonView::String(document),
                    ) && contents[0].get("mimeType"@) == Some(JsonView::String("text/plain"@)))),
                    _ => refused_with(handled@, id, -32602, "Resource not found: "@ + uri),
                }
                &&& !text::has_prefix(uri, "docs://"@) ==> refused_with(
                    handled@,
                    id,
                    -32602,
                    "Unsupported URI scheme: "@ + uri,
                )
            },
        },
{
    broadcast use json::group_members;

    lemma_answer_keys();
    lemma_methods_differ();
    reveal_strlit("contents");
    reveal_strlit("content");
    reveal_strlit("mimeType");
    assert("contents"@.len() == 8);
    assert("content"@.len() == 7);
    assert("mimeType"@.len() == 8);
    assert("contents"@[0] != "mimeType"@[0]);
    lemma_refused(id, -32602, "Invalid params: missing 'params'"@);
    lemma_refused(id, -32602, "Invalid params: missing 'uri' in params"@);
    lemma_refused(id, -32601, "resources not supported"@);
    if let Some(JsonView::String(uri)) = json::get_in(message@.get("params"@), "uri"@) {
        lemma_refused(id, -32602, "Resource not found: "@ + uri);
        lemma_refused(id, -32602, "Unsupported URI scheme: "@ + uri);
        if uri == "docs://"@ + module_id {
            assert(uri.take(DOCS_SCHEME@.len() as int) =~= DOCS_SCHEME@);
            assert(uri.skip(DOCS_SCHEME@.len() as int) =~= module_id);
        }
    }
}

/// Notifications are not answered. A cancellation is passed on, where somebody is to be told, with
/// the request that it names, or else with the message's own id.
pub proof fn law_notifications_are_passed_on(
    handler: &ServerHandler,
    message: &Json,
    handled: Handled,
    request: &Json,
    shown: String,
)
    requires
        call_ensures(ServerHandler::handle_message, (handler, message), handled),
        call_ensures(value::show, (request,), shown),
    ensures
        asks(message@, "notifications/initialized"@) ==> (handled matches Handled::Reply(reply)
            && reply is None),
        asks(message@, "notifications/cancelled"@) && !handler@.cancels ==> (
        handled matches Handled::Reply(reply) && reply is None),
        asks(message@, "notifications/cancelled"@) && handler@.cancels ==> (
        handled matches Handled::Cancel(key) && match json::get_in(
            message@.get("params"@),
            "requestId"@,
        ) {
            Some(JsonView::String(named)) => key@ == named,
            Some(other) => other == request@ ==> key@ == shown@,
            None => match message@.get("id"@) {
                Some(own) => own == request@ ==> key@ == shown@,
                None => key@.len() == 0,
            },
        }),
{
    lemma_methods_differ();
}

/// What no method is asked for is refused as no request, and what nobody knows as an unknown
/// method.
pub proof fn law_unknown_methods_are_refused(
    handler: &ServerHandler,
    message: &Json,
    id: JsonView,
    handled: Handled,
)
    requires
        call_ensures(ServerHandler::handle_message, (handler, message), handled),
        message@.get("id"@) == Some(id),
    ensures
        !(message@.get("method"@) matches Some(JsonView::String(_))) ==> refused_with(
            handled@,
            id,
            -32600,
            "Invalid Request: missing 'method'"@,
        ),
        message@.get("method"@) matches Some(JsonView::String(method)) ==> method != "initialize"@
            && method != "tools/list"@ && method != "tools/call"@ && method != "resources/list"@
            && method != "resources/read"@ && method != "notifications/initialized"@ && method
            != "notifications/cancelled"@ ==> refused_with(
            handled@,
            id,
            -32601,
            "unknown method: "@ + method,
        ),
{
    lemma_refused(id, -32600, "Invalid Request: missing 'method'"@);
    if let Some(JsonView::String(method)) = message@.get("method"@) {
        lemma_refused(id, -32601, "unknown method: "@ + method);
    }
}

/// The name of a transport means that transport in any mixture of cases, and nothing else means it;
/// a name that means none is given back.
pub proof fn law_transports_are_named(
    name: &str,
    parsed: Result<TransportKind, ParseTransportError>,
    kind: TransportKind,
    own: &'static str,
    error: &ParseTransportError,
    described: String,
)
    requires
        call_ensures(TransportKind::parse, (name,), parsed),
        call_ensures(TransportKind::name, (kind,), own),
        call_ensures(ParseTransportError::describe, (error,), described),
    ensures
        parsed matches Ok(TransportKind::Stdio) <==> text::lower(name@) == "stdio"@,
        parsed matches Ok(TransportKind::StreamableHttp) <==> text::lower(name@)
            == "streamable-http"@,
        parsed matches Ok(TransportKind::Sse) <==> text::lower(name@) == "sse"@,
        parsed matches Err(unknown) ==> unknown.0@ == name@,
        own@ == (match kind {
            TransportKind::Stdio => "stdio"@,
            TransportKind::StreamableHttp => "streamable-http"@,
            TransportKind::Sse => "sse"@,
        }),
        described@ == "unknown transport: \""@ + error.0@ + "\""@,
{
    reveal_strlit("stdio");
    reveal_strlit("streamable-http");
    reveal_strlit("sse");
    assert("stdio"@.len() == 5);
    assert("streamable-http"@.len() == 15);
    assert("sse"@.len() == 3);
}

/// A server over HTTP is reached at its host and port, one over standard input and output at
/// neither.
pub proof fn law_servers_are_reached(
    kind: &TransportKind,
    host: &str,
    port: u16,
    address: String,
    written: String,
    server: &MCPServer,
    own: String,
)
    requires
        call_ensures(TransportKind::address, (kind, host, port), address),
        call_ensures(text::decimal, (port as u64,), written),
        call_ensures(MCPServer::address, (server,), own),
        server@.config.transport == *kind,
        server@.config.host@ == host@,
        server@.config.port == port,
    ensures
        *kind is Stdio ==> address@ == "stdio"@,
        !(*kind is Stdio) ==> address@ == "http://"@ + host@ + ":"@ + written@,
        own@ == address@,
{
}

/// An error names what it concerns.
pub proof fn law_factory_errors_name_their_subject(
    error: &FactoryError,
    described: String,
    n: usize,
    written: String,
)
    requires
        call_ensures(FactoryError::describe, (error,), described),
        call_ensures(text::decimal, (n as u64,), written),
    ensures
        match error {
            FactoryError::ResourceNotFound(uri) => described@ == "Resource not found: "@ + uri@,
            FactoryError::UnsupportedScheme(uri) => described@ == "Unsupported URI scheme: "@
                + uri@,
            FactoryError::ReservedPrefix(id) => described@ == "Reserved module id: '"@ + id@
                + "' (the '__apcore_' prefix is owned by the async task bridge)"@,
            FactoryError::InvalidName(length) => *length == n ==> described@
                == "Invalid server name: length "@ + written@
                + " (must be non-empty and at most 255 characters)"@,
            FactoryError::Other(reason) => described@ == reason@,
        },
{
}

/// A server that nothing else was asked of listens on standard input and output, requires
/// authentication over HTTP, and offers no explorer.
pub proof fn law_default_configuration(config: MCPServerConfig)
    requires
        call_ensures(<MCPServerConfig as Default>::default, (), config),
    ensures
        config.transport is Stdio,
        config.host@ == "127.0.0.1"@,
        config.port == 8000,
        config.name@ == "apcore-mcp"@,
        config.version is None,
        !config.validate_inputs,
        config.tags is None,
        config.prefix is None,
        config.require_auth,
        config.exempt_paths is None,
        !config.trace,
        config.strategy is None,
        !config.explorer,
        config.explorer_prefix@ == "/explorer"@,
        config.explorer_title@ == "MCP Tool Explorer"@,
        config.explorer_project_name is None,
        config.explorer_project_url is None,
        !config.allow_execute,
        !config.output_formatter,
{
    assert(config@ == default_config());
    assert(config@.version is None && config@.tags is None && config@.prefix is None);
    assert(config@.exempt_paths is None && config@.strategy is None);
    assert(config@.explorer_project_name is None && config@.explorer_project_url is None);
}

/// A server is set up with the parameters that it is given, and otherwise as by default; a
/// transport that is not known is taken for standard input and output.
pub proof fn law_servers_are_set_up(
    name: &str,
    transport: &str,
    host: &str,
    port: u16,
    server: MCPServer,
    parsed: Result<TransportKind, ParseTransportError>,
    own: &str,
    kind: TransportKind,
    config: &MCPServerConfig,
    default: MCPServerConfig,
)
    requires
        call_ensures(MCPServer::with_params, (name, transport, host, port), server),
        call_ensures(TransportKind::parse, (transport,), parsed),
        call_ensures(MCPServer::name, (&server,), own),
        call_ensures(MCPServer::transport, (&server,), kind),
        call_ensures(MCPServer::config, (&server,), config),
        call_ensures(<MCPServerConfig as Default>::default, (), default),
    ensures
        own@ == name@,
        config.name@ == name@,
        config.host@ == host@,
        config.port == port,
        kind == config.transport,
        match parsed {
            Ok(meant) => kind == meant,
            Err(_) => kind is Stdio,
        },
        config@ == (ConfigView {
            name: name@,
            transport: kind,
            host: host@,
            port,
            ..default@
        }),
        !server@.running && !server@.calls && server@.tools is None && server@.docs is None
            && server@.listed is None,
{
    assert(config@.name == name@);
}

/// A server that was just made has the set-up and the modules that it was given; it offers nothing
/// and does not run.
pub proof fn law_fresh_servers(
    config: MCPServerConfig,
    source: RegistryOrExecutor,
    plain: MCPServer,
    sourced: MCPServer,
    own: Option<&RegistryOrExecutor>,
    none: Option<&RegistryOrExecutor>,
    running: bool,
    tools: Option<Vec<Tool>>,
    resources: Option<Vec<Resource>>,
    has_tools: bool,
    has_resources: bool,
)
    requires
        call_ensures(MCPServer::new, (config,), plain),
        call_ensures(MCPServer::with_registry_or_executor, (source, config), sourced),
        call_ensures(MCPServer::registry_or_executor, (&sourced,), own),
        call_ensures(MCPServer::registry_or_executor, (&plain,), none),
        call_ensures(MCPServer::is_running, (&plain,), running),
        call_ensures(MCPServer::list_tools, (&plain,), tools),
        call_ensures(MCPServer::list_resources, (&plain,), resources),
        call_ensures(MCPServer::has_tool_handlers, (&plain,), has_tools),
        call_ensures(MCPServer::has_resource_handlers, (&plain,), has_resources),
    ensures
        plain@.config == config,
        sourced@.config == config,
        own matches Some(given) && *given == source,
        none is None,
        !running,
        tools is None,
        resources is None,
        !has_tools,
        !has_resources,
{
}

/// The tools that a server was given are those that it lists, in their order; it offers them once
/// it calls tools too. Setting either touches nothing else.
pub proof fn law_given_tools_are_offered(
    server: &mut MCPServer,
    calling: &mut MCPServer,
    tools: Vec<Tool>,
    listed: Option<Vec<Tool>>,
    half: bool,
    whole: bool,
)
    requires
        call_ensures(MCPServer::set_tools, (server, tools), ()),
        call_ensures(MCPServer::set_tool_calls, (calling,), ()),
        *old(calling) == *final(server),
        call_ensures(MCPServer::list_tools, (&*final(server),), listed),
        call_ensures(MCPServer::has_tool_handlers, (&*final(server),), half),
        call_ensures(MCPServer::has_tool_handlers, (&*final(calling),), whole),
    ensures
        listed matches Some(list) && list@.len() == tools@.len() && forall|i: int|
            0 <= i < list@.len() ==> (#[trigger] list@[i])@ == tools@[i]@,
        half == old(server)@.calls,
        whole,
        final(calling)@ == (ServerView {
            tools: final(calling)@.tools,
            calls: true,
            ..old(server)@
        }),
        final(calling)@.tools == final(server)@.tools,
{
    if let Some(list) = listed {
        assert(types::tool_views(list@) == types::tool_views(tools@));
        assert(types::tool_views(list@).len() == list@.len());
        assert(types::tool_views(tools@).len() == tools@.len());
        assert forall|i: int| 0 <= i < list@.len() implies (#[trigger] list@[i])@ == tools@[i]@ by {
            assert(types::tool_views(list@)[i] == list@[i]@);
            assert(types::tool_views(tools@)[i] == tools@[i]@);
        }
    }
}

/// The documentation that a server was given is what it lists and reads; either alone offers no
/// resources.
pub proof fn law_given_documentation_is_offered(
    server: &mut MCPServer,
    reading: &mut MCPServer,
    docs: JsonObject,
    listed: Option<Vec<Resource>>,
    half: bool,
    whole: bool,
    i: int,
    module_id: &str,
    uri: &str,
    read: Option<Result<Vec<ReadResourceContents>, FactoryError>>,
)
    requires
        call_ensures(MCPServer::set_listed_docs, (server, docs), ()),
        call_ensures(MCPServer::set_docs, (reading, docs), ()),
        *old(reading) == *final(server),
        call_ensures(MCPServer::list_resources, (&*final(server),), listed),
        call_ensures(MCPServer::has_resource_handlers, (&*final(server),), half),
        call_ensures(MCPServer::has_resource_handlers, (&*final(reading),), whole),
        uri@ == "docs://"@ + module_id@,
        call_ensures(MCPServer::read_resource, (&*final(reading), uri), read),
    ensures
        half == old(server)@.docs is Some,
        whole,
        listed matches Some(list) && list@.len() == docs@.len() && (0 <= i < list@.len()
            ==> list@[i].uri@ == "docs://"@ + docs@[i].0 && list@[i].name@ == docs@[i].0
            + " documentation"@ && list@[i].mime_type@ == "text/plain"@),
        match JsonView::Object(docs@).get(module_id@) {
            Some(JsonView::String(document)) => read matches Some(Ok(contents))
                && contents@.len() == 1 && contents@[0].content@ == document
                && contents@[0].mime_type@ == "text/plain"@,
            _ => read matches Some(Err(FactoryError::ResourceNotFound(missing))) && missing@
                == uri@,
        },
        final(reading)@ == (ServerView {
            listed: Some(docs@),
            docs: Some(docs@),
            ..old(server)@
        }),
{
    assert(uri@.take(DOCS_SCHEME@.len() as int) =~= DOCS_SCHEME@);
    assert(uri@.skip(DOCS_SCHEME@.len() as int) =~= module_id@);
    if let Some(list) = listed {
        assert(types::resource_views(list@).len() == list@.len());
        if 0 <= i < list@.len() {
            assert(types::resource_views(list@)[i] == list@[i]@);
        }
    }
    if let Some(Ok(contents)) = read {
        assert(types::contents_views(contents@).len() == contents@.len());
        assert(types::contents_views(contents@)[0] == contents@[0]@);
    }
}

/// A URI of another scheme is never read.
pub proof fn law_other_schemes_are_not_read(
    docs: &JsonObject,
    uri: &str,
    read: Result<Vec<ReadResourceContents>, FactoryError>,
)
    requires
        !text::has_prefix(uri@, "docs://"@),
        call_ensures(read_doc, (docs, uri), read),
    ensures
        read matches Err(FactoryError::UnsupportedScheme(other)) && other@ == uri@,
{
}

/// A server says of itself its own name and its own version, or else the default one, and offers
/// exactly what it handles.
pub proof fn law_servers_describe_themselves(
    server: &MCPServer,
    default_version: &str,
    options: InitializationOptions,
    capabilities: ServerCapabilities,
    has_tools: bool,
    has_resources: bool,
)
    requires
        call_ensures(MCPServer::init_options, (server, default_version), options),
        call_ensures(MCPServer::capabilities, (server,), capabilities),
        call_ensures(MCPServer::has_tool_handlers, (server,), has_tools),
        call_ensures(MCPServer::has_resource_handlers, (server,), has_resources),
    ensures
        options.server_name@ == server@.config.name@,
        options.server_version@ == (match server@.config.version {
            Some(version) => version@,
            None => default_version@,
        }),
        has_tools == (server@.tools is Some && server@.calls),
        has_resources == (server@.listed is Some && server@.docs is Some),
        capabilities.tools is Some == has_tools,
        capabilities.resources is Some == has_resources,
        capabilities.tools matches Some(tools) ==> tools.list_changed,
        capabilities.resources matches Some(resources) ==> resources.list_changed,
        options.capabilities.tools is Some == has_tools,
        options.capabilities.resources is Some == has_resources,
        options.capabilities.extensions is None && capabilities.extensions is None,
{
}

/// A server starts once: a second start gives nothing to run until it was stopped or waited for.
/// What is run has the server's own tools, documentation, name and version, at its own address.
pub proof fn law_servers_start_once(
    server: &mut MCPServer,
    again: &mut MCPServer,
    default_version: &str,
    plan: Option<StartPlan>,
    second: Option<StartPlan>,
    running: bool,
    has_tools: bool,
)
    requires
        !old(server)@.running,
        call_ensures(MCPServer::start, (server, default_version), plan),
        *old(again) == *final(server),
        call_ensures(MCPServer::start, (again, default_version), second),
        call_ensures(MCPServer::is_running, (&*final(server),), running),
        call_ensures(MCPServer::has_tool_handlers, (&*old(server),), has_tools),
    ensures
        running,
        second is None,
        final(again)@ == final(server)@,
        plan matches Some(run) && run.transport == old(server)@.config.transport && run.host@
            == old(server)@.config.host@ && run.port == old(server)@.config.port
            && run.handler is Some == has_tools && (run.handler matches Some(handler)
            ==> old(server)@.tools == Some(handler@.tools) && handler@.listed
            == old(server)@.listed && handler@.docs == old(server)@.docs && handler@.server_name
            == old(server)@.config.name@ && handler@.server_version == (match old(
            server,
        )@.config.version {
            Some(version) => version@,
            None => default_version@,
        })),
{
}

/// Stopping tells a server that was started and waits for one that runs; afterwards it can be
/// started again. Waiting for a server leaves it to be told.
pub proof fn law_servers_stop(
    server: &mut MCPServer,
    waiting: &mut MCPServer,
    plan: StopPlan,
    joined: bool,
    running: bool,
    still: bool,
)
    requires
        call_ensures(MCPServer::stop, (server,), plan),
        call_ensures(MCPServer::wait, (waiting,), joined),
        *old(waiting) == *old(server),
        call_ensures(MCPServer::is_running, (&*final(server),), running),
        call_ensures(MCPServer::is_running, (&*final(waiting),), still),
    ensures
        plan.join == old(server)@.running,
        plan.signal == old(server)@.stoppable,
        joined == old(server)@.running,
        !running && !still,
        !final(server)@.stoppable,
        final(waiting)@ == (ServerView { running: false, ..old(server)@ }),
        final(server)@ == (ServerView { running: false, stoppable: false, ..old(server)@ }),
{
}

/// There is a handler exactly for a server that both lists and calls tools. It has the server's own
/// tools and documentation, and passes cancellations on only where somebody is to be told.
pub proof fn law_handlers_have_what_servers_offer(
    server: &MCPServer,
    options: InitializationOptions,
    made: Option<ServerHandler>,
    handler: ServerHandler,
    told: ServerHandler,
)
    requires
        call_ensures(ServerHandler::from_server, (server, options), made),
        call_ensures(ServerHandler::with_cancel_handler, (handler,), told),
    ensures
        made is Some == (server@.tools is Some && server@.calls),
        made matches Some(own) ==> server@.tools == Some(own@.tools) && own@.listed
            == server@.listed && own@.docs == server@.docs && own@.server_name
            == options.server_name@ && own@.server_version == options.server_version@
            && !own@.cancels,
        told@ == (HandlerView { cancels: true, ..handler@ }),
{
}

/// What a server runs modules from tells which of the two it is.
pub proof fn law_sources_describe_themselves(source: &RegistryOrExecutor, described: &'static str)
    requires
        call_ensures(RegistryOrExecutor::describe, (source,), described),
    ensures
        match source {
            RegistryOrExecutor::Registry(_) => described@ == "RegistryOrExecutor::Registry(..)"@,
            RegistryOrExecutor::Executor(_) => described@ == "RegistryOrExecutor::Executor(..)"@,
        },
{
}

/// A message without an id is never answered at once, and a tool that it calls is called without
/// one.
pub proof fn law_messages_without_ids_are_not_answered(
    handler: &ServerHandler,
    message: &Json,
    handled: Handled,
)
    requires
        call_ensures(ServerHandler::handle_message, (handler, message), handled),
        message@.get("id"@) is None,
    ensures
        match handled {
            Handled::Reply(reply) => reply is None,
            Handled::CallTool { id, .. } => id is None,
            Handled::Cancel(_) => true,
        },
        handled is CallTool ==> asks(message@, "tools/call"@),
        handled is Cancel ==> asks(message@, "notifications/cancelled"@) && handler@.cancels,
{
}

/// The counterpart of what a message leads to says what that says.
pub proof fn law_handled_messages_say_the_same(handled: Handled)
    ensures
        match (handled, handled@) {
            (Handled::Reply(a), HandledView::Reply(b)) => b == json::opt_view(a),
            (Handled::CallTool { id, name, arguments, extra }, HandledView::CallTool {
                id: i,
                name: n,
                arguments: a,
                extra: e,
            }) => i == json::opt_view(id) && n == name@ && a == arguments@ && e == json::opt_view(
                extra,
            ),
            (Handled::Cancel(a), HandledView::Cancel(b)) => b == a@,
            _ => false,
        },
{
}

/// Documentation is listed module by module: where it is read, what it is called, and that it is plain
/// text. A copy of a list of tools has the same tools.
pub proof fn law_documentation_is_listed(
    docs: &JsonObject,
    resources: Vec<Resource>,
    tools: &Vec<Tool>,
    copy: Vec<Tool>,
    i: int,
)
    requires
        call_ensures(list_docs, (docs,), resources),
        call_ensures(copy_tools, (tools,), copy),
    ensures
        resources@.len() == docs@.len(),
        0 <= i < resources@.len() ==> resources@[i].uri@ == "docs://"@ + docs@[i].0
            && resources@[i].name@ == docs@[i].0 + " documentation"@ && resources@[i].mime_type@
            == "text/plain"@,
        copy@.len() == tools@.len(),
        0 <= i < copy@.len() ==> copy@[i]@ == tools@[i]@,
{
    assert(types::resource_views(resources@).len() == resources@.len());
    assert(types::tool_views(copy@).len() == copy@.len());
    assert(types::tool_views(tools@).len() == tools@.len());
    if 0 <= i < resources@.len() {
        assert(types::resource_views(resources@)[i] == resources@[i]@);
    }
    if 0 <= i < copy@.len() {
        assert(types::tool_views(copy@)[i] == copy@[i]@);
        assert(types::tool_views(tools@)[i] == tools@[i]@);
    }
}

} // verus!
