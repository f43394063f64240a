//! The transports: what they accept, what they answer, and how they keep sessions apart.

use crate::ids;
use crate::json::{self, Json, JsonView};
use crate::router;
use crate::table::Table;
use crate::text;
use crate::value;
use vstd::prelude::*;

verus! {

/// Why a transport failed.
#[derive(Debug)]
pub enum TransportError {
    /// The host is none.
    InvalidHost(String),
    /// The port is none.
    InvalidPort(u16),
    /// Reading or writing failed.
    Io(String),
    /// The address could not be bound.
    Bind { host: String, port: u16, source: String },
    /// Anything else.
    Server(String),
}

impl TransportError {
    /// The message that the error is reported with.
    pub open spec fn message(self) -> Seq<char> {
        match self {
            TransportError::InvalidHost(host) => "invalid host: "@ + host@,
            TransportError::InvalidPort(port) => "port must be between 1 and 65535, got "@
                + text::decimal_text(port as nat),
            TransportError::Io(reason) => "I/O error: "@ + reason@,
            TransportError::Bind { host, port, source } => "failed to bind to "@ + host@ + ":"@
                + text::decimal_text(port as nat) + ": "@ + source@,
            TransportError::Server(reason) => "server error: "@ + reason@,
        }
    }

    /// The message that the error is reported with.
    pub fn describe(&self) -> (s: String)
        ensures
            s@ == self.message(),
    {
        match self {
            TransportError::InvalidHost(host) => "invalid host: ".to_string().concat(host.as_str()),
            TransportError::InvalidPort(port) =>
                "port must be between 1 and 65535, got ".to_string().concat(
                text::decimal(*port as u64).as_str(),
            ),
            TransportError::Io(reason) => "I/O error: ".to_string().concat(reason.as_str()),
            TransportError::Bind { host, port, source } => "failed to bind to ".to_string().concat(
                host.as_str(),
            ).concat(":").concat(text::decimal(*port as u64).as_str()).concat(": ").concat(
                source.as_str(),
            ),
            TransportError::Server(reason) => "server error: ".to_string().concat(reason.as_str()),
        }
    }
}

/// Gives the server's metrics.
pub trait MetricsExporter {
    /// The metrics in the text format of Prometheus.
    fn export_prometheus(&self) -> String;
}

/// Gives a summary of how modules are used.
pub trait UsageExporter {
    /// The summary.
    fn export_json(&self) -> Json;
}

/// How a module is used.
#[derive(Debug)]
pub struct UsageSummary {
    pub module_id: String,
    pub call_count: u64,
    pub error_count: u64,
    /// The average latency: a number, or null where it is none.
    pub avg_latency_ms: Json,
    pub unique_callers: u64,
    pub trend: String,
}

/// The use of a module as a document.
pub open spec fn usage_view(summary: UsageSummary) -> JsonView {
    JsonView::object().with("module_id"@, JsonView::text(summary.module_id@)).with(
        "call_count"@,
        JsonView::integer(summary.call_count as int),
    ).with("error_count"@, JsonView::integer(summary.error_count as int)).with(
        "avg_latency_ms"@,
        summary.avg_latency_ms@,
    ).with("unique_callers"@, JsonView::integer(summary.unique_callers as int)).with(
        "trend"@,
        JsonView::text(summary.trend@),
    )
}

/// The use of modules as documents.
pub open spec fn usage_views(summaries: Seq<UsageSummary>) -> Seq<JsonView> {
    summaries.map_values(|summary: UsageSummary| usage_view(summary))
}

/// A summary of how modules are used.
pub fn usage_json(summaries: &Vec<UsageSummary>) -> (json: Json)
    ensures
        json@ == JsonView::object().with("modules"@, JsonView::Array(usage_views(summaries@))),
{
    let mut list: Vec<Json> = Vec::new();
    let mut i: usize = 0;
    while i < summaries.len()
        invariant
            i <= summaries.len(),
            list.len() == i,
            forall|j: int| 0 <= j < i ==> (#[trigger] list@[j])@ == usage_view(summaries@[j]),
        decreases summaries.len() - i,
    {
        let summary = &summaries[i];
        list.push(
            Json::object().with("module_id", Json::text(summary.module_id.as_str())).with(
                "call_count",
                Json::unsigned(summary.call_count),
            ).with("error_count", Json::unsigned(summary.error_count)).with(
                "avg_latency_ms",
                summary.avg_latency_ms.clone(),
            ).with("unique_callers", Json::unsigned(summary.unique_callers)).with(
                "trend",
                Json::text(summary.trend.as_str()),
            ),
        );
        i = i + 1;
    }
    assert(json::views(list@) =~= usage_views(summaries@));
    Json::object().with("modules", Json::array(list))
}

/// How HTTP clients are authenticated.
#[derive(Debug, Clone)]
pub struct HttpAuthConfig {
    /// Whether there is somebody who authenticates them.
    pub authenticator: bool,
    /// Whether those that are not authenticated are turned away.
    pub require_auth: bool,
    /// Where the explorer is, which may be browsed without authentication.
    pub explorer_prefix: Option<String>,
    /// Paths that need no authentication.
    pub exempt_paths: Option<Vec<String>>,
}

impl Default for HttpAuthConfig {
    fn default() -> (config: HttpAuthConfig)
        ensures
            !config.authenticator,
            !config.require_auth,
            config.explorer_prefix is None,
            config.exempt_paths is None,
    {
        HttpAuthConfig {
            authenticator: false,
            require_auth: false,
            explorer_prefix: None,
            exempt_paths: None,
        }
    }
}

/// What authentication lets through.
#[derive(Debug)]
pub struct AuthLayer {
    /// Whether those that are not authenticated are turned away.
    pub require_auth: bool,
    /// Where paths begin that may be read without authentication.
    pub exempt_get_prefixes: Vec<String>,
    /// Paths that need no authentication; nothing where none were set.
    pub exempt_paths: Option<Vec<String>>,
}

/// A path with a slash in front.
pub open spec fn absolute(path: Seq<char>) -> Seq<char> {
    if text::has_prefix(path, "/"@) {
        path
    } else {
        "/"@ + path
    }
}

/// Paths with slashes in front.
pub open spec fn absolutes(paths: Seq<Seq<char>>) -> Seq<Seq<char>> {
    paths.map_values(|path: Seq<char>| absolute(path))
}

/// Where paths begin that may be read without authentication: where the explorer is.
pub open spec fn browsable(explorer_prefix: Option<String>) -> Seq<Seq<char>> {
    match explorer_prefix {
        Some(prefix) => seq![prefix@, prefix@ + "/"@],
        None => Seq::empty(),
    }
}

/// What authentication lets through; nothing where nobody authenticates.
pub fn apply_auth_layer(config: &HttpAuthConfig) -> (r: Option<AuthLayer>)
    ensures
        match r {
            Some(layer) => config.authenticator && layer.require_auth == config.require_auth
                && text::texts(layer.exempt_get_prefixes@) == browsable(config.explorer_prefix)
                && match (layer.exempt_paths, config.exempt_paths) {
                (Some(exempt), Some(paths)) => text::texts(exempt@) == absolutes(
                    text::texts(paths@),
                ),
                (None, None) => true,
                _ => false,
            },
            None => !config.authenticator,
        },
{
    if !config.authenticator {
        return None;
    }
    let mut prefixes: Vec<String> = Vec::new();
    if let Some(prefix) = &config.explorer_prefix {
        prefixes.push(prefix.clone());
        prefixes.push(prefix.clone().concat("/"));
    }
    assert(text::texts(prefixes@) =~= browsable(config.explorer_prefix));
    let exempt = match &config.exempt_paths {
        Some(paths) => {
            let mut list: Vec<String> = Vec::new();
            let mut i: usize = 0;
            while i < paths.len()
                invariant
                    i <= paths.len(),
                    list.len() == i,
                    forall|j: int| 0 <= j < i ==> (#[trigger] list@[j])@ == absolute(paths@[j]@),
                decreases paths.len() - i,
            {
                if text::starts_with(paths[i].as_str(), "/") {
                    list.push(paths[i].clone());
                } else {
                    list.push("/".to_string().concat(paths[i].as_str()));
                }
                i = i + 1;
            }
            assert(text::texts(list@) =~= absolutes(text::texts(paths@)));
            Some(list)
        },
        None => None,
    };
    Some(
        AuthLayer {
            require_auth: config.require_auth,
            exempt_get_prefixes: prefixes,
            exempt_paths: exempt,
        },
    )
}

/// Every path that needs no authentication begins with a slash.
pub proof fn law_exempt_paths_are_absolute(path: Seq<char>)
    ensures
        text::has_prefix(absolute(path), "/"@),
        absolute(absolute(path)) == absolute(path),
{
    if !text::has_prefix(path, "/"@) {
        assert(("/"@ + path).take("/"@.len() as int) =~= "/"@);
    }
}

/// An answer over HTTP.
#[derive(Debug)]
pub struct HttpReply {
    pub status: u16,
    pub content_type: Option<String>,
    /// The session that the answer names in its headers.
    pub session_id: Option<String>,
    pub body: Option<String>,
}

/// The mathematical counterpart of [`HttpReply`].
pub struct ReplyView {
    pub status: int,
    pub content_type: Option<Seq<char>>,
    pub session_id: Option<Seq<char>>,
    pub body: Option<Seq<char>>,
}

impl View for HttpReply {
    type V = ReplyView;

    open spec fn view(&self) -> ReplyView {
        ReplyView {
            status: self.status as int,
            content_type: text::opt_view(self.content_type),
            session_id: text::opt_view(self.session_id),
            body: text::opt_view(self.body),
        }
    }
}

/// An answer without a body.
pub open spec fn bare(status: int) -> ReplyView {
    ReplyView { status, content_type: None, session_id: None, body: None }
}

/// An answer with a text.
pub open spec fn with_body(status: int, body: Seq<char>) -> ReplyView {
    ReplyView { status, content_type: None, session_id: None, body: Some(body) }
}

fn bare_reply(status: u16) -> (reply: HttpReply)
    ensures
        reply@ == bare(status as int),
{
    HttpReply { status, content_type: None, session_id: None, body: None }
}

fn body_reply(status: u16, body: &str) -> (reply: HttpReply)
    ensures
        reply@ == with_body(status as int, body@),
{
    HttpReply { status, content_type: None, session_id: None, body: Some(body.to_string()) }
}

/// What a transport knows of its server.
pub struct TransportManager<M: MetricsExporter, U: UsageExporter> {
    metrics_exporter: Option<M>,
    usage_exporter: Option<U>,
    module_count: usize,
    cancels: bool,
}

/// The mathematical counterpart of [`TransportManager`].
pub struct ManagerView<M, U> {
    /// What gives the metrics.
    pub metrics_exporter: Option<M>,
    /// What gives the summary of how modules are used.
    pub usage_exporter: Option<U>,
    /// The number of modules.
    pub module_count: int,
    /// Whether somebody is to be told of sessions that end.
    pub cancels: bool,
}

impl<M: MetricsExporter, U: UsageExporter> View for TransportManager<M, U> {
    type V = ManagerView<M, U>;

    closed spec fn view(&self) -> ManagerView<M, U> {
        ManagerView {
            metrics_exporter: self.metrics_exporter,
            usage_exporter: self.usage_exporter,
            module_count: self.module_count as int,
            cancels: self.cancels,
        }
    }
}

/// What the health check answers.
pub open spec fn health_view(uptime_seconds: JsonView, module_count: int) -> JsonView {
    JsonView::object().with("status"@, JsonView::text("ok"@)).with(
        "uptime_seconds"@,
        uptime_seconds,
    ).with("module_count"@, JsonView::integer(module_count))
}

impl<M: MetricsExporter, U: UsageExporter> TransportManager<M, U> {
    /// A transport for no modules, with nobody to be told of sessions that end.
    pub fn new(metrics_exporter: Option<M>) -> (manager: TransportManager<M, U>)
        ensures
            manager@ == (ManagerView::<M, U> {
                metrics_exporter,
                usage_exporter: None,
                module_count: 0,
                cancels: false,
            }),
    {
        TransportManager { metrics_exporter, usage_exporter: None, module_count: 0, cancels: false }
    }

    /// Lets `exporter` give the summary of how modules are used, or nobody.
    pub fn set_usage_exporter(&mut self, exporter: Option<U>)
        ensures
            final(self)@ == (ManagerView { usage_exporter: exporter, ..old(self)@ }),
    {
        self.usage_exporter = exporter;
    }

    /// Lets somebody be told of sessions that end, or nobody.
    pub fn set_cancel_handler(&mut self, present: bool)
        ensures
            final(self)@ == (ManagerView { cancels: present, ..old(self)@ }),
    {
        self.cancels = present;
    }

    /// Whom to tell that the session `session_id` ended: its id, or nothing where nobody is to be
    /// told.
    pub fn notify_cancel(&self, session_id: &str) -> (r: Option<String>)
        ensures
            text::opt_view(r) == (if self@.cancels {
                Some(session_id@)
            } else {
                None
            }),
    {
        if self.cancels {
            Some(session_id.to_string())
        } else {
            None
        }
    }

    /// Sets the number of modules.
    pub fn set_module_count(&mut self, count: usize)
        ensures
            final(self)@ == (ManagerView { module_count: count as int, ..old(self)@ }),
    {
        self.module_count = count;
    }

    /// The number of modules.
    pub fn module_count(&self) -> (n: usize)
        ensures
            n == self@.module_count,
    {
        self.module_count
    }

    /// Whether a server can be bound to `host` and `port`: the host must not be empty and the port
    /// not zero.
    pub fn validate_host_port(host: &str, port: u16) -> (r: Result<(), TransportError>)
        ensures
            match r {
                Ok(()) => host@.len() > 0 && port != 0,
                Err(TransportError::InvalidHost(h)) => host@.len() == 0 && h@ == host@,
                Err(TransportError::InvalidPort(p)) => host@.len() > 0 && port == 0 && p == 0,
                Err(_) => false,
            },
    {
        if host.is_empty() {
            return Err(TransportError::InvalidHost(host.to_string()));
        }
        if port == 0 {
            return Err(TransportError::InvalidPort(port));
        }
        Ok(())
    }

    /// What the health check answers after this many seconds.
    pub fn build_health_response(&self, uptime_seconds: Json) -> (json: Json)
        ensures
            json@ == health_view(uptime_seconds@, self@.module_count),
    {
        Json::object().with("status", Json::text("ok")).with(
            "uptime_seconds",
            uptime_seconds,
        ).with("module_count", Json::unsigned(self.module_count as u64))
    }

    /// The metrics, where somebody gives them.
    pub fn build_metrics_response(&self) -> (r: Result<String, ()>)
        ensures
            match (r, self@.metrics_exporter) {
                (Ok(metrics), Some(exporter)) => call_ensures(
                    M::export_prometheus,
                    (&exporter,),
                    metrics,
                ),
                (Err(()), None) => true,
                _ => false,
            },
    {
        match &self.metrics_exporter {
            Some(exporter) => Ok(exporter.export_prometheus()),
            None => Err(()),
        }
    }

    /// The summary of how modules are used, where somebody gives it.
    pub fn build_usage_response(&self) -> (r: Result<Json, ()>)
        ensures
            match (r, self@.usage_exporter) {
                (Ok(usage), Some(exporter)) => call_ensures(U::export_json, (&exporter,), usage),
                (Err(()), None) => true,
                _ => false,
            },
    {
        match &self.usage_exporter {
            Some(exporter) => Ok(exporter.export_json()),
            None => Err(()),
        }
    }
}

/// The answer to a request for metrics: the metrics, or that there are none.
pub fn metrics_reply(metrics: &Result<String, ()>) -> (reply: HttpReply)
    ensures
        reply@ == (match metrics {
            Ok(body) => ReplyView {
                content_type: Some("text/plain; version=0.0.4; charset=utf-8"@),
                ..with_body(200, body@)
            },
            Err(()) => bare(404),
        }),
{
    match metrics {
        Ok(body) => HttpReply {
            status: 200,
            content_type: Some("text/plain; version=0.0.4; charset=utf-8".to_string()),
            session_id: None,
            body: Some(body.clone()),
        },
        Err(()) => bare_reply(404),
    }
}

/// The answer to a request for the use of modules: the summary as JSON, or that there is none.
pub fn usage_reply(usage: &Result<Json, ()>) -> (reply: HttpReply)
    ensures
        reply@ == (match usage {
            Ok(summary) => ReplyView {
                content_type: Some("application/json"@),
                ..with_body(200, value::text_or(summary@, ""@))
            },
            Err(()) => bare(404),
        }),
{
    match usage {
        Ok(summary) => HttpReply {
            status: 200,
            content_type: Some("application/json".to_string()),
            session_id: None,
            body: Some(value::to_text_or(summary, "")),
        },
        Err(()) => bare_reply(404),
    }
}

/// The id of a new session.
pub fn new_session_id() -> (id: String)
    ensures
        ids::uuid_text(id@),
{
    ids::fresh_uuid()
}

/// The answer to a message that was posted: the response as JSON, or that the message was accepted;
/// either way it names the session.
pub fn post_reply(response: Option<&Json>, session_id: &str) -> (reply: HttpReply)
    ensures
        reply@ == (match response {
            Some(json) => ReplyView {
                status: 200,
                content_type: Some("application/json"@),
                session_id: Some(session_id@),
                body: Some(value::text_or(json@, ""@)),
            },
            None => ReplyView {
                status: 202,
                content_type: None,
                session_id: Some(session_id@),
                body: None,
            },
        }),
{
    match response {
        Some(json) => HttpReply {
            status: 200,
            content_type: Some("application/json".to_string()),
            session_id: Some(session_id.to_string()),
            body: Some(value::to_text_or(json, "")),
        },
        None => HttpReply {
            status: 202,
            content_type: None,
            session_id: Some(session_id.to_string()),
            body: None,
        },
    }
}

/// The message that a line holds; nothing where the line is empty or no JSON.
pub open spec fn line_message(line: Seq<char>) -> Option<JsonView> {
    if text::trimmed(line).len() == 0 {
        None
    } else {
        value::parsed(text::trimmed(line))
    }
}

/// The message that a line holds.
pub fn read_line(line: &str) -> (message: Option<Json>)
    ensures
        json::opt_view(message) == line_message(line@),
{
    let trimmed = text::trim(line);
    if trimmed.is_empty() {
        None
    } else {
        value::from_text(trimmed)
    }
}

/// The line that a response is written as: its compact text, which has no line break in it, and a
/// line break.
pub fn write_line(response: &Json) -> (r: Result<String, TransportError>)
    ensures
        r matches Ok(line) && value::json_text(response@) == Some(line@.drop_last())
            && text::one_line(line@.drop_last()) && line@.len() > 0 && line@.last() == '\n',
{
    match value::to_text(response) {
        Some(s) => {
            let mut line = s;
            let ghost written = line@;
            line.push('\n');
            assert(line@.drop_last() =~= written);
            Ok(line)
        },
        None => Err(TransportError::Server("the response cannot be written".to_string())),
    }
}

/// A path without the slashes at its end.
pub open spec fn unslashed(path: Seq<char>) -> Seq<char>
    decreases path.len(),
{
    if path.len() > 0 && path.last() == '/' {
        unslashed(path.drop_last())
    } else {
        path
    }
}

/// Where a path with a slash at its end leads to; nothing for any other path.
pub fn trailing_slash_redirect(path: &str) -> (r: Option<String>)
    ensures
        text::opt_view(r) == (if path@.len() > 1 && path@.last() == '/' {
            Some(unslashed(path@))
        } else {
            None
        }),
{
    let mut n: usize = path.unicode_len();
    if n <= 1 || path.get_char(n - 1) != '/' {
        return None;
    }
    assert(path@.take(n as int) =~= path@);
    while n > 0 && path.get_char(n - 1) == '/'
        invariant
            n <= path@.len(),
            unslashed(path@.take(n as int)) == unslashed(path@),
        decreases n,
    {
        assert(path@.take(n as int).drop_last() =~= path@.take(n - 1));
        n = n - 1;
    }
    let rest = path.substring_char(0, n);
    assert(rest@ =~= path@.take(n as int));
    Some(rest.to_string())
}

/// Where a session's messages are to be posted.
pub open spec fn endpoint_view(path: Seq<char>, session_id: Seq<char>) -> Seq<char> {
    path + "?sessionId="@ + session_id
}

/// Where the messages of a session over streamable HTTP are to be posted.
pub fn streamable_endpoint(session_id: &str) -> (endpoint: String)
    ensures
        endpoint@ == endpoint_view("/mcp"@, session_id@),
{
    "/mcp".to_string().concat("?sessionId=").concat(session_id)
}

/// Where the messages of a session over server-sent events are to be posted.
pub fn sse_endpoint(session_id: &str) -> (endpoint: String)
    ensures
        endpoint@ == endpoint_view("/messages/"@, session_id@),
{
    "/messages/".to_string().concat("?sessionId=").concat(session_id)
}

/// The metadata that names a session, among what else it holds.
pub open spec fn stamped_meta(meta: Option<JsonView>, session_id: Seq<char>) -> JsonView {
    match meta {
        Some(JsonView::Object(entries)) => JsonView::Object(
            json::put(entries, "sessionId"@, JsonView::text(session_id)),
        ),
        _ => JsonView::object().with("sessionId"@, JsonView::text(session_id)),
    }
}

/// A message that names the session it came over, in the metadata of its parameters. A message
/// whose parameters are no object stays as it is.
pub open spec fn stamped(message: JsonView, session_id: Seq<char>) -> JsonView {
    match message.get("params"@) {
        Some(JsonView::Object(params)) => message.with(
            "params"@,
            JsonView::Object(
                json::put(
                    params,
                    "_meta"@,
                    stamped_meta(json::lookup(params, "_meta"@), session_id),
                ),
            ),
        ),
        _ => message,
    }
}

/// Writes the session that a message came over into it.
pub fn stamp_session_id(message: &mut Json, session_id: &str)
    ensures
        final(message)@ == stamped(old(message)@, session_id@),
{
    let params = match message.get("params") {
        Some(Json::Object(params)) => params.clone(),
        _ => {
            return ;
        },
    };
    let meta = match params.get("_meta") {
        Some(Json::Object(meta)) => {
            let mut meta = meta.clone();
            meta.insert("sessionId", Json::text(session_id));
            Json::Object(meta)
        },
        _ => Json::object().with("sessionId", Json::text(session_id)),
    };
    let mut params = params;
    params.insert("_meta", meta);
    let mut whole = Json::Null;
    std::mem::swap(message, &mut whole);
    let stamped = whole.with("params", Json::Object(params));
    *message = stamped;
}

/// A message whose parameters are an object names the session it came over, whatever it named
/// before, and the router finds that session in its metadata.
pub proof fn law_stamp_names_the_session(message: JsonView, session_id: Seq<char>)
    requires
        message.get("params"@) matches Some(params) && params is Object,
    ensures
        ({
            let meta = json::get_in(stamped(message, session_id).get("params"@), "_meta"@);
            &&& json::get_in(meta, "sessionId"@) == Some(JsonView::text(session_id))
            &&& router::given_session(meta) == Some(session_id)
        }),
{
    broadcast use json::group_lookup;

}

/// Naming the session leaves everything else in a message as it was: its other members, the other
/// parameters and the other metadata.
pub proof fn law_stamp_keeps_the_rest(message: JsonView, session_id: Seq<char>, key: Seq<char>)
    ensures
        key != "params"@ ==> stamped(message, session_id).get(key) == message.get(key),
        key != "_meta"@ ==> json::get_in(stamped(message, session_id).get("params"@), key)
            == json::get_in(message.get("params"@), key),
        key != "sessionId"@ && (json::get_in(message.get("params"@), "_meta"@) matches Some(
            meta,
        ) && meta is Object) ==> json::get_in(
            json::get_in(stamped(message, session_id).get("params"@), "_meta"@),
            key,
        ) == json::get_in(json::get_in(message.get("params"@), "_meta"@), key),
{
    broadcast use json::group_lookup;

}

/// A message whose parameters are no object stays as it is.
pub proof fn law_stamp_spares_other_messages(message: JsonView, session_id: Seq<char>)
    requires
        !(message.get("params"@) matches Some(params) && params is Object),
    ensures
        stamped(message, session_id) == message,
{
}

/// The sessions whose streams are open.
pub struct SseSessions {
    sessions: Table<()>,
}

impl View for SseSessions {
    type V = Set<Seq<char>>;

    closed spec fn view(&self) -> Set<Seq<char>> {
        self.sessions@.dom()
    }
}

/// Where a posted message goes.
#[derive(Debug)]
pub enum MessageRoute {
    /// Nowhere; this is the answer.
    Reject(HttpReply),
    /// To the stream of this session.
    Deliver(String),
}

impl SseSessions {
    /// No stream is open.
    pub fn new() -> (sessions: SseSessions)
        ensures
            sessions@ == Set::<Seq<char>>::empty(),
    {
        let sessions = SseSessions { sessions: Table::new() };
        assert(sessions@ =~= Set::<Seq<char>>::empty());
        sessions
    }

    /// Takes in that the stream of `session_id` is open.
    pub fn register(&mut self, session_id: &str)
        ensures
            final(self)@ == old(self)@.insert(session_id@),
    {
        let ghost before = *self;
        self.sessions.insert(session_id, ());
        assert(self@ =~= before@.insert(session_id@));
    }

    /// Takes in that the stream of `session_id` is closed, and gives whom `manager` wants told.
    pub fn close<M: MetricsExporter, U: UsageExporter>(
        &mut self,
        session_id: &str,
        manager: &TransportManager<M, U>,
    ) -> (told: Option<String>)
        ensures
            final(self)@ == old(self)@.remove(session_id@),
            text::opt_view(told) == (if manager@.cancels {
                Some(session_id@)
            } else {
                None
            }),
    {
        let ghost before = *self;
        self.sessions.remove(session_id);
        assert(self@ =~= before@.remove(session_id@));
        manager.notify_cancel(session_id)
    }

    /// Whether the stream of `session_id` is open.
    pub fn contains(&self, session_id: &str) -> (r: bool)
        ensures
            r == self@.contains(session_id@),
    {
        self.sessions.contains_key(session_id)
    }

    /// The number of streams that are open.
    pub fn len(&self) -> (n: usize)
        ensures
            self@.finite(),
            n == self@.len(),
    {
        self.sessions.len()
    }

    /// Where a message that was posted for `session_id` goes.
    pub fn route(&self, session_id: Option<&str>) -> (route: MessageRoute)
        ensures
            match route {
                MessageRoute::Deliver(id) => text::ref_view(session_id) == Some(id@)
                    && self@.contains(id@),
                MessageRoute::Reject(reply) => match session_id {
                    None => reply@ == with_body(
                        400,
                        "missing sessionId query parameter; use the URL from the endpoint event"@,
                    ),
                    Some(id) => !self@.contains(id@) && reply@ == with_body(
                        400,
                        "unknown session"@,
                    ),
                },
            },
    {
        match session_id {
            Some(id) => {
                if self.contains(id) {
                    MessageRoute::Deliver(id.to_string())
                } else {
                    MessageRoute::Reject(body_reply(400, "unknown session"))
                }
            },
            None => MessageRoute::Reject(
                body_reply(
                    400,
                    "missing sessionId query parameter; use the URL from the endpoint event",
                ),
            ),
        }
    }
}

/// The answer to a message that was routed to a stream: that it was accepted, or that the stream
/// closed before it could be delivered.
pub fn delivery_reply(delivered: bool) -> (reply: HttpReply)
    ensures
        reply@ == (if delivered {
            bare(202)
        } else {
            with_body(400, "session closed"@)
        }),
{
    if delivered {
        bare_reply(202)
    } else {
        body_reply(400, "session closed")
    }
}

/// An error names what it concerns.
pub proof fn law_transport_errors_name_their_subject(
    error: &TransportError,
    described: String,
    p: u16,
    written: String,
)
    requires
        call_ensures(TransportError::describe, (error,), described),
        call_ensures(text::decimal, (p as u64,), written),
    ensures
        match error {
            TransportError::InvalidHost(host) => described@ == "invalid host: "@ + host@,
            TransportError::InvalidPort(port) => *port == p ==> described@
                == "port must be between 1 and 65535, got "@ + written@,
            TransportError::Io(reason) => described@ == "I/O error: "@ + reason@,
            TransportError::Bind { host, port, source } => *port == p ==> described@
                == "failed to bind to "@ + host@ + ":"@ + written@ + ": "@ + source@,
            TransportError::Server(reason) => described@ == "server error: "@ + reason@,
        },
{
}

/// The use of each module is told, in their order, each figure under its own name.
pub proof fn law_use_is_told(summaries: &Vec<UsageSummary>, json: Json)
    requires
        call_ensures(usage_json, (summaries,), json),
    ensures
        json@.get("modules"@) matches Some(JsonView::Array(modules)) && modules.len()
            == summaries@.len() && forall|i: int|
            0 <= i < modules.len() ==> (#[trigger] modules[i]).get("module_id"@) == Some(
                JsonView::String(summaries@[i].module_id@),
            ) && modules[i].get("call_count"@) == Some(
                JsonView::Number(json::NumberView::Int(summaries@[i].call_count as int)),
            ) && modules[i].get("error_count"@) == Some(
                JsonView::Number(json::NumberView::Int(summaries@[i].error_count as int)),
            ) && modules[i].get("avg_latency_ms"@) == Some(summaries@[i].avg_latency_ms@)
                && modules[i].get("unique_callers"@) == Some(
                JsonView::Number(json::NumberView::Int(summaries@[i].unique_callers as int)),
            ) && modules[i].get("trend"@) == Some(JsonView::String(summaries@[i].trend@)),
{
    broadcast use json::group_members;

    reveal_strlit("modules");
    reveal_strlit("module_id");
    reveal_strlit("call_count");
    reveal_strlit("error_count");
    reveal_strlit("avg_latency_ms");
    reveal_strlit("unique_callers");
    reveal_strlit("trend");
    assert("modules"@.len() == 7);
    assert("module_id"@.len() == 9);
    assert("call_count"@.len() == 10);
    assert("error_count"@.len() == 11);
    assert("avg_latency_ms"@.len() == 14);
    assert("unique_callers"@.len() == 14);
    assert("trend"@.len() == 5);
    assert("avg_latency_ms"@[0] != "unique_callers"@[0]);
}

/// Where somebody authenticates, those that are not authenticated are turned away exactly where
/// that was asked for; the explorer may be browsed, and each exempt path is exempt with a slash in
/// front of it. Where nobody authenticates, nothing is asked.
pub proof fn law_authentication_is_applied(
    config: &HttpAuthConfig,
    layer: Option<AuthLayer>,
    default: HttpAuthConfig,
)
    requires
        call_ensures(apply_auth_layer, (config,), layer),
        call_ensures(<HttpAuthConfig as Default>::default, (), default),
    ensures
        !default.authenticator && !default.require_auth && default.explorer_prefix is None
            && default.exempt_paths is None,
        layer is Some == config.authenticator,
        layer matches Some(l) ==> {
            &&& l.require_auth == config.require_auth
            &&& match config.explorer_prefix {
                Some(prefix) => l.exempt_get_prefixes@.len() == 2 && l.exempt_get_prefixes@[0]@
                    == prefix@ && l.exempt_get_prefixes@[1]@ == prefix@ + "/"@,
                None => l.exempt_get_prefixes@.len() == 0,
            }
            &&& match config.exempt_paths {
                Some(paths) => l.exempt_paths matches Some(exempt) && exempt@.len() == paths@.len()
                    && forall|i: int|
                    0 <= i < exempt@.len() ==> (#[trigger] exempt@[i])@ == (if paths@[i]@.len() > 0
                        && paths@[i]@[0] == '/' {
                        paths@[i]@
                    } else {
                        seq!['/'] + paths@[i]@
                    }),
                None => l.exempt_paths is None,
            }
        },
{
    reveal_strlit("/");
    assert("/"@ =~= seq!['/']);
    if let Some(l) = layer {
        let prefixes = text::texts(l.exempt_get_prefixes@);
        assert(prefixes.len() == l.exempt_get_prefixes@.len());
        if let Some(prefix) = config.explorer_prefix {
            assert(prefixes[0] == l.exempt_get_prefixes@[0]@);
            assert(prefixes[1] == l.exempt_get_prefixes@[1]@);
        }
        if let (Some(exempt), Some(paths)) = (l.exempt_paths, config.exempt_paths) {
            assert(text::texts(exempt@).len() == exempt@.len());
            assert(text::texts(paths@).len() == paths@.len());
            assert forall|i: int| 0 <= i < exempt@.len() implies (#[trigger] exempt@[i])@ == (
            if paths@[i]@.len() > 0 && paths@[i]@[0] == '/' {
                paths@[i]@
            } else {
                seq!['/'] + paths@[i]@
            }) by {
                let path = paths@[i]@;
                assert(text::texts(exempt@)[i] == exempt@[i]@);
                assert(text::texts(paths@)[i] == path);
                assert(exempt@[i]@ == absolute(path));
                if path.len() > 0 {
                    assert(path.take(1) =~= seq![path[0]]);
                    assert(path.take(1)[0] == path[0]);
                    assert("/"@[0] == '/');
                }
            }
        }
    }
}

/// A transport knows the modules, the exporters and the ends of sessions that it was told of, and
/// telling it one thing leaves the others.
pub proof fn law_transports_know_what_they_were_told<M: MetricsExporter, U: UsageExporter>(
    metrics: Option<M>,
    made: TransportManager<M, U>,
    manager: &mut TransportManager<M, U>,
    count: usize,
    n: usize,
    telling: &mut TransportManager<M, U>,
    present: bool,
    exporting: &mut TransportManager<M, U>,
    usage: Option<U>,
    session_id: &str,
    told: Option<String>,
    zero: usize,
    untold: Option<String>,
)
    requires
        call_ensures(TransportManager::<M, U>::new, (metrics,), made),
        call_ensures(TransportManager::<M, U>::module_count, (&made,), zero),
        call_ensures(TransportManager::<M, U>::notify_cancel, (&made, session_id), untold),
        call_ensures(TransportManager::<M, U>::set_module_count, (manager, count), ()),
        call_ensures(TransportManager::<M, U>::module_count, (&*final(manager),), n),
        call_ensures(TransportManager::<M, U>::set_cancel_handler, (telling, present), ()),
        call_ensures(
            TransportManager::<M, U>::notify_cancel,
            (&*final(telling), session_id),
            told,
        ),
        call_ensures(TransportManager::<M, U>::set_usage_exporter, (exporting, usage), ()),
    ensures
        zero == 0,
        untold is None,
        made@.metrics_exporter == metrics && made@.usage_exporter is None,
        n == count,
        text::opt_view(told) == (if present {
            Some(session_id@)
        } else {
            None
        }),
        final(manager)@.metrics_exporter == old(manager)@.metrics_exporter
            && final(manager)@.usage_exporter == old(manager)@.usage_exporter
            && final(manager)@.cancels == old(manager)@.cancels,
        final(telling)@.metrics_exporter == old(telling)@.metrics_exporter
            && final(telling)@.usage_exporter == old(telling)@.usage_exporter
            && final(telling)@.module_count == old(telling)@.module_count,
        final(exporting)@.usage_exporter == usage && final(exporting)@.metrics_exporter == old(
            exporting,
        )@.metrics_exporter && final(exporting)@.module_count == old(exporting)@.module_count
            && final(exporting)@.cancels == old(exporting)@.cancels,
{
}

/// A server can be bound exactly to a host that is not empty and a port that is not zero; what is
/// wrong is named.
pub proof fn law_addresses_are_checked<M: MetricsExporter, U: UsageExporter>(
    host: &str,
    port: u16,
    checked: Result<(), TransportError>,
)
    requires
        call_ensures(TransportManager::<M, U>::validate_host_port, (host, port), checked),
    ensures
        checked is Ok <==> host@.len() > 0 && port != 0,
        host@.len() == 0 ==> (checked matches Err(TransportError::InvalidHost(_))),
        host@.len() > 0 && port == 0 ==> (checked matches Err(TransportError::InvalidPort(p)) && p
            == 0),
{
}

/// The health check says that all is well, for how long, and how many modules there are.
pub proof fn law_health_is_told<M: MetricsExporter, U: UsageExporter>(
    manager: &TransportManager<M, U>,
    uptime: Json,
    json: Json,
    n: usize,
)
    requires
        call_ensures(TransportManager::<M, U>::build_health_response, (manager, uptime), json),
        call_ensures(TransportManager::<M, U>::module_count, (manager,), n),
    ensures
        json@.get("status"@) == Some(JsonView::String("ok"@)),
        json@.get("uptime_seconds"@) == Some(uptime@),
        json@.get("module_count"@) == Some(JsonView::Number(json::NumberView::Int(n as int))),
{
    broadcast use json::group_members;

    reveal_strlit("status");
    reveal_strlit("uptime_seconds");
    reveal_strlit("module_count");
    assert("status"@.len() == 6);
    assert("uptime_seconds"@.len() == 14);
    assert("module_count"@.len() == 12);
}

/// There are metrics and a summary of use exactly where somebody gives them, and then what they
/// give.
pub proof fn law_exporters_are_asked<M: MetricsExporter, U: UsageExporter>(
    manager: &TransportManager<M, U>,
    metrics: Result<String, ()>,
    usage: Result<Json, ()>,
)
    requires
        call_ensures(TransportManager::<M, U>::build_metrics_response, (manager,), metrics),
        call_ensures(TransportManager::<M, U>::build_usage_response, (manager,), usage),
    ensures
        metrics is Ok == manager@.metrics_exporter is Some,
        usage is Ok == manager@.usage_exporter is Some,
        metrics matches Ok(given) ==> (manager@.metrics_exporter matches Some(exporter)
            && call_ensures(M::export_prometheus, (&exporter,), given)),
        usage matches Ok(given) ==> (manager@.usage_exporter matches Some(exporter)
            && call_ensures(U::export_json, (&exporter,), given)),
{
}

/// Metrics and summaries are sent as they are where there are any, each as its own kind of text;
/// otherwise they are not found.
pub proof fn law_exports_are_sent(
    metrics: &Result<String, ()>,
    usage: &Result<Json, ()>,
    sent: HttpReply,
    summed: HttpReply,
    document: &Json,
    written: Option<String>,
)
    requires
        call_ensures(metrics_reply, (metrics,), sent),
        call_ensures(usage_reply, (usage,), summed),
        call_ensures(value::to_text, (document,), written),
    ensures
        match metrics {
            Ok(given) => sent.status == 200 && text::opt_view(sent.body) == Some(given@)
                && text::opt_view(sent.content_type) == Some(
                "text/plain; version=0.0.4; charset=utf-8"@,
            ),
            Err(()) => sent.status == 404 && sent.body is None,
        },
        match usage {
            Ok(given) => summed.status == 200 && text::opt_view(summed.content_type) == Some(
                "application/json"@,
            ) && (given@ == document@ ==> text::opt_view(summed.body) == text::opt_view(written)),
            Err(()) => summed.status == 404 && summed.body is None,
        },
{
    assert(sent@.status == sent.status && summed@.status == summed.status);
    assert(sent@.body == text::opt_view(sent.body) && summed@.body == text::opt_view(summed.body));
}

/// A message that was posted is answered with the response, or that it was accepted where there is
/// none; either way with the session's own id.
pub proof fn law_posts_are_answered(
    response: &Json,
    session_id: &str,
    answered: HttpReply,
    accepted: HttpReply,
    written: Option<String>,
    delivered: HttpReply,
    closed: HttpReply,
)
    requires
        call_ensures(post_reply, (Some(response), session_id), answered),
        call_ensures(post_reply, (None::<&Json>, session_id), accepted),
        call_ensures(value::to_text, (response,), written),
        call_ensures(delivery_reply, (true,), delivered),
        call_ensures(delivery_reply, (false,), closed),
    ensures
        answered.status == 200,
        text::opt_view(answered.body) == text::opt_view(written),
        text::opt_view(answered.content_type) == Some("application/json"@),
        text::opt_view(answered.session_id) == Some(session_id@),
        accepted.status == 202,
        accepted.body is None,
        text::opt_view(accepted.session_id) == Some(session_id@),
        delivered.status == 202 && delivered.body is None,
        closed.status == 400 && text::opt_view(closed.body) == Some("session closed"@),
{
    assert(answered@.status == answered.status && accepted@.status == accepted.status);
    assert(answered@.body == text::opt_view(answered.body));
    assert(answered@.content_type == text::opt_view(answered.content_type));
    assert(answered@.session_id == text::opt_view(answered.session_id));
    assert(accepted@.body == text::opt_view(accepted.body));
    assert(accepted@.session_id == text::opt_view(accepted.session_id));
    assert(delivered@.status == delivered.status && closed@.status == closed.status);
    assert(delivered@.body == text::opt_view(delivered.body));
    assert(closed@.body == text::opt_view(closed.body));
}

/// A response is written as its text in one line, and a line holds the message that is read from it
/// without the white space around it; an empty line holds none.
pub proof fn law_lines_are_written_and_read(
    response: &Json,
    line: Result<String, TransportError>,
    written: Option<String>,
    received: &str,
    message: Option<Json>,
    core: &str,
    read: Option<Json>,
)
    requires
        call_ensures(write_line, (response,), line),
        call_ensures(value::to_text, (response,), written),
        call_ensures(read_line, (received,), message),
        call_ensures(text::trim, (received,), core),
        call_ensures(value::from_text, (core,), read),
    ensures
        line matches Ok(l) && (written matches Some(w) && l@ == w@.push('\n')) && forall|i: int|
            0 <= i < l@.len() - 1 ==> #[trigger] l@[i] != '\n',
        core@.len() == 0 ==> message is None,
        core@.len() > 0 ==> json::opt_view(message) == json::opt_view(read),
{
    if let (Ok(l), Some(w)) = (line, written) {
        assert(l@.drop_last() == w@);
        assert(l@ =~= w@.push('\n'));
        assert forall|i: int| 0 <= i < l@.len() - 1 implies #[trigger] l@[i] != '\n' by {
            assert(l@.drop_last()[i] == l@[i]);
        }
    }
}

/// A path with slashes at its end leads to the path without them, and any other path nowhere.
pub proof fn law_slashes_are_taken_off(path: &str, target: Option<String>)
    requires
        call_ensures(trailing_slash_redirect, (path,), target),
    ensures
        target is Some <==> path@.len() > 1 && path@.last() == '/',
        target matches Some(rest) ==> text::has_prefix(path@, rest@) && (rest@.len() == 0
            || rest@.last() != '/') && forall|i: int|
            rest@.len() <= i < path@.len() ==> #[trigger] path@[i] == '/',
{
    lemma_unslashed(path@);
}

proof fn lemma_unslashed(path: Seq<char>)
    ensures
        text::has_prefix(path, unslashed(path)),
        unslashed(path).len() == 0 || unslashed(path).last() != '/',
        forall|i: int| unslashed(path).len() <= i < path.len() ==> #[trigger] path[i] == '/',
    decreases path.len(),
{
    let rest = unslashed(path);
    if path.len() > 0 && path.last() == '/' {
        let shorter = path.drop_last();
        lemma_unslashed(shorter);
        assert(path.take(rest.len() as int) =~= shorter.take(rest.len() as int));
        assert forall|i: int| rest.len() <= i < path.len() implies #[trigger] path[i] == '/' by {
            if i < shorter.len() {
                assert(shorter[i] == path[i]);
            }
        }
    } else {
        assert(path.take(path.len() as int) =~= path);
    }
}

/// The messages of a session are posted under the session's own id.
pub proof fn law_endpoints_name_the_session(
    session_id: &str,
    streamable: String,
    events: String,
)
    requires
        call_ensures(streamable_endpoint, (session_id,), streamable),
        call_ensures(sse_endpoint, (session_id,), events),
    ensures
        streamable@ == "/mcp"@ + "?sessionId="@ + session_id@,
        events@ == "/messages/"@ + "?sessionId="@ + session_id@,
{
}

/// A stamped message names the session that it came over, and keeps everything else.
pub proof fn law_messages_are_stamped(message: &mut Json, session_id: &str, key: Seq<char>)
    requires
        call_ensures(stamp_session_id, (message, session_id), ()),
    ensures
        old(message)@.get("params"@) matches Some(JsonView::Object(_)) ==> json::get_in(
            json::get_in(final(message)@.get("params"@), "_meta"@),
            "sessionId"@,
        ) == Some(JsonView::String(session_id@)),
        !(old(message)@.get("params"@) matches Some(JsonView::Object(_))) ==> final(message)@
            == old(message)@,
        key != "params"@ ==> final(message)@.get(key) == old(message)@.get(key),
        key != "_meta"@ ==> json::get_in(final(message)@.get("params"@), key) == json::get_in(
            old(message)@.get("params"@),
            key,
        ),
{
    law_stamp_keeps_the_rest(old(message)@, session_id@, key);
    if let Some(JsonView::Object(_)) = old(message)@.get("params"@) {
        law_stamp_names_the_session(old(message)@, session_id@);
    }
}

/// A message goes to the stream of its session from the time that the stream is open until it is
/// closed; before and after it is rejected, as is a message for no session. Closing tells of the
/// session where somebody is to be told.
pub proof fn law_messages_go_to_open_streams<M: MetricsExporter, U: UsageExporter>(
    fresh: SseSessions,
    none: usize,
    sessions: &mut SseSessions,
    closing: &mut SseSessions,
    session_id: &str,
    other: &str,
    manager: &TransportManager<M, U>,
    told: Option<String>,
    notified: Option<String>,
    open: MessageRoute,
    closed: MessageRoute,
    nowhere: MessageRoute,
    before: bool,
    after: bool,
)
    requires
        call_ensures(SseSessions::new, (), fresh),
        call_ensures(SseSessions::len, (&fresh,), none),
        call_ensures(SseSessions::register, (sessions, session_id), ()),
        call_ensures(SseSessions::route, (&*final(sessions), Some(session_id)), open),
        call_ensures(SseSessions::route, (&*final(sessions), None::<&str>), nowhere),
        *old(closing) == *final(sessions),
        call_ensures(SseSessions::close::<M, U>, (closing, session_id, manager), told),
        call_ensures(TransportManager::<M, U>::notify_cancel, (manager, session_id), notified),
        call_ensures(SseSessions::route, (&*final(closing), Some(session_id)), closed),
        other@ != session_id@,
        call_ensures(SseSessions::contains, (&*old(sessions), other), before),
        call_ensures(SseSessions::contains, (&*final(closing), other), after),
    ensures
        none == 0,
        open matches MessageRoute::Deliver(id) && id@ == session_id@,
        closed matches MessageRoute::Reject(reply) && reply.status == 400 && text::opt_view(
            reply.body,
        ) == Some("unknown session"@),
        nowhere matches MessageRoute::Reject(reply) && reply.status == 400 && text::opt_view(
            reply.body,
        ) == Some("missing sessionId query parameter; use the URL from the endpoint event"@),
        text::opt_view(told) == text::opt_view(notified),
        before == after,
{
    if let MessageRoute::Reject(reply) = closed {
        assert(reply@.status == reply.status && reply@.body == text::opt_view(reply.body));
    }
    if let MessageRoute::Reject(reply) = nowhere {
        assert(reply@.status == reply.status && reply@.body == text::opt_view(reply.body));
    }
}

/// Each stream that is open is counted once.
pub proof fn law_open_streams_are_counted(
    sessions: &mut SseSessions,
    session_id: &str,
    n: usize,
    m: usize,
)
    requires
        !old(sessions)@.contains(session_id@),
        call_ensures(SseSessions::len, (&*old(sessions),), n),
        call_ensures(SseSessions::register, (sessions, session_id), ()),
        call_ensures(SseSessions::len, (&*final(sessions),), m),
    ensures
        m == n + 1,
{
}

/// A new session has a UUID for its id.
pub proof fn law_session_ids(id: String)
    requires
        call_ensures(new_session_id, (), id),
    ensures
        id@.len() == 36,
        ids::uuid_text(id@),
{
}

} // verus!
