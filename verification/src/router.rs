//! Routing tool calls: what a call comes with, which way it goes, and what it gives.
//!
//! The router decides; whoever runs it does the waiting. Each step names what is to be done next,
//! and what came of it goes into the following step.

use crate::approval_bridge::{self, ApprovalBridge};
use crate::async_task_bridge::{self, AsyncTaskBridge};
use crate::cancel::{self, CancelTokens, TokenView};
use crate::elicit_registry::{ElicitGuard, ElicitRegistry};
use crate::ids;
use crate::json::{self, Entries, Json, JsonObject, JsonView};
use crate::merge;
use crate::output::{self, OutputFormat};
use crate::session::{self, SessionRegistry, SessionView};
use crate::text;
use crate::types;
use crate::value;
use vstd::prelude::*;

verus! {

/// Why a call failed.
#[derive(Debug)]
pub enum ExecutorError {
    /// The module failed.
    Execution { code: String, message: String, details: Option<Json> },
    /// The inputs are not valid.
    Validation(String),
    /// Anything else, with its message.
    Other(String),
}

impl ExecutorError {
    /// The message that the error is reported with.
    pub open spec fn message(self) -> Seq<char> {
        match self {
            ExecutorError::Execution { code, message, details } => message@,
            ExecutorError::Validation(reason) => "validation failed: "@ + reason@,
            ExecutorError::Other(reason) => reason@,
        }
    }

    /// The message that the error is reported with.
    pub fn describe(&self) -> (s: String)
        ensures
            s@ == self.message(),
    {
        match self {
            ExecutorError::Execution { code: _, message, details: _ } => message.clone(),
            ExecutorError::Validation(reason) => "validation failed: ".to_string().concat(
                reason.as_str(),
            ),
            ExecutorError::Other(reason) => reason.clone(),
        }
    }
}

/// What in the details of an error helps a client go on.
pub open spec fn guidance(details: JsonView) -> JsonView {
    JsonView::object().with_opt("retryable"@, details.get("retryable"@)).with_opt(
        "aiGuidance"@,
        details.get("aiGuidance"@),
    ).with_opt("userFixable"@, details.get("userFixable"@)).with_opt(
        "suggestion"@,
        details.get("suggestion"@),
    )
}

/// The text of an error: its message, and the guidance that comes with it.
pub open spec fn error_text(error: ExecutorError) -> Seq<char> {
    match error {
        ExecutorError::Execution { code, message, details } => match details {
            Some(d) => if guidance(d@)->Object_0.len() > 0 {
                message@ + "\n\n"@ + value::text_or(guidance(d@), ""@)
            } else {
                message@
            },
            None => message@,
        },
        ExecutorError::Validation(reason) => "Validation failed: "@ + reason@,
        ExecutorError::Other(reason) => reason@,
    }
}

/// What is wrong with a field of the inputs.
#[derive(Debug)]
pub struct ValidationError {
    /// The field; nothing where the error concerns no single one.
    pub field: Option<String>,
    pub message: String,
    /// What is wrong inside the field.
    pub errors: Vec<ValidationError>,
}

/// What checking the inputs of a call says.
#[derive(Debug)]
pub struct ValidationResult {
    pub valid: bool,
    pub errors: Vec<ValidationError>,
    /// Whether somebody has to approve the call.
    pub requires_approval: bool,
}

impl Default for ValidationResult {
    fn default() -> (result: ValidationResult)
        ensures
            result.valid,
            result.errors@.len() == 0,
            !result.requires_approval,
    {
        ValidationResult { valid: true, errors: Vec::new(), requires_approval: false }
    }
}

/// What came of having inputs checked.
#[derive(Debug)]
pub enum ValidationOutcome {
    /// The executor checks no inputs.
    Unsupported,
    /// The check broke off.
    Panicked,
    /// The check said this.
    Checked(ValidationResult),
}

/// The name of a field, or what stands for it.
pub open spec fn field_or(field: Option<String>, fallback: Seq<char>) -> Seq<char> {
    match field {
        Some(name) => name@,
        None => fallback,
    }
}

fn field_name(field: &Option<String>, fallback: &str) -> (name: String)
    ensures
        name@ == field_or(*field, fallback@),
{
    match field {
        Some(name) => name.clone(),
        None => fallback.to_string(),
    }
}

/// How an error inside a field is told.
pub open spec fn nested_line(error: ValidationError) -> Seq<char> {
    field_or(error.field, "?"@) + ": "@ + error.message@
}

/// How an error is told: by the errors inside its field where there are any, else by its field and
/// message, else by its message alone.
pub open spec fn error_lines(error: ValidationError) -> Seq<Seq<char>> {
    if error.errors@.len() > 0 {
        error.errors@.map_values(|nested: ValidationError| nested_line(nested))
    } else {
        match error.field {
            Some(name) => seq![name@ + ": "@ + error.message@],
            None => seq![error.message@],
        }
    }
}

/// How errors are told, one after another.
pub open spec fn all_lines(errors: Seq<ValidationError>) -> Seq<Seq<char>>
    decreases errors.len(),
{
    if errors.len() == 0 {
        Seq::empty()
    } else {
        all_lines(errors.drop_last()) + error_lines(errors.last())
    }
}

/// A progress token, which a client chooses.
#[derive(Debug, Clone)]
pub enum ProgressToken {
    String(String),
    Integer(i64),
}

/// The mathematical counterpart of [`ProgressToken`].
pub enum TokenKind {
    String(Seq<char>),
    Integer(int),
}

impl View for ProgressToken {
    type V = TokenKind;

    open spec fn view(&self) -> TokenKind {
        match self {
            ProgressToken::String(s) => TokenKind::String(s@),
            ProgressToken::Integer(n) => TokenKind::Integer(*n as int),
        }
    }
}

/// What an optional token is.
pub open spec fn opt_token(token: Option<ProgressToken>) -> Option<TokenKind> {
    match token {
        Some(t) => Some(t@),
        None => None,
    }
}

/// A token as a document.
pub open spec fn token_json(token: TokenKind) -> JsonView {
    match token {
        TokenKind::String(s) => JsonView::text(s),
        TokenKind::Integer(n) => JsonView::integer(n),
    }
}

/// The token as a document.
pub fn progress_token_to_value(token: &ProgressToken) -> (json: Json)
    ensures
        json@ == token_json(token@),
{
    match token {
        ProgressToken::String(s) => Json::text(s.as_str()),
        ProgressToken::Integer(n) => Json::integer(*n),
    }
}

/// What a call comes with, besides its arguments.
#[derive(Debug)]
pub struct CallExtra<S> {
    /// The token under which the client hears of progress.
    pub progress_token: Option<ProgressToken>,
    /// Whether the client can be sent notifications.
    pub send_notification: bool,
    /// The session that the call came over, where it can be asked things.
    pub session: Option<S>,
    /// Who calls, as the client's message has it.
    pub identity: Option<Json>,
    /// Who calls, as authentication established it.
    pub typed_identity: Option<Json>,
}

impl<S> CallExtra<S> {
    /// Nothing comes with the call.
    pub fn none() -> (extra: CallExtra<S>)
        ensures
            extra.progress_token is None,
            !extra.send_notification,
            extra.session is None,
            extra.identity is None,
            extra.typed_identity is None,
    {
        CallExtra {
            progress_token: None,
            send_notification: false,
            session: None,
            identity: None,
            typed_identity: None,
        }
    }
}

/// A piece of content that a call gives.
#[derive(Debug)]
pub struct ContentItem {
    pub content_type: String,
    pub data: Json,
}

/// The mathematical counterpart of [`ContentItem`].
pub struct ContentView {
    pub content_type: Seq<char>,
    pub data: JsonView,
}

impl View for ContentItem {
    type V = ContentView;

    open spec fn view(&self) -> ContentView {
        ContentView { content_type: self.content_type@, data: self.data@ }
    }
}

/// What the pieces of content of a list are.
pub open spec fn content_views(items: Seq<ContentItem>) -> Seq<ContentView> {
    items.map_values(|item: ContentItem| item@)
}

/// A piece of text.
pub open spec fn text_item(s: Seq<char>) -> ContentView {
    ContentView { content_type: "text"@, data: JsonView::text(s) }
}

/// What a call gives in the end.
#[derive(Debug)]
pub struct CallOutcome {
    pub content: Vec<ContentItem>,
    pub is_error: bool,
    pub trace_id: Option<String>,
}

/// The mathematical counterpart of [`CallOutcome`].
pub struct OutcomeView {
    pub content: Seq<ContentView>,
    pub is_error: bool,
    pub trace_id: Option<Seq<char>>,
}

impl View for CallOutcome {
    type V = OutcomeView;

    open spec fn view(&self) -> OutcomeView {
        OutcomeView {
            content: content_views(self.content@),
            is_error: self.is_error,
            trace_id: text::opt_view(self.trace_id),
        }
    }
}

/// A call that gives one piece of text.
pub open spec fn text_outcome(
    s: Seq<char>,
    is_error: bool,
    trace_id: Option<Seq<char>>,
) -> OutcomeView {
    OutcomeView { content: seq![text_item(s)], is_error, trace_id }
}

fn make_text_outcome(s: &str, is_error: bool, trace_id: Option<String>) -> (outcome: CallOutcome)
    ensures
        outcome@ == text_outcome(s@, is_error, text::opt_view(trace_id)),
{
    let mut content: Vec<ContentItem> = Vec::new();
    content.push(ContentItem { content_type: "text".to_string(), data: Json::text(s) });
    assert(content_views(content@) =~= seq![text_item(s@)]);
    CallOutcome { content, is_error, trace_id }
}

/// How results are written.
#[derive(Debug, Clone, Copy, PartialEq, Eq, Structural)]
pub enum Formatter {
    /// As JSON.
    Plain,
    /// By a formatter of the host's own.
    Custom,
    /// In a built-in format.
    Builtin(OutputFormat),
}

/// Routes tool calls to an executor.
pub struct ExecutionRouter {
    executor: bool,
    validate_inputs: bool,
    redact_output: bool,
    trace: bool,
    formatter: Formatter,
    output_format: OutputFormat,
    tool_schemas: JsonObject,
    output_schemas: JsonObject,
    async_bridge: bool,
    approval_bridge: bool,
    cancel_tokens: CancelTokens,
    session_registry: SessionRegistry,
}

/// The mathematical counterpart of [`ExecutionRouter`].
#[verifier::ext_equal]
pub struct RouterView {
    /// Whether there is an executor.
    pub executor: bool,
    /// Whether inputs are checked before a call.
    pub validate_inputs: bool,
    /// Whether results are redacted.
    pub redact_output: bool,
    /// Whether results come with a trace.
    pub trace: bool,
    /// How results are written.
    pub formatter: Formatter,
    /// The format that was asked for.
    pub output_format: OutputFormat,
    /// The schemas of tools' inputs, by tool.
    pub tool_schemas: Entries,
    /// The schemas of tools' results, by tool.
    pub output_schemas: Entries,
    /// Whether tasks can run in the background.
    pub async_bridge: bool,
    /// Whether approvals can be polled.
    pub approval_bridge: bool,
    /// The calls that can be cancelled.
    pub cancel_tokens: Seq<TokenView>,
    /// The connections that are alive.
    pub sessions: Seq<SessionView>,
}

impl View for ExecutionRouter {
    type V = RouterView;

    closed spec fn view(&self) -> RouterView {
        RouterView {
            executor: self.executor,
            validate_inputs: self.validate_inputs,
            redact_output: self.redact_output,
            trace: self.trace,
            formatter: self.formatter,
            output_format: self.output_format,
            tool_schemas: self.tool_schemas@,
            output_schemas: self.output_schemas@,
            async_bridge: self.async_bridge,
            approval_bridge: self.approval_bridge,
            cancel_tokens: self.cancel_tokens@,
            sessions: self.session_registry@,
        }
    }
}

/// A router as it is made.
pub open spec fn fresh_router(executor: bool, validate_inputs: bool, custom: bool) -> RouterView {
    RouterView {
        executor,
        validate_inputs,
        redact_output: true,
        trace: false,
        formatter: if custom {
            Formatter::Custom
        } else {
            Formatter::Plain
        },
        output_format: OutputFormat::Json,
        tool_schemas: json::no_entries(),
        output_schemas: json::no_entries(),
        async_bridge: false,
        approval_bridge: false,
        cancel_tokens: Seq::empty(),
        sessions: Seq::empty(),
    }
}

impl RouterView {
    /// The inputs of `tool` as they may be logged.
    pub open spec fn redacted_inputs(self, tool: Seq<char>, inputs: JsonView) -> JsonView {
        output::redacted_under(inputs, json::lookup(self.tool_schemas, tool))
    }

    /// The result of `tool` as it may be shown.
    pub open spec fn redacted_output(self, tool: Seq<char>, result: JsonView) -> JsonView {
        if self.redact_output {
            output::redacted_under(result, json::lookup(self.output_schemas, tool))
        } else {
            result
        }
    }

    /// Whether `result` goes through the formatter: an object always, an array where a format was
    /// asked for that is not JSON.
    pub open spec fn formats(self, result: JsonView) -> bool {
        self.formatter != Formatter::Plain && (result is Object || (result is Array
            && self.output_format != OutputFormat::Json))
    }

    /// The text of `result`, given what the host's own formatter made of it. Where the formatter
    /// gives nothing, the text is JSON.
    pub open spec fn result_text(self, result: JsonView, custom: Option<Seq<char>>) -> Seq<char> {
        let formatted = if self.formats(result) {
            match self.formatter {
                Formatter::Custom => custom,
                Formatter::Builtin(format) => output::builtin_text(format, result),
                Formatter::Plain => None,
            }
        } else {
            None
        };
        match formatted {
            Some(s) => s,
            None => value::text_or(result, "null"@),
        }
    }
}

impl ExecutionRouter {
    fn make(executor: bool, validate_inputs: bool, custom: bool) -> (router: ExecutionRouter)
        ensures
            router@ == fresh_router(executor, validate_inputs, custom),
    {
        ExecutionRouter {
            executor,
            validate_inputs,
            redact_output: true,
            trace: false,
            formatter: if custom {
                Formatter::Custom
            } else {
                Formatter::Plain
            },
            output_format: OutputFormat::Json,
            tool_schemas: JsonObject::new(),
            output_schemas: JsonObject::new(),
            async_bridge: false,
            approval_bridge: false,
            cancel_tokens: CancelTokens::new(),
            session_registry: SessionRegistry::new(),
        }
    }

    /// A router without an executor, which runs no modules: it serves to see what is wired to what.
    /// A call that gets as far as an executor gives an error.
    pub fn stub() -> (router: ExecutionRouter)
        ensures
            router@ == fresh_router(false, false, false),
    {
        Self::make(false, false, false)
    }

    /// A router without an executor; `custom_formatter` tells whether the host writes results.
    pub fn new_with_formatter(validate_inputs: bool, custom_formatter: bool) -> (router:
        ExecutionRouter)
        ensures
            router@ == fresh_router(false, validate_inputs, custom_formatter),
    {
        Self::make(false, validate_inputs, custom_formatter)
    }

    /// A router with an executor; `custom_formatter` tells whether the host writes results.
    pub fn new(validate_inputs: bool, custom_formatter: bool) -> (router: ExecutionRouter)
        ensures
            router@ == fresh_router(true, validate_inputs, custom_formatter),
    {
        Self::make(true, validate_inputs, custom_formatter)
    }

    /// The router with results in `format`. A format other than JSON takes the place of the host's
    /// own formatter.
    pub fn with_output_format(self, format: OutputFormat) -> (router: ExecutionRouter)
        ensures
            router@ == (RouterView {
                output_format: format,
                formatter: if format != OutputFormat::Json {
                    Formatter::Builtin(format)
                } else {
                    self@.formatter
                },
                ..self@
            }),
    {
        let mut router = self;
        router.output_format = format;
        if format != OutputFormat::Json {
            router.formatter = Formatter::Builtin(format);
        }
        router
    }

    /// The router with these schemas for inputs.
    pub fn with_tool_schemas(self, schemas: JsonObject) -> (router: ExecutionRouter)
        ensures
            router@ == (RouterView { tool_schemas: schemas@, ..self@ }),
    {
        let mut router = self;
        router.tool_schemas = schemas;
        router
    }

    /// The router with these schemas for results.
    pub fn with_output_schemas(self, schemas: JsonObject) -> (router: ExecutionRouter)
        ensures
            router@ == (RouterView { output_schemas: schemas@, ..self@ }),
    {
        let mut router = self;
        router.output_schemas = schemas;
        router
    }

    /// The router with results redacted or not.
    pub fn with_redact_output(self, redact: bool) -> (router: ExecutionRouter)
        ensures
            router@ == (RouterView { redact_output: redact, ..self@ }),
    {
        let mut router = self;
        router.redact_output = redact;
        router
    }

    /// The router with traces or without.
    pub fn with_trace(self, trace: bool) -> (router: ExecutionRouter)
        ensures
            router@ == (RouterView { trace, ..self@ }),
    {
        let mut router = self;
        router.trace = trace;
        router
    }

    /// The router with tasks in the background.
    pub fn with_async_bridge(self) -> (router: ExecutionRouter)
        ensures
            router@ == (RouterView { async_bridge: true, ..self@ }),
    {
        let mut router = self;
        router.async_bridge = true;
        router
    }

    /// The router with approvals that can be polled.
    pub fn with_approval_bridge(self) -> (router: ExecutionRouter)
        ensures
            router@ == (RouterView { approval_bridge: true, ..self@ }),
    {
        let mut router = self;
        router.approval_bridge = true;
        router
    }

    /// Whether tasks can run in the background.
    pub fn async_bridge(&self) -> (r: bool)
        ensures
            r == self@.async_bridge,
    {
        self.async_bridge
    }

    /// The connections that are alive.
    pub fn session_registry(&self) -> (registry: &SessionRegistry)
        ensures
            registry@ == self@.sessions,
    {
        &self.session_registry
    }

    /// Registers a connection.
    pub fn open_session(&mut self, session: session::McpSession)
        ensures
            final(self)@ == (RouterView {
                sessions: session::without_id(old(self)@.sessions, session@.id).push(session@),
                ..old(self)@
            }),
    {
        self.session_registry.insert(session);
    }

    /// Takes out a connection, as it is. Registering it again puts back what became of it.
    pub fn take_session(&mut self, session_id: &str) -> (r: Option<session::McpSession>)
        ensures
            final(self)@ == (RouterView {
                sessions: session::without_id(old(self)@.sessions, session_id@),
                ..old(self)@
            }),
            match r {
                Some(session) => session::alive(old(self)@.sessions, session_id@) && session@
                    == session::session_of(old(self)@.sessions, session_id@),
                None => !session::alive(old(self)@.sessions, session_id@),
            },
    {
        self.session_registry.take_out(session_id)
    }

    /// Takes out a connection, closed.
    pub fn close_session(&mut self, session_id: &str) -> (r: Option<session::McpSession>)
        ensures
            final(self)@ == (RouterView {
                sessions: session::without_id(old(self)@.sessions, session_id@),
                ..old(self)@
            }),
            match r {
                Some(session) => session::alive(old(self)@.sessions, session_id@) && session@ == (
                SessionView {
                    pending: Set::empty(),
                    ..session::session_of(old(self)@.sessions, session_id@)
                }),
                None => !session::alive(old(self)@.sessions, session_id@),
            },
    {
        self.session_registry.remove(session_id)
    }

    /// Cancels the call `call_id`, and tells whether it is active. Where it is not, it will begin
    /// cancelled.
    pub fn cancel_call(&mut self, call_id: &str) -> (found: bool)
        ensures
            found == cancel::active(old(self)@.cancel_tokens, call_id@),
            final(self)@ == (RouterView {
                cancel_tokens: if cancel::known(old(self)@.cancel_tokens, call_id@) {
                    cancel::marked(old(self)@.cancel_tokens, call_id@)
                } else {
                    cancel::evicted(
                        old(self)@.cancel_tokens.push(cancel::tombstone(call_id@)),
                    )
                },
                ..old(self)@
            }),
    {
        self.cancel_tokens.cancel_call(call_id)
    }

    /// Whether the call `call_id` was cancelled.
    pub fn is_cancelled(&self, call_id: &str) -> (r: bool)
        ensures
            r == cancel::is_cancelled(self@.cancel_tokens, call_id@),
    {
        self.cancel_tokens.is_cancelled(call_id)
    }

    /// Releases the id of a call that ended.
    pub fn end_call(&mut self, call_id: &str)
        ensures
            final(self)@ == (RouterView {
                cancel_tokens: cancel::without(old(self)@.cancel_tokens, call_id@),
                ..old(self)@
            }),
    {
        self.cancel_tokens.end_call(call_id);
    }

    /// The inputs of `tool_name` as they may be logged.
    pub fn redact_inputs(&self, tool_name: &str, inputs: &Json) -> (r: Json)
        ensures
            r@ == self@.redacted_inputs(tool_name@, inputs@),
    {
        match self.tool_schemas.get(tool_name) {
            Some(schema) => output::redact(inputs, schema),
            None => inputs.clone(),
        }
    }

    /// The result of `tool_name` as it may be shown.
    pub fn redact_output(&self, tool_name: &str, result: &Json) -> (r: Json)
        ensures
            r@ == self@.redacted_output(tool_name@, result@),
    {
        if !self.redact_output {
            return result.clone();
        }
        match self.output_schemas.get(tool_name) {
            Some(schema) => output::redact(result, schema),
            None => result.clone(),
        }
    }

    fn formats(&self, result: &Json) -> (r: bool)
        ensures
            r == self@.formats(result@),
    {
        self.formatter != Formatter::Plain && (result.is_object() || (result.is_array()
            && self.output_format != OutputFormat::Json))
    }

    /// Whether the host's own formatter is to write `result`.
    pub fn wants_custom_format(&self, result: &Json) -> (r: bool)
        ensures
            r == (self@.formatter == Formatter::Custom && self@.formats(result@)),
    {
        self.formatter == Formatter::Custom && self.formats(result)
    }

    /// The text of `result`, given what the host's own formatter made of it.
    pub fn format_result(&self, result: &Json, custom: Option<&str>) -> (s: String)
        ensures
            s@ == self@.result_text(result@, text::ref_view(custom)),
    {
        if self.formats(result) {
            let formatted = match self.formatter {
                Formatter::Custom => match custom {
                    Some(s) => Some(s.to_string()),
                    None => None,
                },
                Formatter::Builtin(format) => output::write_builtin(format, result),
                Formatter::Plain => None,
            };
            if let Some(s) = formatted {
                return s;
            }
        }
        value::to_text_or(result, "null")
    }
}

/// A check that the answer to a request for validation reports.
pub open spec fn failed_check(error: ValidationError) -> JsonView {
    JsonView::object().with("check"@, JsonView::text(field_or(error.field, "general"@))).with(
        "message"@,
        JsonView::text(error.message@),
    ).with("passed"@, JsonView::Bool(false))
}

/// An answer to a request for validation.
pub open spec fn validation_view(
    valid: bool,
    checks: Seq<JsonView>,
    requires_approval: bool,
) -> JsonView {
    JsonView::object().with("valid"@, JsonView::Bool(valid)).with("checks"@, JsonView::Array(checks)).with(
        "requires_approval"@,
        JsonView::Bool(requires_approval),
    )
}

/// The check that reports what nobody foresaw.
pub open spec fn unexpected_check(message: Seq<char>) -> JsonView {
    JsonView::object().with("check"@, JsonView::text("unexpected"@)).with(
        "message"@,
        JsonView::text(message),
    )
}

/// The checks that failed.
pub open spec fn failed_checks(errors: Seq<ValidationError>) -> Seq<JsonView> {
    errors.map_values(|error: ValidationError| failed_check(error))
}

/// The answer to a request for validation with this outcome.
pub open spec fn validated_view(outcome: ValidationOutcome) -> JsonView {
    match outcome {
        ValidationOutcome::Checked(result) => validation_view(
            result.valid,
            failed_checks(result.errors@),
            result.requires_approval,
        ),
        ValidationOutcome::Unsupported => validation_view(true, Seq::empty(), false),
        ValidationOutcome::Panicked => validation_view(
            false,
            seq![unexpected_check("validation panicked"@)],
            false,
        ),
    }
}

fn validation_json(valid: bool, checks: Vec<Json>, requires_approval: bool) -> (json: Json)
    ensures
        json@ == validation_view(valid, json::views(checks@), requires_approval),
{
    Json::object().with("valid", Json::Bool(valid)).with("checks", Json::array(checks)).with(
        "requires_approval",
        Json::Bool(requires_approval),
    )
}

fn unexpected_json(message: &str) -> (checks: Vec<Json>)
    ensures
        json::views(checks@) == seq![unexpected_check(message@)],
{
    let mut checks: Vec<Json> = Vec::new();
    checks.push(
        Json::object().with("check", Json::text("unexpected")).with("message", Json::text(message)),
    );
    assert(json::views(checks@) =~= seq![unexpected_check(message@)]);
    checks
}

impl ExecutionRouter {
    /// The answer to a request to check inputs without a call, given what the executor's check came
    /// to.
    pub fn validate_tool(&self, outcome: &ValidationOutcome) -> (json: Json)
        ensures
            json@ == (if self@.executor {
                validated_view(*outcome)
            } else {
                validation_view(false, seq![unexpected_check("No executor configured"@)], false)
            }),
    {
        if !self.executor {
            return validation_json(false, unexpected_json("No executor configured"), false);
        }
        match outcome {
            ValidationOutcome::Checked(result) => {
                let mut checks: Vec<Json> = Vec::new();
                let mut i: usize = 0;
                while i < result.errors.len()
                    invariant
                        i <= result.errors.len(),
                        checks.len() == i,
                        forall|j: int|
                            0 <= j < i ==> (#[trigger] checks@[j])@ == failed_check(
                                result.errors@[j],
                            ),
                    decreases result.errors.len() - i,
                {
                    let error = &result.errors[i];
                    checks.push(
                        Json::object().with(
                            "check",
                            Json::text(field_name(&error.field, "general").as_str()),
                        ).with("message", Json::text(error.message.as_str())).with(
                            "passed",
                            Json::Bool(false),
                        ),
                    );
                    i = i + 1;
                }
                assert(json::views(checks@) =~= failed_checks(result.errors@));
                validation_json(result.valid, checks, result.requires_approval)
            },
            ValidationOutcome::Unsupported => {
                let checks: Vec<Json> = Vec::new();
                assert(json::views(checks@) =~= Seq::<JsonView>::empty());
                validation_json(true, checks, false)
            },
            ValidationOutcome::Panicked => validation_json(
                false,
                unexpected_json("validation panicked"),
                false,
            ),
        }
    }

    /// How errors in inputs are told, in one line.
    pub fn format_validation_errors(errors: &Vec<ValidationError>) -> (s: String)
        ensures
            s@ == text::joined(all_lines(errors@), "; "@),
    {
        let mut lines: Vec<String> = Vec::new();
        let mut i: usize = 0;
        assert(text::texts(lines@) =~= all_lines(errors@.take(0)));
        while i < errors.len()
            invariant
                i <= errors.len(),
                text::texts(lines@) == all_lines(errors@.take(i as int)),
            decreases errors.len() - i,
        {
            let error = &errors[i];
            let ghost told = text::texts(lines@);
            assert(errors@.take(i + 1).drop_last() =~= errors@.take(i as int));
            assert(errors@.take(i + 1).last() == *error);
            if error.errors.len() > 0 {
                let mut k: usize = 0;
                assert(told + error_lines(*error).take(0) =~= told);
                while k < error.errors.len()
                    invariant
                        k <= error.errors.len(),
                        error.errors.len() > 0,
                        text::texts(lines@) == told + error_lines(*error).take(k as int),
                    decreases error.errors.len() - k,
                {
                    let nested = &error.errors[k];
                    let ghost before = text::texts(lines@);
                    let line = field_name(&nested.field, "?").concat(": ").concat(
                        nested.message.as_str(),
                    );
                    assert(line@ =~= nested_line(*nested));
                    lines.push(line);
                    assert(error_lines(*error)[k as int] == nested_line(error.errors@[k as int]));
                    assert(text::texts(lines@) =~= before.push(line@));
                    assert(error_lines(*error).take(k + 1) =~= error_lines(*error).take(
                        k as int,
                    ).push(line@));
                    assert(text::texts(lines@) =~= told + error_lines(*error).take(k + 1));
                    k = k + 1;
                }
                assert(error_lines(*error).take(error.errors@.len() as int) =~= error_lines(
                    *error,
                ));
            } else {
                let line = match &error.field {
                    Some(field) => field.clone().concat(": ").concat(error.message.as_str()),
                    None => error.message.clone(),
                };
                lines.push(line);
                assert(text::texts(lines@) =~= told + error_lines(*error));
            }
            i = i + 1;
        }
        assert(errors@.take(errors@.len() as int) =~= errors@);
        text::join(&lines, "; ")
    }

    /// The text of an error: its message, and the guidance that comes with it.
    pub fn build_error_text(error: &ExecutorError) -> (s: String)
        ensures
            s@ == error_text(*error),
    {
        match error {
            ExecutorError::Execution { code: _, message, details } => {
                if let Some(details) = details {
                    let guidance = Json::object().with_opt(
                        "retryable",
                        types::copy_ref(details.get("retryable")),
                    ).with_opt("aiGuidance", types::copy_ref(details.get("aiGuidance"))).with_opt(
                        "userFixable",
                        types::copy_ref(details.get("userFixable")),
                    ).with_opt("suggestion", types::copy_ref(details.get("suggestion")));
                    if let Json::Object(object) = &guidance {
                        if !object.is_empty() {
                            return message.clone().concat("\n\n").concat(
                                value::to_text_or(&guidance, "").as_str(),
                            );
                        }
                    }
                }
                message.clone()
            },
            ExecutorError::Validation(reason) => "Validation failed: ".to_string().concat(
                reason.as_str(),
            ),
            ExecutorError::Other(reason) => reason.clone(),
        }
    }
}

/// Where a call comes from in a distributed trace.
#[derive(Debug)]
pub struct TraceParent {
    pub version: u8,
    pub trace_id: String,
    pub parent_id: String,
    pub trace_flags: u8,
}

/// The mathematical counterpart of [`TraceParent`].
pub struct TraceParentView {
    pub version: int,
    pub trace_id: Seq<char>,
    pub parent_id: Seq<char>,
    pub trace_flags: int,
}

impl View for TraceParent {
    type V = TraceParentView;

    open spec fn view(&self) -> TraceParentView {
        TraceParentView {
            version: self.version as int,
            trace_id: self.trace_id@,
            parent_id: self.parent_id@,
            trace_flags: self.trace_flags as int,
        }
    }
}

/// What an optional origin is.
pub open spec fn opt_trace(parent: Option<TraceParent>) -> Option<TraceParentView> {
    match parent {
        Some(p) => Some(p@),
        None => None,
    }
}

/// The value of a hexadecimal digit.
pub open spec fn hex_value(c: char) -> int {
    if '0' <= c && c <= '9' {
        c as int - '0' as int
    } else {
        c as int - 'a' as int + 10
    }
}

/// The byte that two hexadecimal digits write.
pub open spec fn hex_byte(s: Seq<char>, i: int) -> int {
    16 * hex_value(s[i]) + hex_value(s[i + 1])
}

/// Nothing but zeros.
pub open spec fn all_zero(s: Seq<char>) -> bool {
    forall|i: int| 0 <= i < s.len() ==> #[trigger] s[i] == '0'
}

/// A header in its canonical form: four groups of hexadecimal digits in small letters, of 2, 32, 16
/// and 2 digits, with hyphens between them.
pub open spec fn canonical_header(header: Seq<char>) -> bool {
    &&& header.len() == 55
    &&& header[2] == '-'
    &&& header[35] == '-'
    &&& header[52] == '-'
    &&& ids::hex_text(header.subrange(0, 2))
    &&& ids::hex_text(header.subrange(3, 35))
    &&& ids::hex_text(header.subrange(36, 52))
    &&& ids::hex_text(header.subrange(53, 55))
}

/// What a canonical header says; nothing where its version is the invalid one or an id is zero.
pub open spec fn header_parts(header: Seq<char>) -> Option<TraceParentView> {
    let trace_id = header.subrange(3, 35);
    let parent_id = header.subrange(36, 52);
    if hex_byte(header, 0) == 255 || all_zero(trace_id) || all_zero(parent_id) {
        None
    } else {
        Some(
            TraceParentView {
                version: hex_byte(header, 0),
                trace_id,
                parent_id,
                trace_flags: hex_byte(header, 53),
            },
        )
    }
}

/// The origin that a header names: white space around it and the case of its letters do not matter,
/// and a header that is not canonical but for these names none.
pub open spec fn traceparent(header: Seq<char>) -> Option<TraceParentView> {
    let canonical = text::lower(text::trimmed(header));
    if canonical_header(canonical) {
        header_parts(canonical)
    } else {
        None
    }
}

/// `apcore::TraceContext::extract` on headers that hold `traceparent` alone: the header is trimmed
/// and put in small letters, and what is then canonical is read.
#[verifier::external_body]
fn read_traceparent(header: &str) -> (r: Option<TraceParent>)
    ensures
        opt_trace(r) == traceparent(header@),
{
    let mut headers = std::collections::HashMap::new();
    headers.insert("traceparent".to_string(), header.to_string());
    let p = apcore::TraceContext::extract(&headers)?;
    Some(TraceParent {
        version: p.version,
        trace_id: p.trace_id,
        parent_id: p.parent_id,
        trace_flags: p.trace_flags,
    })
}

/// The outside type `apcore::Context`.
#[verifier::external_type_specification]
#[verifier::external_body]
#[verifier::reject_recursive_types(T)]
pub struct ExContext<T>(apcore::Context<T>);

/// The `trace_id` of an `apcore::Context`.
pub uninterp spec fn trace_id_of(context: apcore::Context<serde_json::Value>) -> Seq<char>;

/// Who makes a call, as apcore knows them.
pub struct IdentityView {
    pub id: Seq<char>,
    pub identity_type: Seq<char>,
    pub roles: Seq<Seq<char>>,
    pub attrs: Map<Seq<char>, JsonView>,
}

/// The `identity` of an `apcore::Context`.
pub uninterp spec fn identity_of(context: apcore::Context<serde_json::Value>) -> Option<
    IdentityView,
>;

/// The `apcore::Identity` that `serde_json::from_value` reads from a document; nothing where it
/// reports an error.
pub uninterp spec fn identity_in(document: JsonView) -> Option<IdentityView>;

/// The outside type `apcore::CancelToken`. Its clones are cancelled together.
#[verifier::external_type_specification]
#[verifier::external_body]
pub struct ExCancelToken(apcore::CancelToken);

/// The `cancel_token` of an `apcore::Context`.
pub uninterp spec fn cancel_token_of(context: apcore::Context<serde_json::Value>) -> Option<
    apcore::CancelToken,
>;

/// What the shared `data` of an `apcore::Context` had under a key when the context was made.
pub uninterp spec fn seeded(
    context: apcore::Context<serde_json::Value>,
    key: Seq<char>,
) -> Option<JsonView>;

/// The key under which `apcore` keeps the flags of the origin that a context was made with.
pub const TRACE_FLAGS_KEY: &'static str = "_apcore.trace.flags";

/// The context was made with `offered` as its data, to which an origin adds its flags.
pub open spec fn seeded_with(
    context: apcore::Context<serde_json::Value>,
    offered: JsonView,
    traced: bool,
) -> bool {
    forall|key: Seq<char>| #[trigger]
        seeded(context, key) == offered.get(key) || (traced && key == TRACE_FLAGS_KEY@
            && offered.get(key) is None)
}

/// A header of the version that is in use for the trace `trace_id`: it ends with the span that the
/// trace is passed on from, in 16 hexadecimal digits, and with flags in 2.
pub open spec fn outbound_header(header: Seq<char>, trace_id: Seq<char>) -> bool {
    let hex = text::unhyphenated(trace_id);
    let n = hex.len() as int;
    &&& header.len() == n + 23
    &&& header.take(3) == seq!['0', '0', '-']
    &&& header.subrange(3, n + 3) == hex
    &&& header[n + 3] == '-'
    &&& ids::hex_text(header.subrange(n + 4, n + 20))
    &&& header[n + 20] == '-'
    &&& ids::hex_text(header.subrange(n + 21, n + 23))
}

/// The `traceparent` header of `apcore::TraceContext::inject`, which is always there: the context's
/// trace id without its hyphens, between the version and a span. The span may be random, and the
/// flags are those that the context's shared data hold, so neither is said here.
#[verifier::external_body]
fn inject_header(context: &apcore::Context<serde_json::Value>) -> (header: Option<String>)
    ensures
        header is Some,
        outbound_header(header.unwrap()@, trace_id_of(*context)),
{
    apcore::TraceContext::inject(context).remove("traceparent")
}

/// `header` is one that apcore can give for `context`, whose shared data may change and whose span
/// may be random.
pub closed spec fn injected(
    context: &apcore::Context<serde_json::Value>,
    header: Seq<char>,
) -> bool {
    exists|given: Option<String>| #[trigger]
        call_ensures(inject_header, (context,), given) && text::opt_view(given) == Some(header)
}

/// The id of a trace that a context goes on with: 32 hexadecimal digits in small letters, neither
/// all `0` nor all `f`.
pub open spec fn inheritable(trace_id: Seq<char>) -> bool {
    &&& trace_id.len() == 32
    &&& ids::hex_text(trace_id)
    &&& !all_zero(trace_id)
    &&& exists|i: int| 0 <= i < trace_id.len() && #[trigger] trace_id[i] != 'f'
}

/// `apcore::ContextBuilder::build` for this caller, this origin, these entries of shared data and
/// this token, and the id of the trace that the context belongs to: the origin's where it can be
/// gone on with, else a fresh one, in 32 hexadecimal digits. The caller is the `apcore::Identity`
/// that `serde_json::from_value` reads from the document, where it reads one. The origin's flags are
/// added to the data where there are none yet.
#[verifier::external_body]
fn new_context(
    identity: Option<serde_json::Value>,
    parent: Option<&TraceParent>,
    offered: serde_json::Value,
    cancel_token: Option<apcore::CancelToken>,
) -> (r: (apcore::Context<serde_json::Value>, String))
    requires
        value::value_json(offered) is Object,
    ensures
        r.1@ == trace_id_of(r.0),
        r.1@.len() == 32,
        ids::hex_text(r.1@),
        identity_of(r.0) == (match identity {
            Some(document) => identity_in(value::value_json(document)),
            None => None,
        }),
        parent matches Some(p) ==> inheritable(p.trace_id@) ==> r.1@ == p.trace_id@,
        forall|key: Seq<char>| #[trigger]
            seeded(r.0, key) == value::value_json(offered).get(key) || (parent is Some && key
                == TRACE_FLAGS_KEY@ && value::value_json(offered).get(key) is None),
        cancel_token_of(r.0) == cancel_token,
{
    let identity = identity.and_then(|v| serde_json::from_value::<apcore::Identity>(v).ok());
    let parent = parent.map(|p| apcore::trace_context::TraceParent {
        version: p.version, trace_id: p.trace_id.clone(), parent_id: p.parent_id.clone(),
        trace_flags: p.trace_flags, tracestate: vec![],
    });
    let data = match offered {
        serde_json::Value::Object(entries) => entries.into_iter().collect(),
        _ => std::collections::HashMap::new(),
    };
    let builder = apcore::Context::builder().identity(identity).trace_parent(parent);
    let context = builder.data(data).cancel_token(cancel_token).build();
    let trace_id = context.trace_id.clone();
    (context, trace_id)
}

/// The header that a call's metadata holds.
pub open spec fn given_header(extra: Option<JsonView>) -> Option<Seq<char>> {
    json::text_in(json::get_in(json::get_in(extra, "_meta"@), "traceparent"@))
}

/// The origin that a call's metadata names.
pub open spec fn given_traceparent(extra: Option<JsonView>) -> Option<TraceParentView> {
    match given_header(extra) {
        Some(header) => traceparent(header),
        None => None,
    }
}

/// An id in a document: a string itself, or an integer in decimal.
pub open spec fn id_text(id: Option<JsonView>) -> Option<Seq<char>> {
    match id {
        Some(document) => match document.as_str() {
            Some(s) => Some(s),
            None => match document.as_i64() {
                Some(n) => Some(text::integer_text(n)),
                None => None,
            },
        },
        None => None,
    }
}

fn read_id(id: Option<&Json>) -> (r: Option<String>)
    ensures
        text::opt_view(r) == id_text(json::ref_view(id)),
{
    match id {
        Some(document) => match document.as_str() {
            Some(s) => Some(s.to_string()),
            None => match document.as_i64() {
                Some(n) => Some(text::integer(n)),
                None => None,
            },
        },
        None => None,
    }
}

/// The id that a call comes with: its own, or else its progress token.
pub open spec fn given_call_id(extra: Option<JsonView>) -> Option<Seq<char>> {
    match id_text(json::get_in(extra, "call_id"@)) {
        Some(id) => Some(id),
        None => id_text(json::get_in(json::get_in(extra, "_meta"@), "progressToken"@)),
    }
}

/// The version that a call asks for: the caller's, or else the client's, or else the module's own.
pub open spec fn version_hint(extra: Option<JsonView>, default_version: Option<Seq<char>>) -> Option<
    Seq<char>,
> {
    let own = match json::get_in(extra, "version_hint"@) {
        Some(hint) => Some(hint),
        None => json::get_in(extra, "versionHint"@),
    };
    match json::text_in(own) {
        Some(version) => Some(version),
        None => match json::text_in(
            json::get_in(json::get_in(json::get_in(extra, "_meta"@), "apcore"@), "version"@),
        ) {
            Some(version) => Some(version),
            None => default_version,
        },
    }
}

/// The session that a call's metadata names, at its top or under `_meta`.
pub open spec fn given_session(extra: Option<JsonView>) -> Option<Seq<char>> {
    json::text_in(
        match json::get_in(extra, "sessionId"@) {
            Some(id) => Some(id),
            None => json::get_in(json::get_in(extra, "_meta"@), "sessionId"@),
        },
    )
}

/// The progress token that a call comes with.
pub open spec fn given_token(extra: Option<JsonView>) -> Option<TokenKind> {
    match json::get_in(extra, "progress_token"@) {
        Some(document) => match document.as_str() {
            Some(s) => Some(TokenKind::String(s)),
            None => match document.as_i64() {
                Some(n) => Some(TokenKind::Integer(n)),
                None => None,
            },
        },
        None => None,
    }
}

/// What is to be done next with a call.
#[derive(Debug)]
pub enum CallStep {
    /// Hand the call to the bridge for approvals.
    ApprovalCheck,
    /// Hand the call to the bridge for tasks.
    TaskMetaTool,
    /// Ask whether the tool runs in the background.
    AskAsync,
    /// Submit the call as a task.
    SubmitTask,
    /// Have the inputs checked.
    Validate,
    /// Open a stream of results.
    OpenStream,
    /// Call the tool with the typed context.
    CallTyped,
    /// Call the tool for a result with a trace.
    CallTraced,
    /// Call the tool.
    CallPlain,
    /// Give this.
    Done(CallOutcome),
}

/// The mathematical counterpart of [`CallStep`].
pub enum StepView {
    ApprovalCheck,
    TaskMetaTool,
    AskAsync,
    SubmitTask,
    Validate,
    OpenStream,
    CallTyped,
    CallTraced,
    CallPlain,
    Done(OutcomeView),
}

impl View for CallStep {
    type V = StepView;

    open spec fn view(&self) -> StepView {
        match self {
            CallStep::ApprovalCheck => StepView::ApprovalCheck,
            CallStep::TaskMetaTool => StepView::TaskMetaTool,
            CallStep::AskAsync => StepView::AskAsync,
            CallStep::SubmitTask => StepView::SubmitTask,
            CallStep::Validate => StepView::Validate,
            CallStep::OpenStream => StepView::OpenStream,
            CallStep::CallTyped => StepView::CallTyped,
            CallStep::CallTraced => StepView::CallTraced,
            CallStep::CallPlain => StepView::CallPlain,
            CallStep::Done(outcome) => StepView::Done(outcome@),
        }
    }
}

/// What a call gives where there is no executor.
pub open spec fn no_executor() -> OutcomeView {
    text_outcome("No executor configured"@, true, None)
}

/// What a call gives where the executor broke off.
pub open spec fn panicked(tool: Seq<char>) -> OutcomeView {
    text_outcome("Internal error: executor panicked while invoking "@ + tool, true, None)
}

/// What a call gives where it failed.
pub open spec fn failed(error: ExecutorError) -> OutcomeView {
    text_outcome(error_text(error), true, None)
}

/// The trace that a call's context belongs to.
pub open spec fn context_trace(context: Option<JsonView>) -> Option<Seq<char>> {
    json::text_in(json::get_in(context, "trace_id"@))
}

impl RouterView {
    /// The step that calls the tool, as a stream or not.
    pub open spec fn dispatch_step(self, streaming: bool) -> StepView {
        if !self.executor {
            StepView::Done(no_executor())
        } else if streaming {
            StepView::OpenStream
        } else {
            StepView::CallTyped
        }
    }

    /// The step that has the inputs checked, where they are, or else calls the tool.
    pub open spec fn checked_step(self, streaming: bool) -> StepView {
        if self.validate_inputs && self.executor {
            StepView::Validate
        } else {
            self.dispatch_step(streaming)
        }
    }

    /// The first step of a call of `tool`.
    pub open spec fn first_step(self, tool: Seq<char>, streaming: bool) -> StepView {
        if self.approval_bridge && tool == approval_bridge::APPROVAL_CHECK@ {
            StepView::ApprovalCheck
        } else if self.async_bridge {
            if async_task_bridge::task_meta_tool(tool) {
                StepView::TaskMetaTool
            } else {
                StepView::AskAsync
            }
        } else {
            self.checked_step(streaming)
        }
    }

    /// The step that follows once it is known whether the tool runs in the background.
    pub open spec fn async_step(self, registered: bool, streaming: bool) -> StepView {
        if registered {
            StepView::SubmitTask
        } else {
            self.checked_step(streaming)
        }
    }

    /// The step that follows the check of the inputs.
    pub open spec fn validated_step(self, outcome: ValidationOutcome, streaming: bool) -> StepView {
        match outcome {
            ValidationOutcome::Checked(result) => if result.valid {
                self.dispatch_step(streaming)
            } else {
                StepView::Done(
                    text_outcome(
                        "Validation failed: "@ + text::joined(all_lines(result.errors@), "; "@),
                        true,
                        None,
                    ),
                )
            },
            ValidationOutcome::Unsupported => self.dispatch_step(streaming),
            ValidationOutcome::Panicked => StepView::Done(
                text_outcome("Validation failed: validator panicked"@, true, None),
            ),
        }
    }

    /// What a call of `tool` that succeeded gives: the text of its redacted result, its trace where
    /// there is one, and the trace that its context belongs to.
    pub open spec fn succeeded(
        self,
        tool: Seq<char>,
        result: JsonView,
        trace: Option<JsonView>,
        context: Option<JsonView>,
        custom: Option<Seq<char>>,
    ) -> OutcomeView {
        let shown = text_item(self.result_text(self.redacted_output(tool, result), custom));
        OutcomeView {
            content: match trace {
                Some(t) => seq![shown, ContentView { content_type: "trace"@, data: t }],
                None => seq![shown],
            },
            is_error: false,
            trace_id: context_trace(context),
        }
    }
}

/// What came of a call of a tool.
#[derive(Debug)]
pub enum CallEvent {
    /// The call begins; `typed` tells whether there is a typed context.
    Begin { typed: bool },
    /// The executor takes no typed context.
    TypedDeclined,
    /// The typed call broke off.
    TypedPanicked,
    /// The typed call gave a result, with a trace where there is one.
    TypedReturned { result: Json, trace: Option<Json> },
    /// The typed call failed.
    TypedFailed(ExecutorError),
    /// The executor gives no traces.
    TraceDeclined,
    /// The traced call gave a result.
    TraceReturned { result: Json, pipeline: Json },
    /// The traced call failed.
    TraceFailed(ExecutorError),
    /// The call broke off.
    PlainPanicked,
    /// The call gave a result.
    PlainReturned(Json),
    /// The call failed.
    PlainFailed(ExecutorError),
}

impl RouterView {
    /// The step of a call without a typed context.
    pub open spec fn untyped_step(self) -> StepView {
        if self.trace {
            StepView::CallTraced
        } else {
            StepView::CallPlain
        }
    }

    /// The step that follows what came of a call of `tool`, given what the host's own formatter
    /// made of the redacted result.
    pub open spec fn call_step(
        self,
        tool: Seq<char>,
        context: Option<JsonView>,
        event: CallEvent,
        custom: Option<Seq<char>>,
    ) -> StepView {
        if !self.executor {
            StepView::Done(no_executor())
        } else {
            match event {
                CallEvent::Begin { typed } => if typed {
                    StepView::CallTyped
                } else {
                    self.untyped_step()
                },
                CallEvent::TypedDeclined => self.untyped_step(),
                CallEvent::TypedPanicked => StepView::Done(panicked(tool)),
                CallEvent::TypedReturned { result, trace } => StepView::Done(
                    self.succeeded(tool, result@, json::opt_view(trace), context, custom),
                ),
                CallEvent::TypedFailed(error) => StepView::Done(failed(error)),
                CallEvent::TraceDeclined => StepView::CallPlain,
                CallEvent::TraceReturned { result, pipeline } => StepView::Done(
                    self.succeeded(tool, result@, Some(pipeline@), context, custom),
                ),
                CallEvent::TraceFailed(error) => StepView::Done(failed(error)),
                CallEvent::PlainPanicked => StepView::Done(panicked(tool)),
                CallEvent::PlainReturned(result) => StepView::Done(
                    self.succeeded(tool, result@, None, context, custom),
                ),
                CallEvent::PlainFailed(error) => StepView::Done(failed(error)),
            }
        }
    }
}

/// What a call comes with, and its first step.
#[derive(Debug)]
pub struct CallPlan {
    /// The id under which the call can be cancelled.
    pub call_id: String,
    /// Whether the call was cancelled before it began.
    pub cancelled: bool,
    pub extra: CallExtra<String>,
    /// The version of the module that is asked for.
    pub version_hint: Option<String>,
    /// Where the call comes from.
    pub trace_parent: Option<TraceParent>,
    /// The token under which the client hears of the call if it becomes a task.
    pub task_token: Option<Json>,
    /// The session that launches the task if the call becomes one.
    pub task_session: Option<String>,
    pub step: CallStep,
}

/// Whether results are streamed: there is a token, and a way to send notifications.
pub open spec fn streams<S>(extra: CallExtra<S>) -> bool {
    extra.progress_token is Some && extra.send_notification
}

impl ExecutionRouter {
    /// The session that a call's metadata names.
    pub fn session_id_from_extra<'a>(extra: Option<&'a Json>) -> (id: Option<&'a str>)
        ensures
            text::ref_view(id) == given_session(json::ref_view(extra)),
    {
        let own = json::member(extra, "sessionId");
        let id = match own {
            Some(id) => Some(id),
            None => json::member(json::member(extra, "_meta"), "sessionId"),
        };
        json::text_of(id)
    }

    /// What a call's metadata says: its token, its session where that is alive, and who calls.
    pub fn extract_extra(&self, extra: Option<&Json>) -> (r: CallExtra<String>)
        ensures
            opt_token(r.progress_token) == given_token(json::ref_view(extra)),
            !r.send_notification,
            text::opt_view(r.session) == (match given_session(json::ref_view(extra)) {
                Some(id) => if session::alive(self@.sessions, id) {
                    Some(id)
                } else {
                    None
                },
                None => None,
            }),
            json::opt_view(r.identity) == json::get_in(json::ref_view(extra), "identity"@),
            r.typed_identity is None,
    {
        let progress_token = match json::member(extra, "progress_token") {
            Some(token) => match token.as_str() {
                Some(s) => Some(ProgressToken::String(s.to_string())),
                None => match token.as_i64() {
                    Some(n) => Some(ProgressToken::Integer(n)),
                    None => None,
                },
            },
            None => None,
        };
        let session = match Self::session_id_from_extra(extra) {
            Some(id) => match self.session_registry.get(id) {
                Some(_) => Some(id.to_string()),
                None => None,
            },
            None => None,
        };
        CallExtra {
            progress_token,
            send_notification: false,
            session,
            identity: types::copy_ref(json::member(extra, "identity")),
            typed_identity: None,
        }
    }

    /// The origin that a call's metadata names.
    pub fn extract_traceparent(extra: Option<&Json>) -> (r: Option<TraceParent>)
        ensures
            opt_trace(r) == given_traceparent(json::ref_view(extra)),
    {
        let header = json::text_of(json::member(json::member(extra, "_meta"), "traceparent"));
        match header {
            Some(header) => read_traceparent(header),
            None => None,
        }
    }

    /// The metadata that passes the trace of `context` on to the client.
    pub fn inject_traceparent_meta(context: &apcore::Context<serde_json::Value>) -> (json: Json)
        ensures
            exists|header: Seq<char>| #[trigger]
                injected(context, header) && outbound_header(header, trace_id_of(*context)) && json@
                    == JsonView::object().with("traceparent"@, JsonView::text(header)),
    {
        let header = inject_header(context);
        assert(call_ensures(inject_header, (context,), header));
        assert(injected(context, header.unwrap()@));
        match header {
            Some(h) => Self::traceparent_meta(Some(h.as_str())),
            None => Self::traceparent_meta(None),
        }
    }

    /// The metadata that passes a `traceparent` header on.
    pub fn traceparent_meta(header: Option<&str>) -> (json: Json)
        ensures
            json@ == JsonView::object().with_opt(
                "traceparent"@,
                types::text_opt_view(text::ref_view(header)),
            ),
    {
        Json::object().with_opt("traceparent", types::text_opt_json(header))
    }

    /// The id of a call: the one that it comes with, or else a fresh one.
    pub fn call_id(extra: Option<&Json>) -> (id: String)
        ensures
            match given_call_id(json::ref_view(extra)) {
                Some(given) => id@ == given,
                None => ids::uuid_text(id@),
            },
    {
        match read_id(json::member(extra, "call_id")) {
            Some(id) => id,
            None => match read_id(
                json::member(json::member(extra, "_meta"), "progressToken"),
            ) {
                Some(id) => id,
                None => ids::fresh_uuid(),
            },
        }
    }

    /// The version of the module that a call asks for.
    pub fn version_hint(extra: Option<&Json>, default_version: Option<&str>) -> (r: Option<String>)
        ensures
            text::opt_view(r) == version_hint(
                json::ref_view(extra),
                text::ref_view(default_version),
            ),
    {
        let own = match json::member(extra, "version_hint") {
            Some(hint) => Some(hint),
            None => json::member(extra, "versionHint"),
        };
        match json::text_of(own) {
            Some(version) => Some(version.to_string()),
            None => match json::text_of(
                json::member(
                    json::member(json::member(extra, "_meta"), "apcore"),
                    "version",
                ),
            ) {
                Some(version) => Some(version.to_string()),
                None => match default_version {
                    Some(version) => Some(version.to_string()),
                    None => None,
                },
            },
        }
    }

    /// Begins a call of `tool_name`: registers its id, and gives what it comes with and its first
    /// step.
    pub fn handle_call(
        &mut self,
        tool_name: &str,
        extra: Option<&Json>,
        default_version: Option<&str>,
    ) -> (plan: CallPlan)
        ensures
            match given_call_id(json::ref_view(extra)) {
                Some(given) => plan.call_id@ == given,
                None => ids::uuid_text(plan.call_id@),
            },
            plan.cancelled == cancel::is_cancelled(old(self)@.cancel_tokens, plan.call_id@),
            final(self)@ == (RouterView {
                cancel_tokens: cancel::evicted(
                    cancel::without(old(self)@.cancel_tokens, plan.call_id@).push(
                        TokenView {
                            call_id: plan.call_id@,
                            cancelled: plan.cancelled,
                            in_flight: true,
                        },
                    ),
                ),
                ..old(self)@
            }),
            opt_token(plan.extra.progress_token) == given_token(json::ref_view(extra)),
            !plan.extra.send_notification,
            text::opt_view(plan.extra.session) == (match given_session(json::ref_view(extra)) {
                Some(id) => if session::alive(old(self)@.sessions, id) {
                    Some(id)
                } else {
                    None
                },
                None => None,
            }),
            json::opt_view(plan.extra.identity) == json::get_in(
                json::ref_view(extra),
                "identity"@,
            ),
            plan.extra.typed_identity is None,
            text::opt_view(plan.version_hint) == version_hint(
                json::ref_view(extra),
                text::ref_view(default_version),
            ),
            opt_trace(plan.trace_parent) == given_traceparent(json::ref_view(extra)),
            json::opt_view(plan.task_token) == json::get_in(
                json::ref_view(extra),
                "progressToken"@,
            ),
            text::opt_view(plan.task_session) == json::text_in(
                json::get_in(json::ref_view(extra), "sessionId"@),
            ),
            plan.step@ == old(self)@.first_step(tool_name@, false),
    {
        let call_id = Self::call_id(extra);
        let cancelled = self.cancel_tokens.begin_call(call_id.as_str());
        let call_extra = self.extract_extra(extra);
        let version_hint = Self::version_hint(extra, default_version);
        let trace_parent = Self::extract_traceparent(extra);
        let task_session = match json::text_of(json::member(extra, "sessionId")) {
            Some(id) => Some(id.to_string()),
            None => None,
        };
        let step = self.first_step(tool_name, false);
        CallPlan {
            call_id,
            cancelled,
            extra: call_extra,
            version_hint,
            trace_parent,
            task_token: types::copy_ref(json::member(extra, "progressToken")),
            task_session,
            step,
        }
    }

    /// Begins a call that comes with `extra`: gives its first step.
    pub fn handle_call_with_extra<S>(&self, extra: &CallExtra<S>) -> (step: CallStep)
        ensures
            step@ == self@.checked_step(streams(*extra)),
    {
        self.checked_step(extra.progress_token.is_some() && extra.send_notification)
    }

    fn dispatch_step(&self, streaming: bool) -> (step: CallStep)
        ensures
            step@ == self@.dispatch_step(streaming),
    {
        if !self.executor {
            CallStep::Done(make_text_outcome("No executor configured", true, None))
        } else if streaming {
            CallStep::OpenStream
        } else {
            CallStep::CallTyped
        }
    }

    fn checked_step(&self, streaming: bool) -> (step: CallStep)
        ensures
            step@ == self@.checked_step(streaming),
    {
        if self.validate_inputs && self.executor {
            CallStep::Validate
        } else {
            self.dispatch_step(streaming)
        }
    }

    /// The first step of a call of `tool_name`.
    pub fn first_step(&self, tool_name: &str, streaming: bool) -> (step: CallStep)
        ensures
            step@ == self@.first_step(tool_name@, streaming),
    {
        if self.approval_bridge && ApprovalBridge::is_meta_tool(tool_name) {
            CallStep::ApprovalCheck
        } else if self.async_bridge {
            if AsyncTaskBridge::is_meta_tool(tool_name) {
                CallStep::TaskMetaTool
            } else {
                CallStep::AskAsync
            }
        } else {
            self.checked_step(streaming)
        }
    }

    /// The step that follows once it is known whether the tool runs in the background.
    pub fn after_async_answer(&self, registered: bool, streaming: bool) -> (step: CallStep)
        ensures
            step@ == self@.async_step(registered, streaming),
    {
        if registered {
            CallStep::SubmitTask
        } else {
            self.checked_step(streaming)
        }
    }

    /// The step that follows the check of the inputs.
    pub fn after_validation(&self, outcome: &ValidationOutcome, streaming: bool) -> (step: CallStep)
        ensures
            step@ == self@.validated_step(*outcome, streaming),
    {
        match outcome {
            ValidationOutcome::Checked(result) => {
                if result.valid {
                    self.dispatch_step(streaming)
                } else {
                    let detail = Self::format_validation_errors(&result.errors);
                    let message = "Validation failed: ".to_string().concat(detail.as_str());
                    CallStep::Done(make_text_outcome(message.as_str(), true, None))
                }
            },
            ValidationOutcome::Unsupported => self.dispatch_step(streaming),
            ValidationOutcome::Panicked => CallStep::Done(
                make_text_outcome("Validation failed: validator panicked", true, None),
            ),
        }
    }

    fn succeeded(
        &self,
        tool_name: &str,
        result: &Json,
        trace: Option<Json>,
        context: Option<&Json>,
        custom: Option<&str>,
    ) -> (outcome: CallOutcome)
        ensures
            outcome@ == self@.succeeded(
                tool_name@,
                result@,
                json::opt_view(trace),
                json::ref_view(context),
                text::ref_view(custom),
            ),
    {
        let redacted = self.redact_output(tool_name, result);
        let shown = self.format_result(&redacted, custom);
        let trace_id = match json::text_of(json::member(context, "trace_id")) {
            Some(id) => Some(id.to_string()),
            None => None,
        };
        let mut outcome = make_text_outcome(shown.as_str(), false, trace_id);
        let ghost content = outcome@.content;
        if let Some(data) = trace {
            outcome.content.push(ContentItem { content_type: "trace".to_string(), data });
            assert(content_views(outcome.content@) =~= content.push(
                ContentView { content_type: "trace"@, data: data@ },
            ));
            assert(outcome@.content =~= seq![
                text_item(shown@),
                ContentView { content_type: "trace"@, data: data@ },
            ]);
        }
        outcome
    }

    /// What a call of `tool_name` gives, given what came of it.
    pub fn render_call_outcome(
        &self,
        tool_name: &str,
        outcome: Result<(Json, Option<Json>), ExecutorError>,
        context: Option<&Json>,
        custom: Option<&str>,
    ) -> (r: CallOutcome)
        ensures
            r@ == (match outcome {
                Ok((result, trace)) => self@.succeeded(
                    tool_name@,
                    result@,
                    json::opt_view(trace),
                    json::ref_view(context),
                    text::ref_view(custom),
                ),
                Err(error) => failed(error),
            }),
    {
        match outcome {
            Ok((result, trace)) => self.succeeded(tool_name, &result, trace, context, custom),
            Err(error) => make_text_outcome(Self::build_error_text(&error).as_str(), true, None),
        }
    }

    /// The step that follows what came of a call of `tool_name`, given what the host's own
    /// formatter made of the redacted result.
    pub fn handle_call_async_with_hint(
        &self,
        tool_name: &str,
        context: Option<&Json>,
        event: CallEvent,
        custom: Option<&str>,
    ) -> (step: CallStep)
        ensures
            step@ == self@.call_step(
                tool_name@,
                json::ref_view(context),
                event,
                text::ref_view(custom),
            ),
    {
        if !self.executor {
            return CallStep::Done(make_text_outcome("No executor configured", true, None));
        }
        match event {
            CallEvent::Begin { typed } => {
                if typed {
                    CallStep::CallTyped
                } else {
                    self.untyped_step()
                }
            },
            CallEvent::TypedDeclined => self.untyped_step(),
            CallEvent::TypedPanicked => Self::panicked_step(tool_name),
            CallEvent::TypedReturned { result, trace } => CallStep::Done(
                self.render_call_outcome(tool_name, Ok((result, trace)), context, custom),
            ),
            CallEvent::TypedFailed(error) => CallStep::Done(
                self.render_call_outcome(tool_name, Err(error), context, custom),
            ),
            CallEvent::TraceDeclined => CallStep::CallPlain,
            CallEvent::TraceReturned { result, pipeline } => CallStep::Done(
                self.render_call_outcome(tool_name, Ok((result, Some(pipeline))), context, custom),
            ),
            CallEvent::TraceFailed(error) => CallStep::Done(
                self.render_call_outcome(tool_name, Err(error), context, custom),
            ),
            CallEvent::PlainPanicked => Self::panicked_step(tool_name),
            CallEvent::PlainReturned(result) => CallStep::Done(
                self.render_call_outcome(tool_name, Ok((result, None)), context, custom),
            ),
            CallEvent::PlainFailed(error) => CallStep::Done(
                self.render_call_outcome(tool_name, Err(error), context, custom),
            ),
        }
    }

    fn untyped_step(&self) -> (step: CallStep)
        ensures
            step@ == self@.untyped_step(),
    {
        if self.trace {
            CallStep::CallTraced
        } else {
            CallStep::CallPlain
        }
    }

    fn panicked_step(tool_name: &str) -> (step: CallStep)
        ensures
            step@ == StepView::Done(panicked(tool_name@)),
    {
        let message = "Internal error: executor panicked while invoking ".to_string().concat(
            tool_name,
        );
        CallStep::Done(make_text_outcome(message.as_str(), true, None))
    }
}

/// What a stream has given so far.
#[derive(Debug)]
pub struct StreamState {
    /// The chunks merged, one over another.
    pub accumulated: Json,
    /// The number of chunks.
    pub chunks: u64,
}

/// What a stream gives next.
#[derive(Debug)]
pub enum StreamEvent {
    /// A chunk.
    Chunk(Json),
    /// The stream failed.
    Failed(ExecutorError),
    /// The stream ended.
    Ended,
}

/// What is to be done next with a stream.
#[derive(Debug)]
pub enum StreamStep {
    /// Send the notification, and go on.
    Next { state: StreamState, notification: Json },
    /// Give this.
    Done(CallOutcome),
}

/// The mathematical counterpart of [`StreamStep`].
pub enum StreamView {
    Next { accumulated: JsonView, chunks: int, notification: JsonView },
    Done(OutcomeView),
}

impl View for StreamStep {
    type V = StreamView;

    open spec fn view(&self) -> StreamView {
        match self {
            StreamStep::Next { state, notification } => StreamView::Next {
                accumulated: state.accumulated@,
                chunks: state.chunks as int,
                notification: notification@,
            },
            StreamStep::Done(outcome) => StreamView::Done(outcome@),
        }
    }
}

/// The notification of the `n`th chunk, which `shown` is the redacted form of.
pub open spec fn chunk_view(token: TokenKind, n: int, shown: JsonView) -> JsonView {
    JsonView::object().with("method"@, JsonView::text("notifications/progress"@)).with(
        "params"@,
        JsonView::object().with("progressToken"@, token_json(token)).with(
            "progress"@,
            JsonView::integer(n),
        ).with("total"@, JsonView::Null).with(
            "message"@,
            JsonView::text(value::text_or(shown, ""@)),
        ),
    )
}

impl RouterView {
    /// The step that follows what the stream of `tool` gave. A chunk is told in its redacted form
    /// and merged as it came; the end gives what was merged, redacted.
    pub open spec fn stream_step(
        self,
        tool: Seq<char>,
        token: TokenKind,
        context: Option<JsonView>,
        state: StreamState,
        event: StreamEvent,
        custom: Option<Seq<char>>,
    ) -> StreamView {
        match event {
            StreamEvent::Chunk(chunk) => StreamView::Next {
                accumulated: merge::merged(state.accumulated@, chunk@, 0),
                chunks: state.chunks + 1,
                notification: chunk_view(
                    token,
                    state.chunks + 1,
                    self.redacted_output(tool, chunk@),
                ),
            },
            StreamEvent::Failed(error) => StreamView::Done(failed(error)),
            StreamEvent::Ended => StreamView::Done(
                self.succeeded(tool, state.accumulated@, None, context, custom),
            ),
        }
    }
}

/// An error of a meta-tool as clients see it.
#[derive(Debug)]
pub struct MetaToolError {
    /// The error in the protocol's form.
    pub mapped: Json,
    /// The error's own message.
    pub message: String,
}

/// What a call of a meta-tool gives.
pub open spec fn meta_outcome(
    result: Result<Json, MetaToolError>,
    trace_id: Seq<char>,
) -> OutcomeView {
    match result {
        Ok(value) => text_outcome(value::text_or(value@, "null"@), false, Some(trace_id)),
        Err(error) => text_outcome(
            value::text_or(error.mapped@, error.message@),
            true,
            Some(trace_id),
        ),
    }
}

/// Whether a document is that of an `apcore::Identity`.
pub open spec fn is_identity(document: JsonView) -> bool {
    identity_in(document) is Some
}

/// `serde_json::from_value` for an `apcore::Identity`: whether it succeeds depends on the document
/// alone.
#[verifier::external_body]
fn reads_identity(document: serde_json::Value) -> (r: bool)
    ensures
        r == (identity_in(value::value_json(document)) is Some),
{
    serde_json::from_value::<apcore::Identity>(document).is_ok()
}

/// Who makes a call: whom authentication established for it, or else whom its message names, where
/// that is an identity, or else whom authentication established for the surroundings.
pub open spec fn resolved_identity(
    typed: Option<JsonView>,
    given: Option<JsonView>,
    ambient: Option<JsonView>,
) -> Option<JsonView> {
    match typed {
        Some(identity) => Some(identity),
        None => match given {
            Some(document) => if is_identity(document) {
                Some(document)
            } else {
                ambient
            },
            None => ambient,
        },
    }
}

/// The context of a call as a document: who calls, and the trace that it belongs to.
pub open spec fn context_view(identity: Option<JsonView>, trace_id: Seq<char>) -> JsonView {
    JsonView::object().with_opt("identity"@, identity).with(
        "trace_id"@,
        JsonView::text(trace_id),
    )
}

/// The keys under which modules find what a call offers them.
#[derive(Debug)]
pub struct ContextKeys {
    /// That progress can be reported.
    pub progress: String,
    /// That the client can be asked.
    pub elicit: String,
    /// The id of the callback that asks the client.
    pub elicit_call_id: String,
}

/// What a call offers modules, by key.
pub open spec fn offered_view(
    keys: ContextKeys,
    streaming: bool,
    session: bool,
    callback: Option<Seq<char>>,
) -> Entries {
    let none = json::no_entries();
    let with_progress = if streaming {
        json::put(none, keys.progress@, JsonView::text("available"@))
    } else {
        none
    };
    let with_elicit = if session {
        json::put(with_progress, keys.elicit@, JsonView::text("available"@))
    } else {
        with_progress
    };
    match callback {
        Some(id) => json::put(with_elicit, keys.elicit_call_id@, JsonView::text(id)),
        None => with_elicit,
    }
}

/// The context of a call.
#[derive(Debug)]
pub struct BuiltContext {
    /// The context that modules are called with.
    pub typed: apcore::Context<serde_json::Value>,
    /// The trace that the call belongs to.
    pub trace_id: String,
    /// The context as a document.
    pub context: Json,
    /// Stands for the callback that asks the client; to be released when the call ends.
    pub guard: Option<ElicitGuard>,
}

/// The id that a guard stands for.
pub open spec fn guard_id(guard: Option<ElicitGuard>) -> Option<Seq<char>> {
    match guard {
        Some(g) => Some(g@),
        None => None,
    }
}

/// The caller that the document of a context names: as the call's message has them, or else as they
/// were resolved.
pub open spec fn named_identity<S>(extra: CallExtra<S>, resolved: Option<JsonView>) -> Option<
    JsonView,
> {
    match extra.identity {
        Some(document) => Some(document@),
        None => resolved,
    }
}

/// The caller of a call with `extra`, given whom authentication established for the surroundings.
pub open spec fn caller_of<S>(extra: CallExtra<S>, ambient: Option<JsonView>) -> Option<JsonView> {
    resolved_identity(
        json::opt_view(extra.typed_identity),
        json::opt_view(extra.identity),
        ambient,
    )
}

/// `built` is a context for a call with `extra`, which has the caller of the call, holds what the
/// call offers and the token that cancels it, and belongs to the trace that it names; `traced` tells
/// whether the call comes from somewhere.
pub open spec fn context_for<S>(
    built: BuiltContext,
    extra: CallExtra<S>,
    ambient: Option<JsonView>,
    traced: bool,
    cancel_token: Option<apcore::CancelToken>,
    keys: ContextKeys,
) -> bool {
    &&& built.trace_id@ == trace_id_of(built.typed)
    &&& built.trace_id@.len() == 32
    &&& ids::hex_text(built.trace_id@)
    &&& identity_of(built.typed) == (match caller_of(extra, ambient) {
        Some(document) => identity_in(document),
        None => None,
    })
    &&& built.context@ == context_view(
        named_identity(extra, caller_of(extra, ambient)),
        built.trace_id@,
    )
    &&& seeded_with(
        built.typed,
        JsonView::Object(
            offered_view(keys, streams(extra), extra.session is Some, guard_id(built.guard)),
        ),
        traced,
    )
    &&& cancel_token_of(built.typed) == cancel_token
}

/// The callbacks after a call with `extra` was given a context: exactly where the call came over a
/// session, the callback that `make_callback` makes for the session is among them, under the id that
/// the context offers.
pub open spec fn callback_registered<S, C, F: Fn(&S) -> C>(
    built: BuiltContext,
    extra: CallExtra<S>,
    make_callback: F,
    before: Map<Seq<char>, C>,
    after: Map<Seq<char>, C>,
) -> bool {
    match (built.guard, extra.session) {
        (Some(guard), Some(session)) => exists|callback: C| #[trigger]
            call_ensures(make_callback, (&session,), callback) && after == before.insert(
                guard@,
                callback,
            ),
        (None, None) => after == before,
        _ => false,
    }
}

/// A report of progress to the client.
pub open spec fn report_view(
    token: TokenKind,
    progress: JsonView,
    total: Option<JsonView>,
    message: Option<Seq<char>>,
) -> JsonView {
    let params = JsonView::object().with("progressToken"@, token_json(token)).with(
        "progress"@,
        progress,
    ).with(
        "total"@,
        match total {
            Some(n) => n,
            None => JsonView::integer(0),
        },
    ).with_opt("message"@, types::text_opt_view(message));
    JsonView::object().with("method"@, JsonView::text("notifications/progress"@)).with(
        "params"@,
        params,
    )
}

impl ExecutionRouter {
    /// A stream that has given nothing yet.
    pub fn begin_stream() -> (state: StreamState)
        ensures
            state.accumulated@ == JsonView::object(),
            state.chunks == 0,
    {
        StreamState { accumulated: Json::object(), chunks: 0 }
    }

    /// The step that follows what the stream of `tool_name` gave, given what the host's own
    /// formatter made of the redacted result at its end.
    pub fn handle_stream(
        &self,
        tool_name: &str,
        progress_token: &ProgressToken,
        context: Option<&Json>,
        state: StreamState,
        event: StreamEvent,
        custom: Option<&str>,
    ) -> (step: StreamStep)
        requires
            state.chunks < u64::MAX,
        ensures
            step@ == self@.stream_step(
                tool_name@,
                progress_token@,
                json::ref_view(context),
                state,
                event,
                text::ref_view(custom),
            ),
    {
        match event {
            StreamEvent::Chunk(chunk) => {
                let shown = self.redact_output(tool_name, &chunk);
                let n: u64 = state.chunks + 1;
                let notification = Json::object().with(
                    "method",
                    Json::text("notifications/progress"),
                ).with(
                    "params",
                    Json::object().with(
                        "progressToken",
                        progress_token_to_value(progress_token),
                    ).with("progress", Json::unsigned(n)).with("total", Json::Null).with(
                        "message",
                        Json::text(value::to_text_or(&shown, "").as_str()),
                    ),
                );
                let accumulated = merge::deep_merge(&state.accumulated, &chunk, 0);
                StreamStep::Next { state: StreamState { accumulated, chunks: n }, notification }
            },
            StreamEvent::Failed(error) => StreamStep::Done(
                make_text_outcome(Self::build_error_text(&error).as_str(), true, None),
            ),
            StreamEvent::Ended => StreamStep::Done(
                self.succeeded(tool_name, &state.accumulated, None, context, custom),
            ),
        }
    }

    /// What a call of a meta-tool gives.
    pub fn meta_tool_response(result: &Result<Json, MetaToolError>, trace_id: &str) -> (outcome:
        CallOutcome)
        ensures
            outcome@ == meta_outcome(*result, trace_id@),
    {
        match result {
            Ok(value) => make_text_outcome(
                value::to_text_or(value, "null").as_str(),
                false,
                Some(trace_id.to_string()),
            ),
            Err(error) => make_text_outcome(
                value::to_text_or(&error.mapped, error.message.as_str()).as_str(),
                true,
                Some(trace_id.to_string()),
            ),
        }
    }

    /// The message of the error that the bridge for approvals reports.
    pub fn approval_error(reply: &Json) -> (message: String)
        ensures
            message@ == (match json::text_in(reply@.get("error"@)) {
                Some(s) => s,
                None => "approval check failed"@,
            }),
    {
        match json::text_of(reply.get("error")) {
            Some(s) => s.to_string(),
            None => "approval check failed".to_string(),
        }
    }

    /// Who makes a call, given whom authentication established for the surroundings.
    pub fn resolve_identity<S>(extra: &CallExtra<S>, ambient: Option<&Json>) -> (r: Option<Json>)
        ensures
            json::opt_view(r) == resolved_identity(
                json::opt_view(extra.typed_identity),
                json::opt_view(extra.identity),
                json::ref_view(ambient),
            ),
    {
        if let Some(identity) = &extra.typed_identity {
            return Some(identity.clone());
        }
        if let Some(document) = &extra.identity {
            if reads_identity(value::to_value(document)) {
                return Some(document.clone());
            }
        }
        types::copy_ref(ambient)
    }

    /// The context of a call that begins a trace of its own, given whom authentication established
    /// for the surroundings. Where the call came over a session, the callback that `make_callback`
    /// makes for it is registered, which asks the client.
    pub fn build_context<S, C, F: Fn(&S) -> C>(
        extra: &CallExtra<S>,
        ambient: Option<&Json>,
        keys: &ContextKeys,
        callbacks: &mut ElicitRegistry<C>,
        make_callback: F,
    ) -> (built: BuiltContext)
        requires
            extra.session matches Some(session) ==> call_requires(make_callback, (&session,)),
        ensures
            context_for(built, *extra, json::ref_view(ambient), false, None, *keys),
            callback_registered(built, *extra, make_callback, old(callbacks)@, final(callbacks)@),
    {
        Self::build_context_with_trace(extra, ambient, None, None, keys, callbacks, make_callback)
    }

    /// The context of a call that comes from `parent` and that `cancel_token` cancels: it goes on
    /// with the parent's trace where that can be gone on with.
    pub fn build_context_with_trace<S, C, F: Fn(&S) -> C>(
        extra: &CallExtra<S>,
        ambient: Option<&Json>,
        parent: Option<&TraceParent>,
        cancel_token: Option<apcore::CancelToken>,
        keys: &ContextKeys,
        callbacks: &mut ElicitRegistry<C>,
        make_callback: F,
    ) -> (built: BuiltContext)
        requires
            extra.session matches Some(session) ==> call_requires(make_callback, (&session,)),
        ensures
            context_for(
                built,
                *extra,
                json::ref_view(ambient),
                parent is Some,
                cancel_token,
                *keys,
            ),
            callback_registered(built, *extra, make_callback, old(callbacks)@, final(callbacks)@),
            parent matches Some(p) ==> inheritable(p.trace_id@) ==> built.trace_id@
                == p.trace_id@,
    {
        let identity = Self::resolve_identity(extra, ambient);
        let caller = match &identity {
            Some(document) => Some(value::to_value(document)),
            None => None,
        };
        let guard = match &extra.session {
            Some(session) => {
                let callback = make_callback(session);
                Some(callbacks.register(callback))
            },
            None => None,
        };
        let id = match &guard {
            Some(g) => Some(g.id()),
            None => None,
        };
        let offered = Json::Object(Self::offered(extra, keys, id));
        let (typed, trace_id) = new_context(
            caller,
            parent,
            value::to_value(&offered),
            cancel_token,
        );
        let resolved = match &identity {
            Some(document) => Some(document),
            None => None,
        };
        let context = Self::describe_context(extra, resolved, trace_id.as_str());
        BuiltContext { typed, trace_id, context, guard }
    }

    /// What a call offers modules, given the id of the callback that asks its client.
    pub fn offered<S>(
        extra: &CallExtra<S>,
        keys: &ContextKeys,
        callback: Option<&str>,
    ) -> (offered: JsonObject)
        ensures
            offered@ == offered_view(
                *keys,
                streams(*extra),
                extra.session is Some,
                text::ref_view(callback),
            ),
    {
        let mut offered = JsonObject::new();
        if extra.progress_token.is_some() && extra.send_notification {
            offered.insert(keys.progress.as_str(), Json::text("available"));
        }
        if extra.session.is_some() {
            offered.insert(keys.elicit.as_str(), Json::text("available"));
        }
        if let Some(id) = callback {
            offered.insert(keys.elicit_call_id.as_str(), Json::text(id));
        }
        offered
    }

    /// The context of a call as a document, given who makes it and the trace that it belongs to.
    pub fn describe_context<S>(
        extra: &CallExtra<S>,
        identity: Option<&Json>,
        trace_id: &str,
    ) -> (context: Json)
        ensures
            context@ == context_view(named_identity(*extra, json::ref_view(identity)), trace_id@),
    {
        let named = match &extra.identity {
            Some(document) => Some(document.clone()),
            None => types::copy_ref(identity),
        };
        Json::object().with_opt("identity", named).with("trace_id", Json::text(trace_id))
    }

    /// A report of progress to the client. `progress` and `total` are numbers, or null where they are
    /// none.
    pub fn report_progress(
        token: &ProgressToken,
        progress: Json,
        total: Option<Json>,
        message: Option<&str>,
    ) -> (notification: Json)
        ensures
            notification@ == report_view(
                token@,
                progress@,
                json::opt_view(total),
                text::ref_view(message),
            ),
    {
        let total = match total {
            Some(n) => n,
            None => Json::unsigned(0),
        };
        let params = Json::object().with("progressToken", progress_token_to_value(token)).with(
            "progress",
            progress,
        ).with("total", total).with_opt("message", types::text_opt_json(message));
        Json::object().with("method", Json::text("notifications/progress")).with("params", params)
    }

    /// The schema of the form that a client is asked to fill in: the one that is given, or else one
    /// that asks for nothing.
    pub fn requested_schema(schema: Option<Json>) -> (r: Json)
        ensures
            r@ == (match schema {
                Some(s) => s@,
                None => JsonView::object(),
            }),
    {
        match schema {
            Some(s) => s,
            None => Json::object(),
        }
    }
}

/// What a stream of `chunks` amounts to: each merged over those before it.
pub open spec fn stream_total(chunks: Seq<JsonView>) -> JsonView
    decreases chunks.len(),
{
    if chunks.len() == 0 {
        JsonView::object()
    } else {
        merge::merged(stream_total(chunks.drop_last()), chunks.last(), 0)
    }
}

/// However many chunks a stream has, what is kept of them is each merged over those before it, and
/// the end gives what a call with that result gives.
pub proof fn law_streams_accumulate(
    router: RouterView,
    tool: Seq<char>,
    token: TokenKind,
    context: Option<JsonView>,
    chunks: Seq<JsonView>,
    state: StreamState,
    chunk: Json,
    custom: Option<Seq<char>>,
)
    requires
        state.accumulated@ == stream_total(chunks),
        state.chunks == chunks.len(),
    ensures
        router.stream_step(tool, token, context, state, StreamEvent::Chunk(chunk), custom) matches
            StreamView::Next { accumulated, chunks: n, .. } && accumulated == stream_total(
            chunks.push(chunk@),
        ) && n == chunks.push(chunk@).len(),
        router.stream_step(tool, token, context, state, StreamEvent::Ended, custom)
            == StreamView::Done(
            router.succeeded(tool, stream_total(chunks), None, context, custom),
        ),
{
    assert(chunks.push(chunk@).drop_last() =~= chunks);
}

/// A stream of one chunk gives what a call with that result gives.
pub proof fn law_stream_of_one(
    router: RouterView,
    tool: Seq<char>,
    chunk: JsonView,
    context: Option<JsonView>,
    custom: Option<Seq<char>>,
)
    requires
        chunk matches JsonView::Object(entries) ==> json::unique_keys(entries),
    ensures
        router.succeeded(tool, stream_total(seq![chunk]), None, context, custom)
            == router.succeeded(tool, chunk, None, context, custom),
{
    assert(seq![chunk].drop_last() =~= Seq::<JsonView>::empty());
    reveal_with_fuel(stream_total, 2);
    if let JsonView::Object(entries) = chunk {
        merge::law_merge_over_nothing(entries, 0);
    }
}

/// What is shown of a result depends on its redacted form alone: two results that are redacted alike
/// are shown alike.
pub proof fn law_results_are_shown_redacted(
    router: RouterView,
    tool: Seq<char>,
    result: JsonView,
    other: JsonView,
    trace: Option<JsonView>,
    context: Option<JsonView>,
    custom: Option<Seq<char>>,
)
    requires
        router.redacted_output(tool, result) == router.redacted_output(tool, other),
    ensures
        router.succeeded(tool, result, trace, context, custom) == router.succeeded(
            tool,
            other,
            trace,
            context,
            custom,
        ),
{
}

/// What is told of a chunk while it streams depends on its redacted form alone, not on what was
/// merged before: two chunks that are redacted alike are told alike.
pub proof fn law_chunks_are_told_redacted(
    router: RouterView,
    tool: Seq<char>,
    token: TokenKind,
    state: StreamState,
    other_state: StreamState,
    chunk: Json,
    other: Json,
)
    requires
        state.chunks == other_state.chunks,
        router.redacted_output(tool, chunk@) == router.redacted_output(tool, other@),
    ensures
        router.stream_step(tool, token, None, state, StreamEvent::Chunk(chunk), None)->notification
            == router.stream_step(
            tool,
            token,
            None,
            other_state,
            StreamEvent::Chunk(other),
            None,
        )->notification,
{
}

proof fn lemma_hex_has_no_hyphens(s: Seq<char>)
    requires
        ids::hex_text(s),
    ensures
        text::unhyphenated(s) == s,
    decreases s.len(),
{
    if s.len() > 0 {
        let rest = s.drop_last();
        assert forall|i: int| 0 <= i < rest.len() implies ids::hex_digit(#[trigger] rest[i]) by {
            assert(rest[i] == s[i]);
        }
        lemma_hex_has_no_hyphens(rest);
        assert(ids::hex_digit(s.last()));
        assert(rest.push(s.last()) =~= s);
    }
}

/// A canonical header is in small letters and has no white space around it.
proof fn lemma_canonical_is_kept(header: Seq<char>)
    requires
        canonical_header(header),
    ensures
        text::lower(text::trimmed(header)) == header,
{
    assert(header.subrange(0, 2)[0] == header[0]);
    assert(header.subrange(53, 55)[1] == header[54]);
    assert(text::trimmed(header) == header);
    assert forall|i: int| 0 <= i < header.len() implies text::lower_char(#[trigger] header[i])
        == header[i] by {
        if i < 2 {
            assert(header.subrange(0, 2)[i] == header[i]);
        } else if 3 <= i < 35 {
            assert(header.subrange(3, 35)[i - 3] == header[i]);
        } else if 36 <= i < 52 {
            assert(header.subrange(36, 52)[i - 36] == header[i]);
        } else if 53 <= i {
            assert(header.subrange(53, 55)[i - 53] == header[i]);
        }
    }
    assert(text::lower(header) =~= header);
}

/// A call that names its origin goes on with the origin's trace, and the header that passes the
/// trace on names the same trace, unless the trace's id is all `f` or the span in the header is
/// zero.
pub proof fn law_traces_are_gone_on_with(inbound: Seq<char>, outbound: Seq<char>)
    requires
        traceparent(inbound) is Some,
        exists|i: int|
            0 <= i < 32 && #[trigger] traceparent(inbound).unwrap().trace_id[i] != 'f',
        outbound_header(outbound, traceparent(inbound).unwrap().trace_id),
        !all_zero(outbound.subrange(36, 52)),
    ensures
        inheritable(traceparent(inbound).unwrap().trace_id),
        traceparent(outbound) matches Some(origin) && origin.trace_id == traceparent(
            inbound,
        ).unwrap().trace_id,
{
    let trace_id = traceparent(inbound).unwrap().trace_id;
    lemma_hex_has_no_hyphens(trace_id);
    assert(outbound.take(3)[0] == outbound[0]);
    assert(outbound.take(3)[1] == outbound[1]);
    assert(outbound.take(3)[2] == outbound[2]);
    assert forall|i: int| 0 <= i < 2 implies ids::hex_digit(#[trigger] outbound.subrange(0, 2)[i]) by {
        assert(outbound.subrange(0, 2)[i] == outbound[i]);
    }
    assert(canonical_header(outbound));
    lemma_canonical_is_kept(outbound);
}

/// The context of a call says what the call offers: that progress can be reported exactly where there
/// is a token and a way to send, that the client can be asked exactly where there is a session, and
/// then under which id the callback that asks it is registered. Its keys have to differ, also from
/// the one that the flags of an origin are kept under.
pub proof fn law_contexts_say_what_is_offered<S>(
    built: BuiltContext,
    extra: CallExtra<S>,
    ambient: Option<JsonView>,
    traced: bool,
    cancel_token: Option<apcore::CancelToken>,
    keys: ContextKeys,
)
    requires
        context_for(built, extra, ambient, traced, cancel_token, keys),
        built.guard is Some <==> extra.session is Some,
        keys.progress@ != keys.elicit@,
        keys.progress@ != keys.elicit_call_id@,
        keys.elicit@ != keys.elicit_call_id@,
        keys.progress@ != TRACE_FLAGS_KEY@,
        keys.elicit@ != TRACE_FLAGS_KEY@,
        keys.elicit_call_id@ != TRACE_FLAGS_KEY@,
    ensures
        seeded(built.typed, keys.progress@) == (if streams(extra) {
            Some(JsonView::text("available"@))
        } else {
            None
        }),
        seeded(built.typed, keys.elicit@) == (if extra.session is Some {
            Some(JsonView::text("available"@))
        } else {
            None
        }),
        seeded(built.typed, keys.elicit_call_id@) == (match built.guard {
            Some(guard) => Some(JsonView::text(guard@)),
            None => None,
        }),
        context_trace(Some(built.context@)) == Some(trace_id_of(built.typed)),
{
    broadcast use {json::group_lookup, json::lemma_get_with};

    let offered = offered_view(keys, streams(extra), extra.session is Some, guard_id(built.guard));
    assert(JsonView::Object(offered).get(keys.progress@) == json::lookup(offered, keys.progress@));
    assert(seeded(built.typed, keys.progress@) == JsonView::Object(offered).get(keys.progress@));
    assert(seeded(built.typed, keys.elicit@) == JsonView::Object(offered).get(keys.elicit@));
    assert(seeded(built.typed, keys.elicit_call_id@) == JsonView::Object(offered).get(
        keys.elicit_call_id@,
    ));
}

/// The meta-tools never reach the executor where their bridges are there.
pub proof fn law_meta_tools_stay_with_their_bridges(
    router: RouterView,
    tool: Seq<char>,
    streaming: bool,
)
    requires
        router.approval_bridge && tool == approval_bridge::APPROVAL_CHECK@ || router.async_bridge
            && async_task_bridge::task_meta_tool(tool),
    ensures
        router.first_step(tool, streaming) is ApprovalCheck || router.first_step(tool, streaming)
            is TaskMetaTool,
{
}

/// Inputs that were found not to be valid never reach the executor.
pub proof fn law_invalid_inputs_are_refused(
    router: RouterView,
    result: ValidationResult,
    streaming: bool,
)
    requires
        !result.valid,
    ensures
        router.validated_step(ValidationOutcome::Checked(result), streaming) matches StepView::Done(
            outcome,
        ) && outcome.is_error,
{
}

/// The outcome is a success whose first piece is this text, followed by this trace where there is
/// one, in the trace that the context names.
pub open spec fn shows(
    outcome: CallOutcome,
    shown: Seq<char>,
    trace: Option<Json>,
    context: Option<&Json>,
) -> bool {
    &&& !outcome.is_error
    &&& outcome.content@.len() == (if trace is Some {
        2int
    } else {
        1int
    })
    &&& outcome.content@[0].content_type@ == "text"@
    &&& outcome.content@[0].data@ == JsonView::String(shown)
    &&& trace matches Some(data) ==> outcome.content@[1].content_type@ == "trace"@
        && outcome.content@[1].data@ == data@
    &&& text::opt_view(outcome.trace_id) == (match context {
        Some(document) => match document@.get("trace_id"@) {
            Some(JsonView::String(id)) => Some(id),
            _ => None,
        },
        None => None,
    })
}

/// The outcome is an error whose only piece is this text.
pub open spec fn reports(outcome: CallOutcome, message: Seq<char>) -> bool {
    &&& outcome.is_error
    &&& outcome.content@.len() == 1
    &&& outcome.content@[0].content_type@ == "text"@
    &&& outcome.content@[0].data@ == JsonView::String(message)
    &&& outcome.trace_id is None
}

proof fn lemma_shows(
    outcome: CallOutcome,
    shown: Seq<char>,
    trace: Option<Json>,
    context: Option<&Json>,
)
    requires
        outcome@.content == (match trace {
            Some(t) => seq![
                ContentView { content_type: "text"@, data: JsonView::String(shown) },
                ContentView { content_type: "trace"@, data: t@ },
            ],
            None => seq![ContentView { content_type: "text"@, data: JsonView::String(shown) }],
        }),
        !outcome@.is_error,
        outcome@.trace_id == context_trace(json::ref_view(context)),
    ensures
        shows(outcome, shown, trace, context),
{
    let content = outcome@.content;
    assert(content.len() == outcome.content@.len());
    assert(content[0] == outcome.content@[0]@);
    if trace is Some {
        assert(content[1] == outcome.content@[1]@);
    }
}

proof fn lemma_reports(outcome: CallOutcome, message: Seq<char>)
    requires
        outcome@ == text_outcome(message, true, None),
    ensures
        reports(outcome, message),
{
    let content = outcome@.content;
    assert(content.len() == outcome.content@.len());
    assert(content[0] == outcome.content@[0]@);
    assert(outcome@.trace_id is None);
}

/// Whatever a module returns reaches the client: the first piece of content is the text of the
/// module's own result in its redacted form, and a trace that came with it follows. It makes no
/// difference whether the tool was called with the typed context, for a trace or plainly.
pub proof fn law_results_reach_the_client(
    router: &ExecutionRouter,
    tool: &str,
    context: Option<&Json>,
    custom: Option<&str>,
    result: Json,
    trace: Option<Json>,
    pipeline: Json,
    redacted: Json,
    shown: String,
    rendered: CallOutcome,
    typed: CallStep,
    traced: CallStep,
    plain: CallStep,
)
    requires
        router@.executor,
        call_ensures(ExecutionRouter::redact_output, (router, tool, &result), redacted),
        call_ensures(ExecutionRouter::format_result, (router, &redacted, custom), shown),
        call_ensures(
            ExecutionRouter::render_call_outcome,
            (
                router,
                tool,
                Ok::<(Json, Option<Json>), ExecutorError>((result, trace)),
                context,
                custom,
            ),
            rendered,
        ),
        call_ensures(
            ExecutionRouter::handle_call_async_with_hint,
            (router, tool, context, CallEvent::TypedReturned { result, trace }, custom),
            typed,
        ),
        call_ensures(
            ExecutionRouter::handle_call_async_with_hint,
            (router, tool, context, CallEvent::TraceReturned { result, pipeline }, custom),
            traced,
        ),
        call_ensures(
            ExecutionRouter::handle_call_async_with_hint,
            (router, tool, context, CallEvent::PlainReturned(result), custom),
            plain,
        ),
    ensures
        shows(rendered, shown@, trace, context),
        typed matches CallStep::Done(outcome) && shows(outcome, shown@, trace, context),
        traced matches CallStep::Done(outcome) && shows(outcome, shown@, Some(pipeline), context),
        plain matches CallStep::Done(outcome) && shows(outcome, shown@, None, context),
{
    lemma_shows(rendered, shown@, trace, context);
    if let CallStep::Done(outcome) = typed {
        lemma_shows(outcome, shown@, trace, context);
    }
    if let CallStep::Done(outcome) = traced {
        lemma_shows(outcome, shown@, Some(pipeline), context);
    }
    if let CallStep::Done(outcome) = plain {
        lemma_shows(outcome, shown@, None, context);
    }
}

/// A router that was made without a format of its own writes every result as JSON, whatever a host
/// would make of it.
pub proof fn law_plain_routers_write_json(
    validate_inputs: bool,
    router: ExecutionRouter,
    stub: ExecutionRouter,
    detached: ExecutionRouter,
    result: &Json,
    custom: Option<&str>,
    shown: String,
    shown_by_stub: String,
    shown_detached: String,
    wanted: bool,
    json: Option<String>,
)
    requires
        call_ensures(ExecutionRouter::new, (validate_inputs, false), router),
        call_ensures(ExecutionRouter::stub, (), stub),
        call_ensures(
            ExecutionRouter::new_with_formatter,
            (validate_inputs, false),
            detached,
        ),
        call_ensures(ExecutionRouter::format_result, (&router, result, custom), shown),
        call_ensures(ExecutionRouter::format_result, (&stub, result, custom), shown_by_stub),
        call_ensures(ExecutionRouter::format_result, (&detached, result, custom), shown_detached),
        call_ensures(ExecutionRouter::wants_custom_format, (&router, result), wanted),
        call_ensures(value::to_text, (result,), json),
    ensures
        json matches Some(s) && shown@ == s@ && shown_by_stub@ == s@ && shown_detached@ == s@,
        !wanted,
{
}

/// A router that was made with the host's own formatter asks the host to write exactly the objects,
/// and shows what the host made of them; everything else, and what the host makes nothing of, is
/// written as JSON.
pub proof fn law_hosts_write_objects(
    validate_inputs: bool,
    router: ExecutionRouter,
    detached: ExecutionRouter,
    result: &Json,
    custom: Option<&str>,
    shown: String,
    shown_detached: String,
    wanted: bool,
    json: Option<String>,
)
    requires
        call_ensures(ExecutionRouter::new, (validate_inputs, true), router),
        call_ensures(
            ExecutionRouter::new_with_formatter,
            (validate_inputs, true),
            detached,
        ),
        call_ensures(ExecutionRouter::format_result, (&router, result, custom), shown),
        call_ensures(ExecutionRouter::format_result, (&detached, result, custom), shown_detached),
        call_ensures(ExecutionRouter::wants_custom_format, (&router, result), wanted),
        call_ensures(value::to_text, (result,), json),
    ensures
        wanted == result@ is Object,
        match (custom, result@) {
            (Some(s), JsonView::Object(_)) => shown@ == s@,
            _ => json matches Some(s) && shown@ == s@,
        },
        shown_detached@ == shown@,
{
}

/// Where CSV or JSONL was asked for, an object is written as the one row that it is and an array as
/// its objects, in their order; what has no rows is written as JSON. The host is not asked.
pub proof fn law_asked_formats_are_written(
    before: ExecutionRouter,
    format: OutputFormat,
    router: ExecutionRouter,
    result: &Json,
    custom: Option<&str>,
    shown: String,
    wanted: bool,
    json: Option<String>,
)
    requires
        call_ensures(ExecutionRouter::with_output_format, (before, format), router),
        call_ensures(ExecutionRouter::format_result, (&router, result, custom), shown),
        call_ensures(ExecutionRouter::wants_custom_format, (&router, result), wanted),
        call_ensures(value::to_text, (result,), json),
        format != OutputFormat::Json,
    ensures
        !wanted,
        result@ matches JsonView::Object(row) ==> shown@ == (if format == OutputFormat::Csv {
            output::csv_text(seq![row], false)
        } else {
            output::jsonl_text(seq![row])
        }),
        result@ matches JsonView::Array(items) ==> ({
            let rows = items.filter(|item: JsonView| item is Object).map_values(
                |item: JsonView| item->Object_0,
            );
            if rows.len() == 0 {
                json matches Some(s) && shown@ == s@
            } else if format == OutputFormat::Csv {
                shown@ == output::csv_text(rows, false)
            } else {
                shown@ == output::jsonl_text(rows)
            }
        }),
        !(result@ is Object) && !(result@ is Array) ==> (json matches Some(s) && shown@ == s@),
{
    if let JsonView::Array(items) = result@ {
        output::lemma_rows_are_the_objects(items);
    }
}

/// Asking for JSON leaves a router that was just made as it is.
pub proof fn law_asking_for_json(
    validate_inputs: bool,
    custom_formatter: bool,
    before: ExecutionRouter,
    router: ExecutionRouter,
)
    requires
        call_ensures(ExecutionRouter::new, (validate_inputs, custom_formatter), before),
        call_ensures(
            ExecutionRouter::with_output_format,
            (before, OutputFormat::Json),
            router,
        ),
    ensures
        router@ == before@,
{
}

/// Results are redacted under the schema that was set for the tool, and under no other tool's,
/// unless redacting was turned off; inputs are redacted under the schema of the tool's inputs
/// either way.
pub proof fn law_schemas_redact(
    validate_inputs: bool,
    custom_formatter: bool,
    made: ExecutionRouter,
    inputs: JsonObject,
    outputs: JsonObject,
    with_inputs: ExecutionRouter,
    router: ExecutionRouter,
    open: ExecutionRouter,
    tool: &str,
    document: &Json,
    shown: Json,
    logged: Json,
    shown_openly: Json,
    logged_openly: Json,
)
    requires
        call_ensures(ExecutionRouter::new, (validate_inputs, custom_formatter), made),
        call_ensures(ExecutionRouter::with_tool_schemas, (made, inputs), with_inputs),
        call_ensures(ExecutionRouter::with_output_schemas, (with_inputs, outputs), router),
        call_ensures(ExecutionRouter::with_redact_output, (router, false), open),
        call_ensures(ExecutionRouter::redact_output, (&router, tool, document), shown),
        call_ensures(ExecutionRouter::redact_inputs, (&router, tool, document), logged),
        call_ensures(ExecutionRouter::redact_output, (&open, tool, document), shown_openly),
        call_ensures(ExecutionRouter::redact_inputs, (&open, tool, document), logged_openly),
    ensures
        shown@ == (match JsonView::Object(outputs@).get(tool@) {
            Some(schema) => output::redacted(document@, schema),
            None => document@,
        }),
        logged@ == (match JsonView::Object(inputs@).get(tool@) {
            Some(schema) => output::redacted(document@, schema),
            None => document@,
        }),
        shown_openly@ == document@,
        logged_openly@ == logged@,
{
}

/// Turning redacting on again has the results of a router redacted as before.
pub proof fn law_redacting_is_turned_on(
    before: ExecutionRouter,
    off: ExecutionRouter,
    on: ExecutionRouter,
    tool: &str,
    document: &Json,
    shown: Json,
)
    requires
        call_ensures(ExecutionRouter::with_redact_output, (before, false), off),
        call_ensures(ExecutionRouter::with_redact_output, (off, true), on),
        call_ensures(ExecutionRouter::redact_output, (&on, tool, document), shown),
    ensures
        shown@ == (match JsonView::Object(before@.output_schemas).get(tool@) {
            Some(schema) => output::redacted(document@, schema),
            None => document@,
        }),
{
}

/// Setting one thing of a router leaves everything else of it as it was.
pub proof fn law_settings_are_independent(
    before: ExecutionRouter,
    schemas: JsonObject,
    format: OutputFormat,
    flag: bool,
    formatted: ExecutionRouter,
    with_inputs: ExecutionRouter,
    with_outputs: ExecutionRouter,
    redacting: ExecutionRouter,
    tracing: ExecutionRouter,
    with_tasks: ExecutionRouter,
    with_approvals: ExecutionRouter,
)
    requires
        call_ensures(ExecutionRouter::with_output_format, (before, format), formatted),
        call_ensures(ExecutionRouter::with_tool_schemas, (before, schemas), with_inputs),
        call_ensures(ExecutionRouter::with_output_schemas, (before, schemas), with_outputs),
        call_ensures(ExecutionRouter::with_redact_output, (before, flag), redacting),
        call_ensures(ExecutionRouter::with_trace, (before, flag), tracing),
        call_ensures(ExecutionRouter::with_async_bridge, (before,), with_tasks),
        call_ensures(ExecutionRouter::with_approval_bridge, (before,), with_approvals),
    ensures
        formatted@ == (RouterView {
            output_format: format,
            formatter: formatted@.formatter,
            ..before@
        }),
        format == OutputFormat::Json ==> formatted@.formatter == before@.formatter,
        with_inputs@ == (RouterView { tool_schemas: schemas@, ..before@ }),
        with_outputs@ == (RouterView { output_schemas: schemas@, ..before@ }),
        redacting@ == (RouterView { redact_output: flag, ..before@ }),
        tracing@ == (RouterView { trace: flag, ..before@ }),
        with_tasks@ == (RouterView { async_bridge: true, ..before@ }),
        with_approvals@ == (RouterView { approval_bridge: true, ..before@ }),
{
}

/// A router that was just made has no bridges, no sessions and nothing to cancel, and traces no
/// calls; only one that was made with an executor calls tools.
pub proof fn law_fresh_routers(
    validate_inputs: bool,
    custom_formatter: bool,
    router: ExecutionRouter,
    detached: ExecutionRouter,
    stub: ExecutionRouter,
    bridged: bool,
    tool: &str,
    streaming: bool,
    first: CallStep,
    first_detached: CallStep,
    first_of_stub: CallStep,
)
    requires
        call_ensures(ExecutionRouter::new, (validate_inputs, custom_formatter), router),
        call_ensures(
            ExecutionRouter::new_with_formatter,
            (validate_inputs, custom_formatter),
            detached,
        ),
        call_ensures(ExecutionRouter::stub, (), stub),
        call_ensures(ExecutionRouter::async_bridge, (&router,), bridged),
        call_ensures(ExecutionRouter::first_step, (&router, tool, streaming), first),
        call_ensures(ExecutionRouter::first_step, (&detached, tool, streaming), first_detached),
        call_ensures(ExecutionRouter::first_step, (&stub, tool, streaming), first_of_stub),
    ensures
        !bridged,
        router@.executor,
        router@.sessions.len() == 0,
        router@.cancel_tokens.len() == 0,
        match first {
            CallStep::Validate => validate_inputs,
            CallStep::OpenStream => !validate_inputs && streaming,
            CallStep::CallTyped => !validate_inputs && !streaming,
            _ => false,
        },
        first_detached matches CallStep::Done(outcome) && reports(
            outcome,
            "No executor configured"@,
        ),
        first_of_stub matches CallStep::Done(outcome) && reports(
            outcome,
            "No executor configured"@,
        ),
{
    if let CallStep::Done(outcome) = first_detached {
        lemma_reports(outcome, "No executor configured"@);
    }
    if let CallStep::Done(outcome) = first_of_stub {
        lemma_reports(outcome, "No executor configured"@);
    }
}

/// A call that fails, in whichever way the tool was called, gives an error with the text of its own
/// error.
pub proof fn law_failures_reach_the_client(
    router: &ExecutionRouter,
    tool: &str,
    context: Option<&Json>,
    custom: Option<&str>,
    error: ExecutorError,
    message: String,
    rendered: CallOutcome,
    typed: CallStep,
    traced: CallStep,
    plain: CallStep,
)
    requires
        router@.executor,
        call_ensures(ExecutionRouter::build_error_text, (&error,), message),
        call_ensures(
            ExecutionRouter::render_call_outcome,
            (router, tool, Err::<(Json, Option<Json>), ExecutorError>(error), context, custom),
            rendered,
        ),
        call_ensures(
            ExecutionRouter::handle_call_async_with_hint,
            (router, tool, context, CallEvent::TypedFailed(error), custom),
            typed,
        ),
        call_ensures(
            ExecutionRouter::handle_call_async_with_hint,
            (router, tool, context, CallEvent::TraceFailed(error), custom),
            traced,
        ),
        call_ensures(
            ExecutionRouter::handle_call_async_with_hint,
            (router, tool, context, CallEvent::PlainFailed(error), custom),
            plain,
        ),
    ensures
        reports(rendered, message@),
        typed matches CallStep::Done(outcome) && reports(outcome, message@),
        traced matches CallStep::Done(outcome) && reports(outcome, message@),
        plain matches CallStep::Done(outcome) && reports(outcome, message@),
{
    lemma_reports(rendered, message@);
    if let CallStep::Done(outcome) = typed {
        lemma_reports(outcome, message@);
    }
    if let CallStep::Done(outcome) = traced {
        lemma_reports(outcome, message@);
    }
    if let CallStep::Done(outcome) = plain {
        lemma_reports(outcome, message@);
    }
}

/// A call that breaks off gives an error that names the tool; a router without an executor calls
/// nothing, whatever came of it.
pub proof fn law_broken_calls_are_reported(
    router: &ExecutionRouter,
    tool: &str,
    context: Option<&Json>,
    custom: Option<&str>,
    event: CallEvent,
    step: CallStep,
)
    requires
        call_ensures(
            ExecutionRouter::handle_call_async_with_hint,
            (router, tool, context, event, custom),
            step,
        ),
    ensures
        !router@.executor ==> (step matches CallStep::Done(outcome) && reports(
            outcome,
            "No executor configured"@,
        )),
        router@.executor && (event is TypedPanicked || event is PlainPanicked) ==> (
        step matches CallStep::Done(outcome) && reports(
            outcome,
            "Internal error: executor panicked while invoking "@ + tool@,
        )),
{
    if let CallStep::Done(outcome) = step {
        if !router@.executor {
            lemma_reports(outcome, "No executor configured"@);
        } else if event is TypedPanicked || event is PlainPanicked {
            lemma_reports(
                outcome,
                "Internal error: executor panicked while invoking "@ + tool@,
            );
        }
    }
}

/// A call begins with the typed context where there is one. Without one, or where the executor
/// takes none, the tool is called for a trace exactly where traces were asked for; where the
/// executor gives no traces, it is called plainly.
pub proof fn law_calls_go_from_way_to_way(
    before: ExecutionRouter,
    trace: bool,
    router: ExecutionRouter,
    tool: &str,
    context: Option<&Json>,
    custom: Option<&str>,
    typed: CallStep,
    untyped: CallStep,
    declined: CallStep,
    untraced: CallStep,
)
    requires
        before@.executor,
        call_ensures(ExecutionRouter::with_trace, (before, trace), router),
        call_ensures(
            ExecutionRouter::handle_call_async_with_hint,
            (&router, tool, context, CallEvent::Begin { typed: true }, custom),
            typed,
        ),
        call_ensures(
            ExecutionRouter::handle_call_async_with_hint,
            (&router, tool, context, CallEvent::Begin { typed: false }, custom),
            untyped,
        ),
        call_ensures(
            ExecutionRouter::handle_call_async_with_hint,
            (&router, tool, context, CallEvent::TypedDeclined, custom),
            declined,
        ),
        call_ensures(
            ExecutionRouter::handle_call_async_with_hint,
            (&router, tool, context, CallEvent::TraceDeclined, custom),
            untraced,
        ),
    ensures
        typed is CallTyped,
        trace ==> untyped is CallTraced && declined is CallTraced,
        !trace ==> untyped is CallPlain && declined is CallPlain,
        untraced is CallPlain,
{
}

/// A call of a bridge's own meta-tool goes to the bridge. With a bridge for tasks any other call
/// asks whether the tool runs in the background; one that does not, and every call without that
/// bridge, goes on as a call that comes with its own context does.
pub proof fn law_calls_find_their_way(
    router: &ExecutionRouter,
    tool: &str,
    streaming: bool,
    registered: bool,
    first: CallStep,
    after: CallStep,
    direct: CallStep,
    extra: &CallExtra<String>,
    approval_tool: bool,
    task_tool: bool,
    bridged: bool,
)
    requires
        call_ensures(ExecutionRouter::first_step, (router, tool, streaming), first),
        call_ensures(ExecutionRouter::after_async_answer, (router, registered, streaming), after),
        call_ensures(ExecutionRouter::handle_call_with_extra::<String>, (router, extra), direct),
        streaming == (extra.progress_token is Some && extra.send_notification),
        call_ensures(ApprovalBridge::is_meta_tool, (tool,), approval_tool),
        call_ensures(AsyncTaskBridge::is_meta_tool, (tool,), task_tool),
        call_ensures(ExecutionRouter::async_bridge, (router,), bridged),
    ensures
        router@.approval_bridge && approval_tool ==> first is ApprovalCheck,
        bridged && task_tool && !(router@.approval_bridge && approval_tool) ==> first
            is TaskMetaTool,
        bridged && !task_tool && !(router@.approval_bridge && approval_tool) ==> first is AskAsync,
        !bridged && !(router@.approval_bridge && approval_tool) ==> first@ == direct@,
        registered ==> after is SubmitTask,
        !registered ==> after@ == direct@,
{
}

/// Where inputs are to be checked, they are checked before anything is called, and what passes goes
/// on as a call does where nothing is checked.
pub proof fn law_inputs_are_checked_first(
    custom_formatter: bool,
    checking: ExecutionRouter,
    unchecked: ExecutionRouter,
    tool: &str,
    streaming: bool,
    first: CallStep,
    passed: CallStep,
    unsupported: CallStep,
    broken: CallStep,
    direct: CallStep,
    result: ValidationResult,
)
    requires
        call_ensures(ExecutionRouter::new, (true, custom_formatter), checking),
        call_ensures(ExecutionRouter::new, (false, custom_formatter), unchecked),
        result.valid,
        call_ensures(ExecutionRouter::first_step, (&checking, tool, streaming), first),
        call_ensures(ExecutionRouter::first_step, (&unchecked, tool, streaming), direct),
        call_ensures(
            ExecutionRouter::after_validation,
            (&checking, &ValidationOutcome::Checked(result), streaming),
            passed,
        ),
        call_ensures(
            ExecutionRouter::after_validation,
            (&checking, &ValidationOutcome::Unsupported, streaming),
            unsupported,
        ),
        call_ensures(
            ExecutionRouter::after_validation,
            (&checking, &ValidationOutcome::Panicked, streaming),
            broken,
        ),
    ensures
        first is Validate,
        if streaming {
            direct is OpenStream && passed is OpenStream && unsupported is OpenStream
        } else {
            direct is CallTyped && passed is CallTyped && unsupported is CallTyped
        },
        broken matches CallStep::Done(outcome) && reports(
            outcome,
            "Validation failed: validator panicked"@,
        ),
{
    if let CallStep::Done(outcome) = broken {
        lemma_reports(outcome, "Validation failed: validator panicked"@);
    }
}

/// Inputs that are not valid are refused with what is wrong with them.
pub proof fn law_invalid_inputs_are_explained(
    router: &ExecutionRouter,
    result: ValidationResult,
    streaming: bool,
    told: String,
    refused: CallStep,
)
    requires
        !result.valid,
        call_ensures(ExecutionRouter::format_validation_errors, (&result.errors,), told),
        call_ensures(
            ExecutionRouter::after_validation,
            (router, &ValidationOutcome::Checked(result), streaming),
            refused,
        ),
    ensures
        refused matches CallStep::Done(outcome) && reports(
            outcome,
            "Validation failed: "@ + told@,
        ),
{
    if let CallStep::Done(outcome) = refused {
        lemma_reports(outcome, "Validation failed: "@ + told@);
    }
}

/// The keys of the guidance that may come with an error.
pub open spec fn guides(key: Seq<char>) -> bool {
    ||| key == "retryable"@
    ||| key == "aiGuidance"@
    ||| key == "userFixable"@
    ||| key == "suggestion"@
}

/// The text of an error begins with its message. The guidance that the details of an error give
/// follows as one object, which has exactly that guidance; details without any add nothing.
pub proof fn law_errors_are_told_with_their_guidance(
    code: String,
    message: String,
    details: Option<Json>,
    told: String,
    reason: String,
    invalid: String,
    other: String,
)
    requires
        call_ensures(
            ExecutionRouter::build_error_text,
            (&ExecutorError::Execution { code, message, details },),
            told,
        ),
        call_ensures(
            ExecutionRouter::build_error_text,
            (&ExecutorError::Validation(reason),),
            invalid,
        ),
        call_ensures(ExecutionRouter::build_error_text, (&ExecutorError::Other(reason),), other),
    ensures
        other@ == reason@,
        invalid@ == "Validation failed: "@ + reason@,
        details is None ==> told@ == message@,
        details matches Some(d) ==> (forall|key: Seq<char>|
            guides(key) ==> #[trigger] d@.get(key) is None) ==> told@ == message@,
        details matches Some(d) ==> (exists|key: Seq<char>|
            guides(key) && #[trigger] d@.get(key) is Some) ==> exists|guide: JsonView|
            told@ == message@ + "\n\n"@ + #[trigger] value::text_or(guide, ""@) && forall|
                key: Seq<char>,
            | #[trigger]
                guide.get(key) == (if guides(key) {
                    d@.get(key)
                } else {
                    None
                }),
{
    broadcast use json::group_members;

    reveal_strlit("retryable");
    reveal_strlit("aiGuidance");
    reveal_strlit("userFixable");
    reveal_strlit("suggestion");
    assert("retryable"@.len() == 9);
    assert("aiGuidance"@.len() == 10);
    assert("userFixable"@.len() == 11);
    assert("suggestion"@.len() == 10);
    assert("aiGuidance"@[0] != "suggestion"@[0]);
    if let Some(d) = details {
        let guide = guidance(d@);
        assert(forall|key: Seq<char>| #[trigger]
            guide.get(key) == (if guides(key) {
                d@.get(key)
            } else {
                None
            }));
        let entries = guide->Object_0;
        if exists|key: Seq<char>| guides(key) && #[trigger] d@.get(key) is Some {
            let key = choose|key: Seq<char>| guides(key) && #[trigger] d@.get(key) is Some;
            assert(guide.get(key) is Some);
            let p = json::position(entries, key);
            assert(json::first_at(entries, key, p));
            assert(entries.len() > 0);
            assert(told@ == message@ + "\n\n"@ + value::text_or(guide, ""@));
        } else {
            if entries.len() > 0 {
                json::lemma_key_at(entries, entries[0].0, 0);
                assert(guide.get(entries[0].0) is Some);
            }
        }
    }
}

/// An error describes itself by its own message.
pub proof fn law_errors_describe_themselves(error: &ExecutorError, message: String)
    requires
        call_ensures(ExecutorError::describe, (error,), message),
    ensures
        match error {
            ExecutorError::Execution { code: _, message: own, details: _ } => message@ == own@,
            ExecutorError::Validation(reason) => message@ == "validation failed: "@ + reason@,
            ExecutorError::Other(reason) => message@ == reason@,
        },
{
}

/// What is wrong with inputs is told error by error: each by its field and its message, or by its
/// message alone where it concerns no field; where something is wrong inside the field, that is
/// told instead.
pub proof fn law_errors_in_inputs_are_told(
    errors: &Vec<ValidationError>,
    rest: &Vec<ValidationError>,
    told: String,
    told_rest: String,
    last: String,
    only: &Vec<ValidationError>,
)
    requires
        errors@.len() > 1,
        rest@ == errors@.drop_last(),
        only@ == seq![errors@.last()],
        forall|i: int| 0 <= i < errors@.len() ==> (#[trigger] errors@[i]).errors@.len() == 0,
        call_ensures(ExecutionRouter::format_validation_errors, (errors,), told),
        call_ensures(ExecutionRouter::format_validation_errors, (rest,), told_rest),
        call_ensures(ExecutionRouter::format_validation_errors, (only,), last),
    ensures
        told@ == told_rest@ + "; "@ + last@,
        last@ == (match errors@.last().field {
            Some(name) => name@ + ": "@ + errors@.last().message@,
            None => errors@.last().message@,
        }),
{
    let error = errors@.last();
    assert(only@.drop_last() =~= Seq::<ValidationError>::empty());
    assert(only@.last() == error);
    reveal_with_fuel(all_lines, 2);
    assert(error == errors@[errors@.len() - 1]);
    assert(all_lines(only@) =~= error_lines(error));
    let lines = all_lines(rest@);
    lemma_lines(rest@);
    assert(all_lines(errors@) =~= lines.push(error_lines(error)[0]));
    assert(all_lines(errors@).drop_last() =~= lines);
}

/// Errors with nothing wrong inside their fields are told in one line each.
proof fn lemma_lines(errors: Seq<ValidationError>)
    requires
        forall|i: int| 0 <= i < errors.len() ==> (#[trigger] errors[i]).errors@.len() == 0,
    ensures
        all_lines(errors).len() == errors.len(),
    decreases errors.len(),
{
    if errors.len() > 0 {
        assert forall|i: int| 0 <= i < errors.drop_last().len() implies (
        #[trigger] errors.drop_last()[i]).errors@.len() == 0 by {
            assert(errors.drop_last()[i] == errors[i]);
        }
        lemma_lines(errors.drop_last());
        assert(errors[errors.len() - 1].errors@.len() == 0);
    }
}

/// What is wrong inside a field is told in its place, by the inner field, or a question mark where
/// there is none, and the inner message; no errors are told as nothing.
pub proof fn law_nested_errors_are_told(
    errors: &Vec<ValidationError>,
    told: String,
    none: &Vec<ValidationError>,
    nothing: String,
)
    requires
        errors@.len() == 1,
        errors@[0].errors@.len() == 1,
        none@.len() == 0,
        call_ensures(ExecutionRouter::format_validation_errors, (errors,), told),
        call_ensures(ExecutionRouter::format_validation_errors, (none,), nothing),
    ensures
        nothing@.len() == 0,
        told@ == (match errors@[0].errors@[0].field {
            Some(name) => name@ + ": "@ + errors@[0].errors@[0].message@,
            None => "?"@ + ": "@ + errors@[0].errors@[0].message@,
        }),
{
    assert(errors@.drop_last() =~= Seq::<ValidationError>::empty());
    assert(errors@.last() == errors@[0]);
    reveal_with_fuel(all_lines, 2);
    assert(all_lines(errors@) =~= error_lines(errors@[0]));
    assert(error_lines(errors@[0]).len() == 1);
    assert(error_lines(errors@[0])[0] == nested_line(errors@[0].errors@[0]));
}

/// The answer to a request to check inputs says what the check said: whether they are valid,
/// whether somebody has to approve, and each error as a check that did not pass. Where nothing is
/// checked, the inputs pass; where the check breaks off or there is no executor, they do not.
pub proof fn law_checks_are_answered(
    router: &ExecutionRouter,
    outcome: &ValidationOutcome,
    json: Json,
)
    requires
        call_ensures(ExecutionRouter::validate_tool, (router, outcome), json),
    ensures
        router@.executor ==> match outcome {
            ValidationOutcome::Checked(result) => {
                &&& json@.get("valid"@) == Some(JsonView::Bool(result.valid))
                &&& json@.get("requires_approval"@) == Some(
                    JsonView::Bool(result.requires_approval),
                )
                &&& json@.get("checks"@) matches Some(JsonView::Array(checks)) && checks.len()
                    == result.errors@.len() && forall|i: int|
                    0 <= i < checks.len() ==> (#[trigger] checks[i]).get("message"@) == Some(
                        JsonView::String(result.errors@[i].message@),
                    ) && checks[i].get("passed"@) == Some(JsonView::Bool(false))
                        && checks[i].get("check"@) == Some(
                        JsonView::String(
                            match result.errors@[i].field {
                                Some(name) => name@,
                                None => "general"@,
                            },
                        ),
                    )
            },
            ValidationOutcome::Unsupported => json@.get("valid"@) == Some(JsonView::Bool(true))
                && json@.get("requires_approval"@) == Some(JsonView::Bool(false)) && (json@.get(
                "checks"@,
            ) matches Some(JsonView::Array(checks)) && checks.len() == 0),
            ValidationOutcome::Panicked => json@.get("valid"@) == Some(JsonView::Bool(false))
                && json@.get("requires_approval"@) == Some(JsonView::Bool(false)) && (json@.get(
                "checks"@,
            ) matches Some(JsonView::Array(checks)) && checks.len() == 1 && checks[0].get(
                "check"@,
            ) == Some(JsonView::String("unexpected"@)) && checks[0].get("message"@) == Some(
                JsonView::String("validation panicked"@),
            )),
        },
        !router@.executor ==> json@.get("valid"@) == Some(JsonView::Bool(false)) && json@.get(
            "requires_approval"@,
        ) == Some(JsonView::Bool(false)) && (json@.get("checks"@) matches Some(
            JsonView::Array(checks),
        ) && checks.len() == 1 && checks[0].get("check"@) == Some(
            JsonView::String("unexpected"@),
        ) && checks[0].get("message"@) == Some(JsonView::String("No executor configured"@))),
{
    broadcast use json::group_members;

    reveal_strlit("valid");
    reveal_strlit("checks");
    reveal_strlit("requires_approval");
    reveal_strlit("check");
    reveal_strlit("message");
    reveal_strlit("passed");
    assert("valid"@.len() == 5);
    assert("checks"@.len() == 6);
    assert("requires_approval"@.len() == 17);
    assert("check"@.len() == 5);
    assert("message"@.len() == 7);
    assert("passed"@.len() == 6);
    assert("valid"@[0] != "check"@[0]);
    assert("checks"@[0] != "passed"@[0]);
}

/// Where nothing was found wrong, inputs are valid and need no approval.
pub proof fn law_inputs_are_valid_by_default(result: ValidationResult)
    requires
        call_ensures(<ValidationResult as Default>::default, (), result),
    ensures
        result.valid,
        result.errors@.len() == 0,
        !result.requires_approval,
{
}

/// What a call comes with is read from its metadata: its progress token, who calls as its message
/// has it, and its session, where that is alive. Nothing is taken for authenticated, and nothing is
/// sent.
pub proof fn law_metadata_is_read(
    router: &ExecutionRouter,
    extra: Option<&Json>,
    read: CallExtra<String>,
    session: Option<&str>,
    bare: CallExtra<String>,
)
    requires
        call_ensures(ExecutionRouter::extract_extra, (router, extra), read),
        call_ensures(ExecutionRouter::session_id_from_extra, (extra,), session),
        call_ensures(CallExtra::<String>::none, (), bare),
    ensures
        match json::get_in(json::ref_view(extra), "progress_token"@) {
            Some(JsonView::String(s)) => read.progress_token matches Some(
                ProgressToken::String(token),
            ) && token@ == s,
            Some(JsonView::Number(json::NumberView::Int(n))) => if i64::MIN <= n <= i64::MAX {
                read.progress_token matches Some(ProgressToken::Integer(m)) && m == n
            } else {
                read.progress_token is None
            },
            _ => read.progress_token is None,
        },
        !read.send_notification,
        json::opt_view(read.identity) == json::get_in(json::ref_view(extra), "identity"@),
        read.typed_identity is None,
        match json::get_in(json::ref_view(extra), "sessionId"@) {
            Some(JsonView::String(s)) => session matches Some(id) && id@ == s,
            Some(_) => session is None,
            None => match json::get_in(
                json::get_in(json::ref_view(extra), "_meta"@),
                "sessionId"@,
            ) {
                Some(JsonView::String(s)) => session matches Some(id) && id@ == s,
                _ => session is None,
            },
        },
        text::opt_view(read.session) == (match session {
            Some(id) => if exists|i: int|
                0 <= i < router@.sessions.len() && (#[trigger] router@.sessions[i]).id == id@ {
                Some(id@)
            } else {
                None
            },
            None => None,
        }),
        bare.progress_token is None && !bare.send_notification && bare.session is None
            && bare.identity is None && bare.typed_identity is None,
{
    if let Some(id) = session {
        if session::alive(router@.sessions, id@) {
            let i = choose|i: int| session::session_at(router@.sessions, id@, i);
            assert(session::session_at(router@.sessions, id@, i));
            assert(router@.sessions[i].id == id@);
        }
        if exists|i: int|
            0 <= i < router@.sessions.len() && (#[trigger] router@.sessions[i]).id == id@ {
            let i = choose|i: int|
                0 <= i < router@.sessions.len() && (#[trigger] router@.sessions[i]).id == id@;
            assert(session::session_at(router@.sessions, id@, i));
        }
    }
}

/// The version that a call asks for is the caller's hint, or else the one in the client's metadata,
/// or else the module's own.
pub proof fn law_versions_are_asked_for(
    extra: Option<&Json>,
    default_version: Option<&str>,
    version: Option<String>,
)
    requires
        call_ensures(ExecutionRouter::version_hint, (extra, default_version), version),
    ensures
        ({
            let given = json::ref_view(extra);
            let client = json::get_in(
                json::get_in(json::get_in(given, "_meta"@), "apcore"@),
                "version"@,
            );
            let otherwise = match client {
                Some(JsonView::String(s)) => Some(s),
                _ => text::ref_view(default_version),
            };
            match (json::get_in(given, "version_hint"@), json::get_in(given, "versionHint"@)) {
                (Some(JsonView::String(s)), _) => text::opt_view(version) == Some(s),
                (Some(_), _) => text::opt_view(version) == otherwise,
                (None, Some(JsonView::String(s))) => text::opt_view(version) == Some(s),
                (None, _) => text::opt_view(version) == otherwise,
            }
        }),
{
}


/// The plan of a call has what is read from the call's metadata, and its first step. The call is
/// cancelled exactly where it was before it began; planning it leaves everything else of the router
/// as it was.
pub proof fn law_calls_are_planned(
    router: &mut ExecutionRouter,
    tool: &str,
    extra: Option<&Json>,
    default_version: Option<&str>,
    plan: CallPlan,
    id: &str,
    read: CallExtra<String>,
    version: Option<String>,
    origin: Option<TraceParent>,
    first: CallStep,
    cancelled: bool,
)
    requires
        call_ensures(
            ExecutionRouter::handle_call,
            (router, tool, extra, default_version),
            plan,
        ),
        call_ensures(ExecutionRouter::extract_extra, (&*old(router), extra), read),
        call_ensures(ExecutionRouter::version_hint, (extra, default_version), version),
        call_ensures(ExecutionRouter::extract_traceparent, (extra,), origin),
        call_ensures(ExecutionRouter::first_step, (&*old(router), tool, false), first),
        call_ensures(ExecutionRouter::is_cancelled, (&*old(router), id), cancelled),
        id@ == plan.call_id@,
    ensures
        plan.cancelled == cancelled,
        opt_token(plan.extra.progress_token) == opt_token(read.progress_token),
        !plan.extra.send_notification,
        plan.extra.typed_identity is None,
        text::opt_view(plan.extra.session) == text::opt_view(read.session),
        json::opt_view(plan.extra.identity) == json::opt_view(read.identity),
        text::opt_view(plan.version_hint) == text::opt_view(version),
        opt_trace(plan.trace_parent) == opt_trace(origin),
        plan.step@ == first@,
        json::opt_view(plan.task_token) == json::get_in(json::ref_view(extra), "progressToken"@),
        text::opt_view(plan.task_session) == (match json::get_in(
            json::ref_view(extra),
            "sessionId"@,
        ) {
            Some(JsonView::String(s)) => Some(s),
            _ => None,
        }),
        final(router)@ == (RouterView {
            cancel_tokens: final(router)@.cancel_tokens,
            ..old(router)@
        }),
        json::get_in(json::ref_view(extra), "call_id"@) matches Some(JsonView::String(s))
            ==> plan.call_id@ == s,
        json::get_in(json::ref_view(extra), "call_id"@) is None ==> (json::get_in(
            json::get_in(json::ref_view(extra), "_meta"@),
            "progressToken"@,
        ) matches Some(JsonView::String(s)) ==> plan.call_id@ == s),
{
}

/// A call that was released is not cancelled, and a call that is cancelled while it is active is
/// told to be; cancelling touches nothing else of the router.
pub proof fn law_router_cancels_calls(
    router: &mut ExecutionRouter,
    call_id: &str,
    found: bool,
    cancelled: bool,
    active: bool,
)
    requires
        call_ensures(ExecutionRouter::cancel_call, (router, call_id), found),
        call_ensures(ExecutionRouter::is_cancelled, (&*final(router), call_id), cancelled),
        cancel::ids_once(old(router)@.cancel_tokens),
        active == exists|i: int|
            0 <= i < old(router)@.cancel_tokens.len() && (
            #[trigger] old(router)@.cancel_tokens[i]).call_id == call_id@
                && old(router)@.cancel_tokens[i].in_flight,
    ensures
        found == active,
        active ==> cancelled,
        old(router)@.cancel_tokens.len() < 4096 ==> cancelled,
        final(router)@ == (RouterView {
            cancel_tokens: final(router)@.cancel_tokens,
            ..old(router)@
        }),
{
    let tokens = old(router)@.cancel_tokens;
    let after = final(router)@.cancel_tokens;
    if cancel::known(tokens, call_id@) {
        let p = cancel::place(tokens, call_id@);
        assert(cancel::entry_at(tokens, call_id@, p));
        assert(tokens[p].call_id == call_id@);
        assert(cancel::entry_at(after, call_id@, p));
        let q = cancel::place(after, call_id@);
        assert(cancel::entry_at(after, call_id@, q));
        if active {
            let i = choose|i: int|
                0 <= i < tokens.len() && (#[trigger] tokens[i]).call_id == call_id@
                    && tokens[i].in_flight;
            assert(i == p);
        }
        if q != p {
            assert(after[q].call_id == tokens[q].call_id);
        }
    } else {
        if active {
            let i = choose|i: int|
                0 <= i < tokens.len() && (#[trigger] tokens[i]).call_id == call_id@
                    && tokens[i].in_flight;
            assert(cancel::entry_at(tokens, call_id@, i));
        }
        if tokens.len() < cancel::CANCEL_TOKENS_MAX {
            let n = tokens.len() as int;
            assert(after == tokens.push(cancel::tombstone(call_id@)));
            assert(cancel::entry_at(after, call_id@, n));
            let q = cancel::place(after, call_id@);
            assert(cancel::entry_at(after, call_id@, q));
            if q != n {
                assert(cancel::entry_at(tokens, call_id@, q));
            }
        }
    }
}

/// Releasing a call forgets that it was cancelled, and touches nothing else of the router.
pub proof fn law_router_releases_calls(
    router: &mut ExecutionRouter,
    call_id: &str,
    cancelled: bool,
)
    requires
        call_ensures(ExecutionRouter::end_call, (router, call_id), ()),
        call_ensures(ExecutionRouter::is_cancelled, (&*final(router), call_id), cancelled),
        cancel::ids_once(old(router)@.cancel_tokens),
    ensures
        !cancelled,
        final(router)@ == (RouterView {
            cancel_tokens: final(router)@.cancel_tokens,
            ..old(router)@
        }),
{
    let tokens = old(router)@.cancel_tokens;
    let after = final(router)@.cancel_tokens;
    if cancel::known(after, call_id@) {
        let q = cancel::place(after, call_id@);
        assert(cancel::entry_at(after, call_id@, q));
        if cancel::known(tokens, call_id@) {
            let p = cancel::place(tokens, call_id@);
            assert(cancel::entry_at(tokens, call_id@, p));
            let k = if q < p {
                q
            } else {
                q + 1
            };
            assert(after[q] == tokens[k]);
            assert(tokens[k].call_id != tokens[p].call_id);
        }
    }
}

/// A chunk of a stream is told under the client's token, with its number and the text of its
/// redacted form, and merged over what came before. The end of a stream gives what a call that
/// returned the whole gives, and a failure what a failed call gives.
pub proof fn law_streams_are_told(
    router: &ExecutionRouter,
    tool: &str,
    token: &ProgressToken,
    context: Option<&Json>,
    state: StreamState,
    custom: Option<&str>,
    chunk: Json,
    next: StreamStep,
    ended: StreamStep,
    error: ExecutorError,
    failed: StreamStep,
    redacted: Json,
    told: Option<String>,
    named: Json,
    whole: Json,
    returned: CallStep,
    message: String,
    begun: StreamState,
)
    requires
        router@.executor,
        call_ensures(
            ExecutionRouter::handle_stream,
            (router, tool, token, context, state, StreamEvent::Chunk(chunk), custom),
            next,
        ),
        call_ensures(
            ExecutionRouter::handle_stream,
            (router, tool, token, context, state, StreamEvent::Ended, custom),
            ended,
        ),
        call_ensures(
            ExecutionRouter::handle_stream,
            (router, tool, token, context, state, StreamEvent::Failed(error), custom),
            failed,
        ),
        call_ensures(ExecutionRouter::redact_output, (router, tool, &chunk), redacted),
        call_ensures(value::to_text, (&redacted,), told),
        call_ensures(progress_token_to_value, (token,), named),
        call_ensures(merge::deep_merge, (&state.accumulated, &chunk, 0usize), whole),
        call_ensures(
            ExecutionRouter::handle_call_async_with_hint,
            (router, tool, context, CallEvent::PlainReturned(state.accumulated), custom),
            returned,
        ),
        call_ensures(ExecutionRouter::build_error_text, (&error,), message),
        call_ensures(ExecutionRouter::begin_stream, (), begun),
    ensures
        begun.chunks == 0 && begun.accumulated@ == JsonView::object(),
        next matches StreamStep::Next { state: after, notification } && after.accumulated@ == whole@
            && after.chunks == state.chunks + 1 && notification@.get("method"@) == Some(
            JsonView::String("notifications/progress"@),
        ) && (notification@.get("params"@) matches Some(params) && params.get("progressToken"@)
            == Some(named@) && params.get("progress"@) == Some(
            JsonView::Number(json::NumberView::Int(state.chunks + 1)),
        ) && params.get("total"@) == Some(JsonView::Null) && (told matches Some(s) && params.get(
            "message"@,
        ) == Some(JsonView::String(s@)))),
        ended matches StreamStep::Done(outcome) && (returned matches CallStep::Done(plain)
            && outcome@ == plain@ && !outcome.is_error),
        failed matches StreamStep::Done(outcome) && reports(outcome, message@),
{
    broadcast use json::group_members;

    reveal_strlit("method");
    reveal_strlit("params");
    reveal_strlit("progressToken");
    reveal_strlit("progress");
    reveal_strlit("total");
    reveal_strlit("message");
    assert("method"@.len() == 6);
    assert("params"@.len() == 6);
    assert("progressToken"@.len() == 13);
    assert("progress"@.len() == 8);
    assert("total"@.len() == 5);
    assert("message"@.len() == 7);
    assert("method"@[0] != "params"@[0]);
    if let StreamStep::Done(outcome) = failed {
        lemma_reports(outcome, message@);
    }
}

/// A progress token stands in messages as the client chose it.
pub proof fn law_tokens_stay_as_chosen(token: &ProgressToken, json: Json)
    requires
        call_ensures(progress_token_to_value, (token,), json),
    ensures
        match token {
            ProgressToken::String(s) => json@ == JsonView::String(s@),
            ProgressToken::Integer(n) => json@ == JsonView::Number(json::NumberView::Int(*n as int)),
        },
{
}

/// A report of progress is sent under the client's token, with the progress, the total or zero, and
/// the message where there is one.
pub proof fn law_progress_is_reported(
    token: &ProgressToken,
    progress: Json,
    total: Option<Json>,
    message: Option<&str>,
    notification: Json,
    named: Json,
)
    requires
        call_ensures(
            ExecutionRouter::report_progress,
            (token, progress, total, message),
            notification,
        ),
        call_ensures(progress_token_to_value, (token,), named),
    ensures
        notification@.get("method"@) == Some(JsonView::String("notifications/progress"@)),
        notification@.get("params"@) matches Some(params) && params.get("progressToken"@) == Some(
            named@,
        ) && params.get("progress"@) == Some(progress@) && params.get("total"@) == Some(
            match total {
                Some(n) => n@,
                None => JsonView::Number(json::NumberView::Int(0)),
            },
        ) && params.get("message"@) == (match message {
            Some(s) => Some(JsonView::String(s@)),
            None => None,
        }),
{
    broadcast use json::group_members;

    reveal_strlit("method");
    reveal_strlit("params");
    reveal_strlit("progressToken");
    reveal_strlit("progress");
    reveal_strlit("total");
    reveal_strlit("message");
    assert("method"@.len() == 6);
    assert("params"@.len() == 6);
    assert("progressToken"@.len() == 13);
    assert("progress"@.len() == 8);
    assert("total"@.len() == 5);
    assert("message"@.len() == 7);
    assert("method"@[0] != "params"@[0]);
}

/// A meta-tool gives the text of its answer, or of its error in the protocol's form, in the trace
/// of the call; only an error is reported as one.
pub proof fn law_meta_tools_give_their_answers(
    value: Json,
    error: MetaToolError,
    trace_id: &str,
    answered: CallOutcome,
    refused: CallOutcome,
    answer: Option<String>,
    mapped: Option<String>,
)
    requires
        call_ensures(
            ExecutionRouter::meta_tool_response,
            (&Ok::<Json, MetaToolError>(value), trace_id),
            answered,
        ),
        call_ensures(
            ExecutionRouter::meta_tool_response,
            (&Err::<Json, MetaToolError>(error), trace_id),
            refused,
        ),
        call_ensures(value::to_text, (&value,), answer),
        call_ensures(value::to_text, (&error.mapped,), mapped),
    ensures
        !answered.is_error && refused.is_error,
        answered.content@.len() == 1 && refused.content@.len() == 1,
        answered.content@[0].content_type@ == "text"@ && refused.content@[0].content_type@
            == "text"@,
        answer matches Some(s) && answered.content@[0].data@ == JsonView::String(s@),
        mapped matches Some(s) && refused.content@[0].data@ == JsonView::String(s@),
        text::opt_view(answered.trace_id) == Some(trace_id@),
        text::opt_view(refused.trace_id) == Some(trace_id@),
{
    assert(answered@.content.len() == answered.content@.len());
    assert(answered@.content[0] == answered.content@[0]@);
    assert(refused@.content.len() == refused.content@.len());
    assert(refused@.content[0] == refused.content@[0]@);
    assert(answered@.trace_id == Some(trace_id@));
    assert(refused@.trace_id == Some(trace_id@));
}

/// The bridge for approvals reports its own message where it has one.
pub proof fn law_approval_errors(reply: &Json, message: String)
    requires
        call_ensures(ExecutionRouter::approval_error, (reply,), message),
    ensures
        match reply@.get("error"@) {
            Some(JsonView::String(s)) => message@ == s,
            _ => message@ == "approval check failed"@,
        },
{
}

/// Whom authentication established for a call comes before whom its message names, and whom its
/// message names, where that is an identity, before whom authentication established for the
/// surroundings.
pub proof fn law_callers_are_resolved(
    extra: &CallExtra<String>,
    ambient: Option<&Json>,
    caller: Option<Json>,
)
    requires
        call_ensures(ExecutionRouter::resolve_identity::<String>, (extra, ambient), caller),
    ensures
        extra.typed_identity matches Some(typed) ==> json::opt_view(caller) == Some(typed@),
        extra.typed_identity is None ==> (extra.identity matches Some(named) ==> identity_in(named@)
            is Some ==> json::opt_view(caller) == Some(named@)),
        extra.typed_identity is None && extra.identity is None ==> json::opt_view(caller)
            == json::ref_view(ambient),
        extra.typed_identity is None ==> (extra.identity matches Some(named) ==> identity_in(named@)
            is None ==> json::opt_view(caller) == json::ref_view(ambient)),
{
}

/// The document of a context names the caller as the call's message has them, or else as they were
/// resolved, and the trace that the call belongs to.
pub proof fn law_contexts_name_caller_and_trace(
    extra: &CallExtra<String>,
    identity: Option<&Json>,
    trace_id: &str,
    context: Json,
)
    requires
        call_ensures(
            ExecutionRouter::describe_context::<String>,
            (extra, identity, trace_id),
            context,
        ),
    ensures
        context@.get("trace_id"@) == Some(JsonView::String(trace_id@)),
        context@.get("identity"@) == (match extra.identity {
            Some(named) => Some(named@),
            None => match identity {
                Some(resolved) => Some(resolved@),
                None => None,
            },
        }),
{
    broadcast use json::group_members;

    reveal_strlit("trace_id");
    reveal_strlit("identity");
    assert("trace_id"@.len() == 8);
    assert("identity"@.len() == 8);
    assert("trace_id"@[0] != "identity"@[0]);
}

/// What a call offers modules stands under the key for it, and only where it is offered.
pub proof fn law_offers_stand_under_their_keys(
    extra: &CallExtra<String>,
    keys: &ContextKeys,
    callback: Option<&str>,
    offered: JsonObject,
)
    requires
        call_ensures(
            ExecutionRouter::offered::<String>,
            (extra, keys, callback),
            offered,
        ),
        keys.progress@ != keys.elicit@,
        keys.progress@ != keys.elicit_call_id@,
        keys.elicit@ != keys.elicit_call_id@,
    ensures
        JsonView::Object(offered@).get(keys.progress@) == (if extra.progress_token is Some
            && extra.send_notification {
            Some(JsonView::String("available"@))
        } else {
            None
        }),
        JsonView::Object(offered@).get(keys.elicit@) == (if extra.session is Some {
            Some(JsonView::String("available"@))
        } else {
            None
        }),
        JsonView::Object(offered@).get(keys.elicit_call_id@) == (match callback {
            Some(id) => Some(JsonView::String(id@)),
            None => None,
        }),
{
    broadcast use json::group_lookup;

}

/// A client is asked to fill in the form that was given, or else one that asks for nothing.
pub proof fn law_forms_are_asked_for(schema: Option<Json>, asked: Json)
    requires
        call_ensures(ExecutionRouter::requested_schema, (schema,), asked),
    ensures
        match schema {
            Some(given) => asked@ == given@,
            None => asked@ matches JsonView::Object(entries) && entries.len() == 0,
        },
{
}

/// A header passes on the trace, the span and the flags that it was written with; it is found in
/// the metadata of a call, and written there under the same name.
pub proof fn law_headers_say_what_they_were_written_with(
    trace_id: Seq<char>,
    parent_id: Seq<char>,
    header: &str,
    meta: Json,
    extra: &Json,
    read: Option<TraceParent>,
)
    requires
        ids::hex_text(trace_id) && trace_id.len() == 32 && !all_zero(trace_id),
        ids::hex_text(parent_id) && parent_id.len() == 16 && !all_zero(parent_id),
        header@ == seq!['0', '0', '-'] + trace_id + seq!['-'] + parent_id + seq!['-', '0', '1'],
        call_ensures(ExecutionRouter::traceparent_meta, (Some(header),), meta),
        extra@.get("_meta"@) == Some(meta@),
        call_ensures(ExecutionRouter::extract_traceparent, (Some(extra),), read),
    ensures
        read matches Some(origin) && origin.trace_id@ == trace_id && origin.parent_id@ == parent_id
            && origin.version == 0 && origin.trace_flags == 1,
{
    broadcast use json::group_members;

    let h = header@;
    assert(h.len() == 55);
    assert(h.subrange(3, 35) =~= trace_id);
    assert(h.subrange(36, 52) =~= parent_id);
    assert(h.subrange(0, 2) =~= seq!['0', '0']);
    assert(h.subrange(53, 55) =~= seq!['0', '1']);
    assert(h[0] == '0' && h[1] == '0' && h[53] == '0' && h[54] == '1');
    assert(canonical_header(h));
    lemma_canonical_is_kept(h);
    assert(meta@.get("traceparent"@) == Some(JsonView::String(h)));
    assert(opt_trace(read) == traceparent(h));
    assert(traceparent(h) == header_parts(h));
}

/// The metadata without a header names no origin, and neither does a call without metadata.
pub proof fn law_no_header_no_origin(
    meta: Json,
    extra: &Json,
    read: Option<TraceParent>,
    none: Option<TraceParent>,
)
    requires
        call_ensures(ExecutionRouter::traceparent_meta, (None::<&str>,), meta),
        extra@.get("_meta"@) == Some(meta@),
        call_ensures(ExecutionRouter::extract_traceparent, (Some(extra),), read),
        call_ensures(ExecutionRouter::extract_traceparent, (None::<&Json>,), none),
    ensures
        read is None,
        none is None,
{
    broadcast use json::group_members;

}

/// A connection that is opened is the last of those that are alive, and nothing else of the router
/// is touched.
pub proof fn law_router_keeps_sessions(
    router: &mut ExecutionRouter,
    session: session::McpSession,
    registry: &session::SessionRegistry,
)
    requires
        call_ensures(ExecutionRouter::open_session, (router, session), ()),
        call_ensures(ExecutionRouter::session_registry, (&*final(router),), registry),
    ensures
        registry@.len() > 0,
        registry@.last() == session@,
        final(router)@ == (RouterView {
            sessions: final(router)@.sessions,
            ..old(router)@
        }),
{
}

/// A connection that is taken out or closed is the one that was asked for, and given exactly where
/// it is alive; one that is closed waits for nothing.
pub proof fn law_router_gives_up_sessions(
    router: &mut ExecutionRouter,
    closing: &mut ExecutionRouter,
    session_id: &str,
    taken: Option<session::McpSession>,
    closed: Option<session::McpSession>,
)
    requires
        call_ensures(ExecutionRouter::take_session, (router, session_id), taken),
        call_ensures(ExecutionRouter::close_session, (closing, session_id), closed),
        *old(closing) == *old(router),
    ensures
        taken is Some == closed is Some,
        taken is Some <==> exists|i: int|
            0 <= i < old(router)@.sessions.len() && (#[trigger] old(router)@.sessions[i]).id
                == session_id@,
        taken matches Some(session) ==> session@.id == session_id@
            && final(router)@.sessions.len() + 1 == old(router)@.sessions.len(),
        closed matches Some(session) ==> session@.id == session_id@ && session@.pending
            == Set::<Seq<char>>::empty(),
        final(closing)@ == final(router)@,
        final(router)@ == (RouterView {
            sessions: final(router)@.sessions,
            ..old(router)@
        }),
{
    let sessions = old(router)@.sessions;
    if exists|i: int|
        0 <= i < sessions.len() && (#[trigger] sessions[i]).id == session_id@ {
        let i = choose|i: int|
            0 <= i < sessions.len() && (#[trigger] sessions[i]).id == session_id@;
        assert(session::session_at(sessions, session_id@, i));
    }
    if session::alive(sessions, session_id@) {
        let i = choose|i: int| session::session_at(sessions, session_id@, i);
        assert(session::session_at(sessions, session_id@, i));
        assert(sessions[i].id == session_id@);
    }
}

/// A call that was planned is active: a cancellation finds it and is seen.
pub proof fn law_planned_calls_can_be_cancelled(
    router: &mut ExecutionRouter,
    cancelling: &mut ExecutionRouter,
    tool: &str,
    extra: Option<&Json>,
    default_version: Option<&str>,
    plan: CallPlan,
    id: &str,
    found: bool,
    cancelled: bool,
)
    requires
        cancel::well_kept(old(router)@.cancel_tokens),
        old(router)@.cancel_tokens.len() < 4096,
        call_ensures(
            ExecutionRouter::handle_call,
            (router, tool, extra, default_version),
            plan,
        ),
        id@ == plan.call_id@,
        *old(cancelling) == *final(router),
        call_ensures(ExecutionRouter::cancel_call, (cancelling, id), found),
        call_ensures(ExecutionRouter::is_cancelled, (&*final(cancelling), id), cancelled),
    ensures
        found,
        cancelled,
{
    let before = old(router)@.cancel_tokens;
    let rest = cancel::without(before, id@);
    let now = final(router)@.cancel_tokens;
    let last = rest.len() as int;
    assert(now == rest.push(
        TokenView { call_id: id@, cancelled: plan.cancelled, in_flight: true },
    ));
    assert(cancel::entry_at(now, id@, last));
    assert forall|j: int| 0 <= j < last implies (#[trigger] rest[j]).call_id != id@ by {
        if cancel::known(before, id@) {
            let p = cancel::place(before, id@);
            assert(cancel::entry_at(before, id@, p));
            let k = if j < p {
                j
            } else {
                j + 1
            };
            assert(rest[j] == before[k]);
            assert(before[k].call_id != before[p].call_id);
        } else if rest[j].call_id == id@ {
            assert(cancel::entry_at(before, id@, j));
        }
    }
    let p = cancel::place(now, id@);
    assert(cancel::entry_at(now, id@, p));
    assert(p == last);
    let after = final(cancelling)@.cancel_tokens;
    assert(cancel::entry_at(after, id@, last));
    let q = cancel::place(after, id@);
    assert(cancel::entry_at(after, id@, q));
    if q != last {
        assert(after[q] == now[q]);
        assert(now[q] == rest[q]);
    }
}

/// The metadata that passes a trace on has one header: of the version in use, with the context's
/// own trace.
pub proof fn law_traces_are_passed_on(
    context: &apcore::Context<serde_json::Value>,
    meta: Json,
)
    requires
        call_ensures(ExecutionRouter::inject_traceparent_meta, (context,), meta),
        text::unhyphenated(trace_id_of(*context)).len() == 32,
    ensures
        meta@.get("traceparent"@) matches Some(JsonView::String(header)) && header.len() == 55
            && header[0] == '0' && header[1] == '0' && header[2] == '-' && header.subrange(3, 35)
            == text::unhyphenated(trace_id_of(*context)) && header[35] == '-' && header[52] == '-',
{
    broadcast use json::group_members;

    let header = choose|header: Seq<char>| #[trigger]
        injected(context, header) && outbound_header(header, trace_id_of(*context)) && meta@
            == JsonView::object().with("traceparent"@, JsonView::text(header));
    assert(header.take(3)[0] == '0' && header.take(3)[1] == '0' && header.take(3)[2] == '-');
    assert(header.take(3)[0] == header[0]);
    assert(header.take(3)[1] == header[1]);
    assert(header.take(3)[2] == header[2]);
}

/// The header that is passed on is the one that apcore gave for the same context.
proof fn law_headers_are_those_of_the_context(
    context: &apcore::Context<serde_json::Value>,
    meta: Json,
)
    requires
        call_ensures(ExecutionRouter::inject_traceparent_meta, (context,), meta),
    ensures
        exists|given: Option<String>| #[trigger]
            call_ensures(inject_header, (context,), given) && (given matches Some(header)
                && meta@.get("traceparent"@) == Some(JsonView::String(header@))),
{
    broadcast use json::group_members;

    let header = choose|header: Seq<char>| #[trigger]
        injected(context, header) && outbound_header(header, trace_id_of(*context)) && meta@
            == JsonView::object().with("traceparent"@, JsonView::text(header));
    assert(injected(context, header));
    let given = choose|given: Option<String>| #[trigger]
        call_ensures(inject_header, (context,), given) && text::opt_view(given) == Some(header);
    assert(call_ensures(inject_header, (context,), given));
}

/// The context that a call is given has the caller that was resolved for it, the token that cancels
/// it and a trace, its origin's where that can be gone on with; its document names the same trace
/// and caller, and what the call offers stands under the keys for it. Exactly where the call came
/// over a session, the callback for the session is registered, under an id of its own.
pub proof fn law_contexts_are_built<S, C, F: Fn(&S) -> C>(
    extra: &CallExtra<S>,
    ambient: Option<&Json>,
    parent: Option<&TraceParent>,
    cancel_token: Option<apcore::CancelToken>,
    keys: &ContextKeys,
    callbacks: &mut ElicitRegistry<C>,
    make_callback: F,
    built: BuiltContext,
    caller: Option<Json>,
    resolved: Option<&Json>,
    document: Json,
    trace_id: &str,
)
    requires
        call_ensures(
            ExecutionRouter::build_context_with_trace::<S, C, F>,
            (extra, ambient, parent, cancel_token, keys, callbacks, make_callback),
            built,
        ),
        call_ensures(ExecutionRouter::resolve_identity::<S>, (extra, ambient), caller),
        json::ref_view(resolved) == json::opt_view(caller),
        trace_id@ == built.trace_id@,
        call_ensures(
            ExecutionRouter::describe_context::<S>,
            (extra, resolved, trace_id),
            document,
        ),
    ensures
        trace_id_of(built.typed) == built.trace_id@,
        built.trace_id@.len() == 32,
        identity_of(built.typed) == (match caller {
            Some(named) => identity_in(named@),
            None => None,
        }),
        cancel_token_of(built.typed) == cancel_token,
        built.context@ == document@,
        parent matches Some(p) ==> p.trace_id@.len() == 32 && ids::hex_text(p.trace_id@)
            && !all_zero(p.trace_id@) && p.trace_id@[0] != 'f' ==> built.trace_id@ == p.trace_id@,
        built.guard is Some == extra.session is Some,
        match (built.guard, extra.session) {
            (Some(guard), Some(session)) => final(callbacks)@.contains_key(guard@) && call_ensures(
                make_callback,
                (&session,),
                final(callbacks)@[guard@],
            ) && forall|other: Seq<char>|
                other != guard@ ==> (#[trigger] final(callbacks)@.contains_key(other) == old(
                    callbacks,
                )@.contains_key(other)),
            _ => final(callbacks)@ == old(callbacks)@,
        },
        keys.progress@ != keys.elicit@ && keys.progress@ != keys.elicit_call_id@ && keys.elicit@
            != keys.elicit_call_id@ && keys.progress@ != "_apcore.trace.flags"@ && keys.elicit@
            != "_apcore.trace.flags"@ && keys.elicit_call_id@ != "_apcore.trace.flags"@ ==> {
            &&& seeded(built.typed, keys.progress@) == (if extra.progress_token is Some
                && extra.send_notification {
                Some(JsonView::String("available"@))
            } else {
                None
            })
            &&& seeded(built.typed, keys.elicit@) == (if extra.session is Some {
                Some(JsonView::String("available"@))
            } else {
                None
            })
            &&& seeded(built.typed, keys.elicit_call_id@) == (match built.guard {
                Some(guard) => Some(JsonView::String(guard@)),
                None => None,
            })
        },
{
    if keys.progress@ != keys.elicit@ && keys.progress@ != keys.elicit_call_id@ && keys.elicit@
        != keys.elicit_call_id@ && keys.progress@ != TRACE_FLAGS_KEY@ && keys.elicit@
        != TRACE_FLAGS_KEY@ && keys.elicit_call_id@ != TRACE_FLAGS_KEY@ {
        law_contexts_say_what_is_offered(
            built,
            *extra,
            json::ref_view(ambient),
            parent is Some,
            cancel_token,
            *keys,
        );
    }
    if let Some(p) = parent {
        if p.trace_id@.len() == 32 && ids::hex_text(p.trace_id@) && !all_zero(p.trace_id@)
            && p.trace_id@[0] != 'f' {
            assert(inheritable(p.trace_id@));
        }
    }
}

/// A call that comes from nowhere is given a context in the same way, which nothing cancels.
pub proof fn law_contexts_without_an_origin<S, C, F: Fn(&S) -> C>(
    extra: &CallExtra<S>,
    ambient: Option<&Json>,
    keys: &ContextKeys,
    callbacks: &mut ElicitRegistry<C>,
    make_callback: F,
    built: BuiltContext,
    caller: Option<Json>,
)
    requires
        call_ensures(
            ExecutionRouter::build_context::<S, C, F>,
            (extra, ambient, keys, callbacks, make_callback),
            built,
        ),
        call_ensures(ExecutionRouter::resolve_identity::<S>, (extra, ambient), caller),
    ensures
        trace_id_of(built.typed) == built.trace_id@,
        built.trace_id@.len() == 32,
        identity_of(built.typed) == (match caller {
            Some(named) => identity_in(named@),
            None => None,
        }),
        cancel_token_of(built.typed) is None,
        built.context@.get("trace_id"@) == Some(JsonView::String(built.trace_id@)),
        built.guard is Some == extra.session is Some,
        match (built.guard, extra.session) {
            (Some(guard), Some(session)) => final(callbacks)@.contains_key(guard@) && call_ensures(
                make_callback,
                (&session,),
                final(callbacks)@[guard@],
            ),
            _ => final(callbacks)@ == old(callbacks)@,
        },
{
    broadcast use json::group_members;

    reveal_strlit("identity");
    reveal_strlit("trace_id");
    assert("identity"@.len() == 8);
    assert("trace_id"@.len() == 8);
    assert("identity"@[0] != "trace_id"@[0]);
}

/// The counterparts of outcomes, tokens, origins and steps say what these say.
pub proof fn law_outcomes_say_the_same(
    outcome: CallOutcome,
    token: Option<ProgressToken>,
    origin: Option<TraceParent>,
    i: int,
)
    ensures
        outcome@.is_error == outcome.is_error,
        outcome@.content.len() == outcome.content@.len(),
        0 <= i < outcome.content@.len() ==> outcome@.content[i].content_type
            == outcome.content@[i].content_type@ && outcome@.content[i].data
            == outcome.content@[i].data@,
        outcome@.trace_id == text::opt_view(outcome.trace_id),
        match (opt_token(token), token) {
            (Some(TokenKind::String(s)), Some(ProgressToken::String(t))) => s == t@,
            (Some(TokenKind::Integer(n)), Some(ProgressToken::Integer(m))) => n == m,
            (None, None) => true,
            _ => false,
        },
        match (opt_trace(origin), origin) {
            (Some(a), Some(b)) => a.version == b.version && a.trace_id == b.trace_id@
                && a.parent_id == b.parent_id@ && a.trace_flags == b.trace_flags,
            (None, None) => true,
            _ => false,
        },
{
}

/// However a router came by its formatter, it writes results with it: a plain one as JSON, the
/// host's own shows what the host made of an object, and a built-in one writes an object as its one
/// row. What is neither an object nor an array is written as JSON by all of them.
pub proof fn law_formatters_write_results(
    router: &ExecutionRouter,
    result: &Json,
    custom: Option<&str>,
    shown: String,
    wanted: bool,
    json: Option<String>,
)
    requires
        call_ensures(ExecutionRouter::format_result, (router, result, custom), shown),
        call_ensures(ExecutionRouter::wants_custom_format, (router, result), wanted),
        call_ensures(value::to_text, (result,), json),
    ensures
        router@.formatter is Plain ==> (json matches Some(s) && shown@ == s@),
        !(result@ is Object) && !(result@ is Array) ==> (json matches Some(s) && shown@ == s@),
        router@.output_format is Json && result@ is Array ==> (json matches Some(s) && shown@
            == s@),
        router@.formatter is Custom && result@ is Object ==> wanted && (custom matches Some(s)
            ==> shown@ == s@) && (custom is None ==> (json matches Some(s) && shown@ == s@)),
        router@.formatter == Formatter::Builtin(OutputFormat::Csv) ==> (
        result@ matches JsonView::Object(row) ==> shown@ == output::csv_text(seq![row], false)),
        router@.formatter == Formatter::Builtin(OutputFormat::Jsonl) ==> (
        result@ matches JsonView::Object(row) ==> shown@ == output::jsonl_text(seq![row])),
        !(router@.formatter is Custom) ==> !wanted,
{
}

/// A call goes by the id that it comes with, a string as it is and an integer in decimal, or else
/// by its progress token, or else by a fresh id.
pub proof fn law_calls_have_ids(
    extra: Option<&Json>,
    id: String,
    n: i64,
    written: String,
    router: &mut ExecutionRouter,
    tool: &str,
    default_version: Option<&str>,
    plan: CallPlan,
)
    requires
        call_ensures(ExecutionRouter::call_id, (extra,), id),
        call_ensures(text::integer, (n,), written),
        call_ensures(
            ExecutionRouter::handle_call,
            (router, tool, extra, default_version),
            plan,
        ),
    ensures
        match json::get_in(json::ref_view(extra), "call_id"@) {
            Some(JsonView::String(s)) => id@ == s && plan.call_id@ == s,
            Some(JsonView::Number(json::NumberView::Int(m))) => m == n ==> id@ == written@
                && plan.call_id@ == written@,
            _ => match json::get_in(
                json::get_in(json::ref_view(extra), "_meta"@),
                "progressToken"@,
            ) {
                Some(JsonView::String(s)) => id@ == s && plan.call_id@ == s,
                Some(JsonView::Number(json::NumberView::Int(m))) => m == n ==> id@ == written@
                    && plan.call_id@ == written@,
                _ => id@.len() == 36 && plan.call_id@.len() == 36,
            },
        },
{
}

proof fn lemma_some_lines(errors: Seq<ValidationError>)
    requires
        errors.len() > 0,
    ensures
        all_lines(errors).len() > 0,
{
    let error = errors.last();
    assert(error_lines(error).len() > 0);
}

/// Errors are told one after another, whatever is wrong inside their fields.
pub proof fn law_errors_are_told_one_by_one(
    errors: &Vec<ValidationError>,
    rest: &Vec<ValidationError>,
    only: &Vec<ValidationError>,
    told: String,
    told_rest: String,
    last: String,
)
    requires
        errors@.len() > 1,
        rest@ == errors@.drop_last(),
        only@ == seq![errors@.last()],
        call_ensures(ExecutionRouter::format_validation_errors, (errors,), told),
        call_ensures(ExecutionRouter::format_validation_errors, (rest,), told_rest),
        call_ensures(ExecutionRouter::format_validation_errors, (only,), last),
    ensures
        told@ == told_rest@ + "; "@ + last@,
{
    assert(only@.drop_last() =~= Seq::<ValidationError>::empty());
    assert(only@.last() == errors@.last());
    reveal_with_fuel(all_lines, 2);
    assert(all_lines(only@) =~= error_lines(errors@.last()));
    lemma_some_lines(rest@);
    lemma_some_lines(only@);
    text::lemma_joined_parts(all_lines(rest@), all_lines(only@), "; "@);
}

/// What is wrong inside a field is told one after another as well.
pub proof fn law_nested_errors_are_told_one_by_one(
    errors: &Vec<ValidationError>,
    fewer: &Vec<ValidationError>,
    told: String,
    told_fewer: String,
)
    requires
        errors@.len() == 1,
        fewer@.len() == 1,
        fewer@[0].errors@.len() > 0,
        errors@[0].errors@.len() == fewer@[0].errors@.len() + 1,
        errors@[0].errors@.drop_last() == fewer@[0].errors@,
        call_ensures(ExecutionRouter::format_validation_errors, (errors,), told),
        call_ensures(ExecutionRouter::format_validation_errors, (fewer,), told_fewer),
    ensures
        told@ == told_fewer@ + "; "@ + (match errors@[0].errors@.last().field {
            Some(name) => name@,
            None => "?"@,
        }) + ": "@ + errors@[0].errors@.last().message@,
{
    assert(errors@.drop_last() =~= Seq::<ValidationError>::empty());
    assert(fewer@.drop_last() =~= Seq::<ValidationError>::empty());
    assert(errors@.last() == errors@[0] && fewer@.last() == fewer@[0]);
    reveal_with_fuel(all_lines, 2);
    let lines = error_lines(errors@[0]);
    let before = error_lines(fewer@[0]);
    assert(all_lines(errors@) =~= lines);
    assert(all_lines(fewer@) =~= before);
    assert(lines.drop_last() =~= before);
    let name = match errors@[0].errors@.last().field {
        Some(name) => name@,
        None => "?"@,
    };
    let message = errors@[0].errors@.last().message@;
    assert(lines.last() == name + ": "@ + message);
    assert(text::joined(lines, "; "@) == text::joined(before, "; "@) + "; "@ + (name + ": "@
        + message));
    assert(told@ =~= told_fewer@ + "; "@ + name + ": "@ + message);
}

/// A router that was just made, without a formatter of the host's own, gives the JSON text of what a
/// module returns, in whichever way the tool was called.
pub proof fn law_fresh_routers_give_results_as_json(
    validate_inputs: bool,
    router: ExecutionRouter,
    tool: &str,
    context: Option<&Json>,
    custom: Option<&str>,
    result: Json,
    trace: Option<Json>,
    pipeline: Json,
    typed: CallStep,
    traced: CallStep,
    plain: CallStep,
    json: Option<String>,
)
    requires
        call_ensures(ExecutionRouter::new, (validate_inputs, false), router),
        call_ensures(
            ExecutionRouter::handle_call_async_with_hint,
            (&router, tool, context, CallEvent::TypedReturned { result, trace }, custom),
            typed,
        ),
        call_ensures(
            ExecutionRouter::handle_call_async_with_hint,
            (&router, tool, context, CallEvent::TraceReturned { result, pipeline }, custom),
            traced,
        ),
        call_ensures(
            ExecutionRouter::handle_call_async_with_hint,
            (&router, tool, context, CallEvent::PlainReturned(result), custom),
            plain,
        ),
        call_ensures(value::to_text, (&result,), json),
    ensures
        json matches Some(s) && (typed matches CallStep::Done(outcome) && shows(
            outcome,
            s@,
            trace,
            context,
        )) && (traced matches CallStep::Done(outcome) && shows(
            outcome,
            s@,
            Some(pipeline),
            context,
        )) && (plain matches CallStep::Done(outcome) && shows(outcome, s@, None, context)),
{
    broadcast use json::group_lookup;

    assert(json::lookup(router@.output_schemas, tool@) is None);
    if let Some(s) = json {
        if let CallStep::Done(outcome) = typed {
            lemma_shows(outcome, s@, trace, context);
        }
        if let CallStep::Done(outcome) = traced {
            lemma_shows(outcome, s@, Some(pipeline), context);
        }
        if let CallStep::Done(outcome) = plain {
            lemma_shows(outcome, s@, None, context);
        }
    }
}

/// What happens to one call leaves every other call of the router as it was.
pub proof fn law_router_leaves_other_calls_alone(
    planning: &mut ExecutionRouter,
    cancelling: &mut ExecutionRouter,
    ending: &mut ExecutionRouter,
    tool: &str,
    extra: Option<&Json>,
    default_version: Option<&str>,
    plan: CallPlan,
    call_id: &str,
    other: &str,
    found: bool,
    before: bool,
    after_plan: bool,
    after_cancel: bool,
    after_end: bool,
)
    requires
        *old(cancelling) == *old(planning),
        *old(ending) == *old(planning),
        cancel::well_kept(old(planning)@.cancel_tokens),
        old(planning)@.cancel_tokens.len() < 4096,
        call_ensures(
            ExecutionRouter::handle_call,
            (planning, tool, extra, default_version),
            plan,
        ),
        call_ensures(ExecutionRouter::cancel_call, (cancelling, call_id), found),
        call_ensures(ExecutionRouter::end_call, (ending, call_id), ()),
        other@ != plan.call_id@,
        other@ != call_id@,
        call_ensures(ExecutionRouter::is_cancelled, (&*old(planning), other), before),
        call_ensures(ExecutionRouter::is_cancelled, (&*final(planning), other), after_plan),
        call_ensures(ExecutionRouter::is_cancelled, (&*final(cancelling), other), after_cancel),
        call_ensures(ExecutionRouter::is_cancelled, (&*final(ending), other), after_end),
    ensures
        after_plan == before,
        after_cancel == before,
        after_end == before,
{
    let all = old(planning)@.cancel_tokens;
    let begun = TokenView { call_id: plan.call_id@, cancelled: plan.cancelled, in_flight: true };
    let rest = cancel::without(all, plan.call_id@);
    cancel::lemma_others_stay(all, plan.call_id@, other@);
    cancel::lemma_others_stay(all, call_id@, other@);
    cancel::lemma_pushed(rest, begun, other@);
    assert(final(planning)@.cancel_tokens == rest.push(begun));
    if cancel::known(all, call_id@) {
        cancel::lemma_marked(all, call_id@, other@);
    } else {
        assert(final(cancelling)@.cancel_tokens == all.push(cancel::tombstone(call_id@)));
        cancel::lemma_pushed(all, cancel::tombstone(call_id@), other@);
    }
}

/// Opening, taking out or closing one connection leaves every other as it is.
pub proof fn law_router_leaves_other_sessions_alone(
    opening: &mut ExecutionRouter,
    taking: &mut ExecutionRouter,
    session: session::McpSession,
    session_id: &str,
    taken: Option<session::McpSession>,
    i: int,
)
    requires
        *old(taking) == *old(opening),
        call_ensures(ExecutionRouter::open_session, (opening, session), ()),
        call_ensures(ExecutionRouter::take_session, (taking, session_id), taken),
        0 <= i < old(opening)@.sessions.len(),
    ensures
        old(opening)@.sessions[i].id != session@.id ==> final(opening)@.sessions.contains(
            old(opening)@.sessions[i],
        ),
        old(opening)@.sessions[i].id != session_id@ ==> final(taking)@.sessions.contains(
            old(opening)@.sessions[i],
        ),
{
    let sessions = old(opening)@.sessions;
    lemma_session_stays(sessions, session@.id, i);
    lemma_session_stays(sessions, session_id@, i);
    if sessions[i].id != session@.id {
        let rest = session::without_id(sessions, session@.id);
        let k = choose|k: int| 0 <= k < rest.len() && rest[k] == sessions[i];
        assert(final(opening)@.sessions[k] == sessions[i]);
    }
}

proof fn lemma_session_stays(sessions: Seq<SessionView>, id: Seq<char>, i: int)
    requires
        0 <= i < sessions.len(),
    ensures
        sessions[i].id != id ==> session::without_id(sessions, id).contains(sessions[i]),
{
    let rest = session::without_id(sessions, id);
    if sessions[i].id != id {
        if session::alive(sessions, id) {
            let p = choose|k: int| session::session_at(sessions, id, k);
            assert(session::session_at(sessions, id, p));
            let k = if i < p {
                i
            } else {
                i - 1
            };
            assert(rest[k] == sessions[i]);
        } else {
            assert(rest[i] == sessions[i]);
        }
    }
}

} // verus!
