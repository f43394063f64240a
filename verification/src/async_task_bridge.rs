//! Tasks that run in the background, and the meta-tools that submit, watch and cancel them.

use crate::approval_bridge;
use crate::json::{self, Entries, Json, JsonObject, JsonView};
use crate::modules::{self, ModuleDescriptor};
use crate::output;
use crate::table::Table;
use crate::task_manager::{self, Tasks};
use crate::text;
use crate::types::{self, Tool, ToolView};
use vstd::prelude::*;

verus! {

/// Names with this prefix belong to the meta-tools.
pub const META_TOOL_PREFIX: &'static str = "__apcore_";

/// The meta-tool that submits a task.
pub const META_TOOL_SUBMIT: &'static str = "__apcore_task_submit";

/// The meta-tool that shows a task.
pub const META_TOOL_STATUS: &'static str = "__apcore_task_status";

/// The meta-tool that cancels a task.
pub const META_TOOL_CANCEL: &'static str = "__apcore_task_cancel";

/// The meta-tool that lists tasks.
pub const META_TOOL_LIST: &'static str = "__apcore_task_list";

/// The meta-tool that previews a call.
pub const META_TOOL_PREVIEW: &'static str = "__apcore_module_preview";

/// How many tasks run at once.
pub const DEFAULT_MAX_CONCURRENT: usize = 10;

/// How many tasks are kept.
pub const DEFAULT_MAX_TASKS: usize = 1000;

/// Whether `module_id` is reserved for meta-tools.
pub open spec fn reserved(module_id: Seq<char>) -> bool {
    text::has_prefix(module_id, META_TOOL_PREFIX@)
}

/// The text under `key`, where it is a string that is not empty.
pub open spec fn filled(arguments: JsonView, key: Seq<char>) -> Option<Seq<char>> {
    match arguments.get(key) {
        Some(JsonView::String(s)) => if s.len() > 0 {
            Some(s)
        } else {
            None
        },
        _ => None,
    }
}

fn filled_text<'a>(arguments: &'a Json, key: &str) -> (r: Option<&'a String>)
    ensures
        r matches Some(s) ==> filled(arguments@, key@) == Some(s@),
        r is None ==> filled(arguments@, key@) is None,
{
    match arguments.get(key) {
        Some(Json::String(s)) => {
            if s.as_str().is_empty() {
                None
            } else {
                Some(s)
            }
        },
        _ => None,
    }
}

/// Whether a hint says that a module runs in the background.
pub open spec fn truthy(hint: Option<JsonView>) -> bool {
    match hint {
        Some(JsonView::Bool(b)) => b,
        Some(JsonView::String(s)) => text::lower(s) == "true"@,
        _ => false,
    }
}

/// Whether the metadata or the annotations of a module say that it runs in the background.
pub open spec fn async_hinted(metadata: Entries, extra: Option<Entries>) -> bool {
    ||| truthy(json::lookup(metadata, "async"@))
    ||| extra matches Some(entries) && truthy(json::lookup(entries, "mcp_async"@))
}

/// Whether a module runs in the background.
pub open spec fn async_module(descriptor: ModuleDescriptor) -> bool {
    async_hinted(
        descriptor.metadata@,
        match descriptor.annotations {
            Some(annotations) => Some(annotations.extra@),
            None => None,
        },
    )
}

fn is_truthy(hint: Option<&Json>) -> (r: bool)
    ensures
        r == truthy(json::ref_view(hint)),
{
    match hint {
        Some(Json::Bool(b)) => *b,
        Some(Json::String(s)) => text::same(text::lowercase(s.as_str()).as_str(), "true"),
        _ => false,
    }
}

/// The state of a task.
#[derive(Debug, Clone, Copy, PartialEq, Eq, Structural)]
pub enum TaskStatus {
    Pending,
    Running,
    Completed,
    Failed,
    Cancelled,
}

/// The name of a state.
pub open spec fn status_name(status: TaskStatus) -> Seq<char> {
    match status {
        TaskStatus::Pending => "pending"@,
        TaskStatus::Running => "running"@,
        TaskStatus::Completed => "completed"@,
        TaskStatus::Failed => "failed"@,
        TaskStatus::Cancelled => "cancelled"@,
    }
}

/// The state that a name means.
pub open spec fn named_status(name: Seq<char>) -> Option<TaskStatus> {
    if name == "pending"@ {
        Some(TaskStatus::Pending)
    } else if name == "running"@ {
        Some(TaskStatus::Running)
    } else if name == "completed"@ {
        Some(TaskStatus::Completed)
    } else if name == "failed"@ {
        Some(TaskStatus::Failed)
    } else if name == "cancelled"@ {
        Some(TaskStatus::Cancelled)
    } else {
        None
    }
}

impl TaskStatus {
    /// The name of the state.
    pub fn name(self) -> (name: &'static str)
        ensures
            name@ == status_name(self),
    {
        match self {
            TaskStatus::Pending => "pending",
            TaskStatus::Running => "running",
            TaskStatus::Completed => "completed",
            TaskStatus::Failed => "failed",
            TaskStatus::Cancelled => "cancelled",
        }
    }

    /// The state that `name` means.
    pub fn from_name(name: &str) -> (status: Option<TaskStatus>)
        ensures
            status == named_status(name@),
    {
        if text::same(name, "pending") {
            Some(TaskStatus::Pending)
        } else if text::same(name, "running") {
            Some(TaskStatus::Running)
        } else if text::same(name, "completed") {
            Some(TaskStatus::Completed)
        } else if text::same(name, "failed") {
            Some(TaskStatus::Failed)
        } else if text::same(name, "cancelled") {
            Some(TaskStatus::Cancelled)
        } else {
            None
        }
    }
}

/// What is known of a task. Points in time are JSON numbers.
#[derive(Debug)]
pub struct TaskRecord {
    pub task_id: String,
    pub module_id: String,
    pub status: TaskStatus,
    pub submitted_at: Json,
    pub started_at: Option<Json>,
    pub completed_at: Option<Json>,
    pub result: Option<Json>,
    pub error: Option<String>,
    pub retry_count: u32,
    pub max_retries: u32,
}

/// The mathematical counterpart of [`TaskRecord`].
#[verifier::ext_equal]
pub struct TaskView {
    pub task_id: Seq<char>,
    pub module_id: Seq<char>,
    pub status: TaskStatus,
    pub submitted_at: JsonView,
    pub started_at: Option<JsonView>,
    pub completed_at: Option<JsonView>,
    pub result: Option<JsonView>,
    pub error: Option<Seq<char>>,
    pub retry_count: int,
    pub max_retries: int,
}

impl View for TaskRecord {
    type V = TaskView;

    open spec fn view(&self) -> TaskView {
        TaskView {
            task_id: self.task_id@,
            module_id: self.module_id@,
            status: self.status,
            submitted_at: self.submitted_at@,
            started_at: json::opt_view(self.started_at),
            completed_at: json::opt_view(self.completed_at),
            result: json::opt_view(self.result),
            error: text::opt_view(self.error),
            retry_count: self.retry_count as int,
            max_retries: self.max_retries as int,
        }
    }
}

impl TaskView {
    /// The task on the wire; what is not known is left out.
    pub open spec fn json(self) -> JsonView {
        JsonView::object().with("task_id"@, JsonView::text(self.task_id)).with(
            "module_id"@,
            JsonView::text(self.module_id),
        ).with("status"@, JsonView::text(status_name(self.status))).with(
            "submitted_at"@,
            self.submitted_at,
        ).with_opt("started_at"@, self.started_at).with_opt(
            "completed_at"@,
            self.completed_at,
        ).with_opt("result"@, self.result).with_opt("error"@, types::text_opt_view(self.error)).with(
            "retry_count"@,
            JsonView::integer(self.retry_count),
        ).with("max_retries"@, JsonView::integer(self.max_retries))
    }
}

impl TaskRecord {
    /// The task on the wire.
    pub fn to_json(&self) -> (json: Json)
        ensures
            json@ == self@.json(),
    {
        let error = match &self.error {
            Some(error) => Some(Json::text(error.as_str())),
            None => None,
        };
        Json::object().with("task_id", Json::text(self.task_id.as_str())).with(
            "module_id",
            Json::text(self.module_id.as_str()),
        ).with("status", Json::text(self.status.name())).with(
            "submitted_at",
            self.submitted_at.clone(),
        ).with_opt("started_at", types::copy_json(&self.started_at)).with_opt(
            "completed_at",
            types::copy_json(&self.completed_at),
        ).with_opt("result", types::copy_json(&self.result)).with_opt("error", error).with(
            "retry_count",
            Json::unsigned(self.retry_count as u64),
        ).with("max_retries", Json::unsigned(self.max_retries as u64))
    }
}

/// What submitting a task gives.
#[derive(Debug)]
pub struct SubmitResult {
    /// The id of the task.
    pub task_id: String,
    /// The state of the task, which is pending.
    pub status: String,
}

/// A check that apcore makes before a call.
#[derive(Debug)]
pub struct PreflightCheck {
    pub check: String,
    pub passed: bool,
    pub error: Option<Json>,
    pub warnings: Vec<String>,
}

/// What apcore's checks before a call say.
#[derive(Debug)]
pub struct PreflightResult {
    pub valid: bool,
    pub checks: Vec<PreflightCheck>,
    pub requires_approval: bool,
    pub predicted_changes: Vec<Json>,
}

/// Texts as an array of strings.
pub open spec fn strings_view(items: Seq<Seq<char>>) -> JsonView {
    JsonView::Array(items.map_values(|item: Seq<char>| JsonView::text(item)))
}

fn strings_json(items: &Vec<String>) -> (json: Json)
    ensures
        json@ == strings_view(text::texts(items@)),
{
    let mut list: Vec<Json> = Vec::new();
    let mut i: usize = 0;
    while i < items.len()
        invariant
            i <= items.len(),
            list.len() == i,
            forall|j: int| 0 <= j < i ==> (#[trigger] list@[j])@ == JsonView::text(items@[j]@),
        decreases items.len() - i,
    {
        list.push(Json::text(items[i].as_str()));
        i = i + 1;
    }
    let json = Json::array(list);
    assert(json@->Array_0 =~= strings_view(text::texts(items@))->Array_0);
    json
}

/// A check on the wire: its error where there is one, its warnings where there are any.
pub open spec fn check_view(check: PreflightCheck) -> JsonView {
    let named = JsonView::object().with("check"@, JsonView::text(check.check@)).with(
        "passed"@,
        JsonView::Bool(check.passed),
    ).with_opt("error"@, json::opt_view(check.error));
    if check.warnings@.len() > 0 {
        named.with("warnings"@, strings_view(text::texts(check.warnings@)))
    } else {
        named
    }
}

/// The check on the wire.
pub fn preflight_check_to_json(check: &PreflightCheck) -> (json: Json)
    ensures
        json@ == check_view(*check),
{
    let named = Json::object().with("check", Json::text(check.check.as_str())).with(
        "passed",
        Json::Bool(check.passed),
    ).with_opt("error", types::copy_json(&check.error));
    if check.warnings.len() > 0 {
        named.with("warnings", strings_json(&check.warnings))
    } else {
        named
    }
}

/// What a call of a meta-tool leads to.
#[derive(Debug)]
pub enum TaskAction {
    /// The name is no meta-tool's.
    NotMeta,
    /// The call is refused with this message.
    Refuse(String),
    /// The call is answered with this.
    Reply(Json),
    /// Submit the module with these inputs.
    Submit { module_id: String, inputs: Json },
    /// Show the task.
    Status(String),
    /// Cancel the task.
    Cancel(String),
    /// List the tasks in this state, or all.
    List(Option<TaskStatus>),
    /// Preview a call of the module with these inputs.
    Preview { module_id: String, inputs: Json },
}

/// The mathematical counterpart of [`TaskAction`].
pub enum TaskActionView {
    NotMeta,
    Refuse(Seq<char>),
    Reply(JsonView),
    Submit { module_id: Seq<char>, inputs: JsonView },
    Status(Seq<char>),
    Cancel(Seq<char>),
    List(Option<TaskStatus>),
    Preview { module_id: Seq<char>, inputs: JsonView },
}

impl View for TaskAction {
    type V = TaskActionView;

    open spec fn view(&self) -> TaskActionView {
        match self {
            TaskAction::NotMeta => TaskActionView::NotMeta,
            TaskAction::Refuse(message) => TaskActionView::Refuse(message@),
            TaskAction::Reply(reply) => TaskActionView::Reply(reply@),
            TaskAction::Submit { module_id, inputs } => TaskActionView::Submit {
                module_id: module_id@,
                inputs: inputs@,
            },
            TaskAction::Status(id) => TaskActionView::Status(id@),
            TaskAction::Cancel(id) => TaskActionView::Cancel(id@),
            TaskAction::List(filter) => TaskActionView::List(*filter),
            TaskAction::Preview { module_id, inputs } => TaskActionView::Preview {
                module_id: module_id@,
                inputs: inputs@,
            },
        }
    }
}

/// What a submission leads to, given whether the module runs in the background.
pub open spec fn submit_action(arguments: JsonView, module_is_async: bool) -> TaskActionView {
    match filled(arguments, "module_id"@) {
        None => TaskActionView::Refuse("__apcore_task_submit requires a non-empty 'module_id'"@),
        Some(id) => if reserved(id) {
            TaskActionView::Refuse(
                "module id '"@ + id
                    + "' is reserved by the async task bridge (__apcore_ prefix)"@,
            )
        } else if !module_is_async {
            TaskActionView::Refuse(
                "ASYNC_MODULE_NOT_ASYNC: module '"@ + id
                    + "' is not async-hinted; use regular tools/call instead of __apcore_task_submit"@,
            )
        } else {
            match arguments.get("arguments"@) {
                None => TaskActionView::Submit { module_id: id, inputs: JsonView::object() },
                Some(JsonView::Null) => TaskActionView::Submit {
                    module_id: id,
                    inputs: JsonView::object(),
                },
                Some(JsonView::Object(entries)) => TaskActionView::Submit {
                    module_id: id,
                    inputs: JsonView::Object(entries),
                },
                Some(_) => TaskActionView::Refuse(
                    "__apcore_task_submit requires `arguments` to be a JSON object"@,
                ),
            }
        },
    }
}

/// What a request for a preview leads to.
pub open spec fn preview_action(arguments: JsonView) -> TaskActionView {
    match filled(arguments, "module_id"@) {
        None => TaskActionView::Refuse("__apcore_module_preview requires a non-empty 'module_id'"@),
        Some(id) => if reserved(id) {
            TaskActionView::Refuse(
                "Reserved module id: '"@ + id
                    + "'. Names starting with '__apcore_' are reserved for apcore-mcp meta-tools and cannot be previewed via this handler."@,
            )
        } else {
            match arguments.get("arguments"@) {
                None => TaskActionView::Preview { module_id: id, inputs: JsonView::Null },
                Some(JsonView::Null) => TaskActionView::Preview {
                    module_id: id,
                    inputs: JsonView::Null,
                },
                Some(JsonView::Object(entries)) => TaskActionView::Preview {
                    module_id: id,
                    inputs: JsonView::Object(entries),
                },
                Some(_) => TaskActionView::Refuse(
                    "__apcore_module_preview requires 'arguments' to be a JSON object or null"@,
                ),
            }
        },
    }
}

/// What a request for a task's state leads to.
pub open spec fn status_action(arguments: JsonView) -> TaskActionView {
    match filled(arguments, "task_id"@) {
        None => TaskActionView::Refuse("__apcore_task_status requires a non-empty 'task_id'"@),
        Some(id) => TaskActionView::Status(id),
    }
}

/// What a request to cancel a task leads to.
pub open spec fn cancel_action(arguments: JsonView) -> TaskActionView {
    match filled(arguments, "task_id"@) {
        None => TaskActionView::Refuse("__apcore_task_cancel requires a non-empty 'task_id'"@),
        Some(id) => TaskActionView::Cancel(id),
    }
}

/// What a request for the list of tasks leads to.
pub open spec fn list_action(arguments: JsonView) -> TaskActionView {
    match arguments.get("status"@) {
        None => TaskActionView::List(None),
        Some(JsonView::Null) => TaskActionView::List(None),
        Some(JsonView::String(name)) => match named_status(name) {
            Some(status) => TaskActionView::List(Some(status)),
            None => TaskActionView::Refuse("unknown task status filter: "@ + name),
        },
        Some(_) => TaskActionView::Refuse("__apcore_task_list `status` filter must be a string"@),
    }
}

/// What a call of the tool `name` leads to, given whether the module that a submission names runs
/// in the background.
pub open spec fn meta_action(
    name: Seq<char>,
    arguments: JsonView,
    module_is_async: bool,
) -> TaskActionView {
    if name == META_TOOL_SUBMIT@ {
        submit_action(arguments, module_is_async)
    } else if name == META_TOOL_STATUS@ {
        status_action(arguments)
    } else if name == META_TOOL_CANCEL@ {
        cancel_action(arguments)
    } else if name == META_TOOL_LIST@ {
        list_action(arguments)
    } else if name == META_TOOL_PREVIEW@ {
        preview_action(arguments)
    } else {
        TaskActionView::NotMeta
    }
}

/// Whether `name` is the name of a meta-tool.
pub open spec fn task_meta_tool(name: Seq<char>) -> bool {
    ||| name == META_TOOL_SUBMIT@
    ||| name == META_TOOL_STATUS@
    ||| name == META_TOOL_CANCEL@
    ||| name == META_TOOL_LIST@
    ||| name == META_TOOL_PREVIEW@
}

/// The answer for a task that is not known.
pub open spec fn not_found_view(task_id: Seq<char>) -> JsonView {
    JsonView::object().with("error"@, JsonView::text("ASYNC_TASK_NOT_FOUND"@)).with(
        "task_id"@,
        JsonView::text(task_id),
    ).with("is_error"@, JsonView::Bool(true))
}

fn not_found_json(task_id: &str) -> (json: Json)
    ensures
        json@ == not_found_view(task_id@),
{
    Json::object().with("error", Json::text("ASYNC_TASK_NOT_FOUND")).with(
        "task_id",
        Json::text(task_id),
    ).with("is_error", Json::Bool(true))
}

/// What a task says, where there is one.
pub open spec fn task_opt_view(task: Option<TaskRecord>) -> Option<TaskView> {
    match task {
        Some(info) => Some(info@),
        None => None,
    }
}

/// What tasks say.
pub open spec fn task_views(tasks: Seq<TaskRecord>) -> Seq<TaskView> {
    tasks.map_values(|task: TaskRecord| task@)
}

/// The answer to a request for the list of tasks.
pub open spec fn list_view(tasks: Seq<TaskView>) -> JsonView {
    JsonView::object().with(
        "tasks"@,
        JsonView::Array(tasks.map_values(|task: TaskView| task.json())),
    )
}

/// What an action comes to, given the task that it names, where there is one, and the tasks that it
/// asks for: what only shows tasks is answered, and so is a request to cancel a task that is not
/// there.
pub open spec fn answered(
    action: TaskActionView,
    found: Option<TaskView>,
    tasks: Seq<TaskView>,
    schemas: Entries,
) -> TaskActionView {
    match action {
        TaskActionView::Status(id) => TaskActionView::Reply(
            match found {
                Some(task) => redacted_task(task, schemas).json(),
                None => not_found_view(id),
            },
        ),
        TaskActionView::Cancel(id) => match found {
            Some(_) => action,
            None => TaskActionView::Reply(not_found_view(id)),
        },
        TaskActionView::List(_) => TaskActionView::Reply(list_view(tasks)),
        _ => action,
    }
}

/// The task that was found is what `manager` gives for the id that the action names, and the tasks
/// that were found are what it gives for the state that the action asks for.
pub open spec fn found_for(
    manager: &apcore::async_task::AsyncTaskManager,
    action: TaskActionView,
    found: Option<TaskView>,
    tasks: Seq<TaskView>,
) -> bool {
    match action {
        TaskActionView::Status(id) => task_manager::status_given(manager, id, found) && (
        found matches Some(task) ==> task.task_id == id),
        TaskActionView::Cancel(id) => task_manager::status_given(manager, id, found) && (
        found matches Some(task) ==> task.task_id == id),
        TaskActionView::List(status) => task_manager::list_given(manager, status, tasks) && (
        status matches Some(wanted) ==> forall|i: int|
            0 <= i < tasks.len() ==> (#[trigger] tasks[i]).status == wanted),
        _ => true,
    }
}

/// Whether the module that a submission names runs in the background is what the registry of
/// `executor` says of it.
pub open spec fn submitted_to(
    executor: &apcore::executor::Executor,
    name: Seq<char>,
    arguments: JsonView,
    module_is_async: bool,
) -> bool {
    name == META_TOOL_SUBMIT@ ==> (filled(arguments, "module_id"@) matches Some(id) ==> exists|
        found: Option<ModuleDescriptor>,
    | #[trigger]
        registered_as(executor, id, found) && module_is_async == found_async(found))
}

/// A notification that a task came further.
pub open spec fn progress_view(
    token: JsonView,
    progress: JsonView,
    total: Option<JsonView>,
    message: Option<Seq<char>>,
) -> JsonView {
    let params = JsonView::object().with("progressToken"@, token).with("progress"@, progress).with(
        "total"@,
        match total {
            Some(n) => n,
            None => JsonView::Null,
        },
    ).with_opt("message"@, types::text_opt_view(message));
    JsonView::object().with("method"@, JsonView::text("notifications/progress"@)).with(
        "params"@,
        params,
    )
}

/// A schema for values of one type.
pub open spec fn typed(kind: Seq<char>) -> JsonView {
    JsonView::object().with("type"@, JsonView::text(kind))
}

fn typed_json(kind: &str) -> (json: Json)
    ensures
        json@ == typed(kind@),
{
    Json::object().with("type", Json::text(kind))
}

/// A schema for objects with these properties and no others. Where `required` names a property, it
/// has to be there.
pub open spec fn closed_schema(properties: JsonView, required: Option<Seq<char>>) -> JsonView {
    JsonView::object().with("type"@, JsonView::text("object"@)).with("properties"@, properties).with_opt(
        "required"@,
        match required {
            Some(name) => Some(strings_view(seq![name])),
            None => None,
        },
    ).with("additionalProperties"@, JsonView::Bool(false))
}

fn closed_schema_json(properties: Json, required: Option<&str>) -> (json: Json)
    ensures
        json@ == closed_schema(properties@, text::ref_view(required)),
{
    let required = match required {
        Some(name) => {
            let mut names: Vec<String> = Vec::new();
            names.push(name.to_string());
            assert(text::texts(names@) =~= seq![name@]);
            Some(strings_json(&names))
        },
        None => None,
    };
    Json::object().with("type", Json::text("object")).with("properties", properties).with_opt(
        "required",
        required,
    ).with("additionalProperties", Json::Bool(false))
}

/// What the meta-tool that submits a task says of itself.
pub const SUBMIT_DESCRIPTION: &'static str = "Submit a module for asynchronous execution via apcore's AsyncTaskManager.";

/// What the meta-tool that shows a task says of itself.
pub const STATUS_DESCRIPTION: &'static str = "Query the TaskInfo projection for a previously submitted task.";

/// What the meta-tool that cancels a task says of itself.
pub const CANCEL_DESCRIPTION: &'static str = "Cancel a pending or running async task.";

/// What the meta-tool that lists tasks says of itself.
pub const LIST_DESCRIPTION: &'static str = "List all tracked tasks, optionally filtered by status (pending/running/completed/failed/cancelled).";

/// What the meta-tool that previews a call says of itself.
pub const PREVIEW_DESCRIPTION: &'static str = "Preview a module call: predict state changes, validate inputs, and check approval requirements WITHOUT executing the module. Returns {valid, requires_approval, predicted_changes, checks}. Use this before invoking destructive or stateful modules to let the AI orchestrator answer 'what would change in the world if I called this?' (apcore PROTOCOL_SPEC §5.6).";

/// A meta-tool.
pub open spec fn meta_tool(
    name: Seq<char>,
    description: Seq<char>,
    input_schema: JsonView,
) -> ToolView {
    ToolView {
        name,
        description,
        input_schema,
        annotations: None,
        meta: Some(approval_bridge::reserved_meta()),
    }
}

fn make_meta_tool(name: &str, description: &str, input_schema: Json) -> (tool: Tool)
    ensures
        tool@ == meta_tool(name@, description@, input_schema@),
{
    Tool {
        name: name.to_string(),
        description: description.to_string(),
        input_schema,
        annotations: None,
        meta: Some(Json::object().with("reserved", Json::Bool(true))),
    }
}

/// The names of the states, as a schema lists them.
pub open spec fn status_names() -> Seq<Seq<char>> {
    seq!["pending"@, "running"@, "completed"@, "failed"@, "cancelled"@]
}

/// The meta-tools.
pub open spec fn task_tools() -> Seq<ToolView> {
    seq![
        meta_tool(
            META_TOOL_SUBMIT@,
            SUBMIT_DESCRIPTION@,
            closed_schema(
                JsonView::object().with("module_id"@, typed("string"@)).with(
                    "arguments"@,
                    typed("object"@),
                ).with("version_hint"@, typed("string"@)),
                Some("module_id"@),
            ),
        ),
        meta_tool(
            META_TOOL_STATUS@,
            STATUS_DESCRIPTION@,
            closed_schema(
                JsonView::object().with("task_id"@, typed("string"@)),
                Some("task_id"@),
            ),
        ),
        meta_tool(
            META_TOOL_CANCEL@,
            CANCEL_DESCRIPTION@,
            closed_schema(
                JsonView::object().with("task_id"@, typed("string"@)),
                Some("task_id"@),
            ),
        ),
        meta_tool(
            META_TOOL_LIST@,
            LIST_DESCRIPTION@,
            closed_schema(
                JsonView::object().with(
                    "status"@,
                    typed("string"@).with("enum"@, strings_view(status_names())),
                ),
                None,
            ),
        ),
        meta_tool(
            META_TOOL_PREVIEW@,
            PREVIEW_DESCRIPTION@,
            closed_schema(
                JsonView::object().with("module_id"@, typed("string"@)).with(
                    "arguments"@,
                    typed("object"@),
                ),
                Some("module_id"@),
            ),
        ),
    ]
}

/// The tasks that a session launched, in their order.
pub open spec fn tasks_of(pairs: Seq<(Seq<char>, Seq<char>)>, session: Seq<char>) -> Seq<Seq<char>>
    decreases pairs.len(),
{
    if pairs.len() == 0 {
        Seq::empty()
    } else if pairs.last().0 == session {
        tasks_of(pairs.drop_last(), session).push(pairs.last().1)
    } else {
        tasks_of(pairs.drop_last(), session)
    }
}

/// The pairs of the other sessions.
pub open spec fn without_session(
    pairs: Seq<(Seq<char>, Seq<char>)>,
    session: Seq<char>,
) -> Seq<(Seq<char>, Seq<char>)>
    decreases pairs.len(),
{
    if pairs.len() == 0 {
        Seq::empty()
    } else if pairs.last().0 == session {
        without_session(pairs.drop_last(), session)
    } else {
        without_session(pairs.drop_last(), session).push(pairs.last())
    }
}

/// How many outcomes are good.
pub open spec fn how_many(outcomes: Seq<bool>) -> nat
    decreases outcomes.len(),
{
    if outcomes.len() == 0 {
        0
    } else {
        how_many(outcomes.drop_last()) + if outcomes.last() {
            1nat
        } else {
            0nat
        }
    }
}

/// What pairs of strings hold.
pub open spec fn pairs_view(pairs: Seq<(String, String)>) -> Seq<(Seq<char>, Seq<char>)> {
    pairs.map_values(|pair: (String, String)| (pair.0@, pair.1@))
}

/// What a table of documents holds.
pub open spec fn table_view(table: Map<Seq<char>, Json>) -> Map<Seq<char>, JsonView> {
    table.map_values(|json: Json| json@)
}

/// `apcore::executor::Executor::registry`: the registry whose modules the executor runs. Nothing is
/// said of it, as its contents change.
pub assume_specification[ apcore::executor::Executor::registry ](
    executor: &apcore::executor::Executor,
) -> (registry: &apcore::registry::Registry)
;

/// `r` is what a lookup of `module_id` in the registry of `executor` can give, as the registry's
/// modules come and go.
pub open spec fn registered_as(
    executor: &apcore::executor::Executor,
    module_id: Seq<char>,
    r: Option<ModuleDescriptor>,
) -> bool {
    exists|registry: &apcore::registry::Registry| #[trigger]
        call_ensures(apcore::executor::Executor::registry, (executor,), registry)
            && modules::looked_up(registry, module_id, r)
}

/// Whether there is a module and it runs in the background.
pub open spec fn found_async(found: Option<ModuleDescriptor>) -> bool {
    match found {
        Some(descriptor) => async_module(descriptor),
        None => false,
    }
}

/// Keeps what the server has to remember of the tasks that run in the background.
pub struct AsyncTaskBridge {
    tasks: Tasks,
    executor: std::sync::Arc<apcore::executor::Executor>,
    output_schemas: JsonObject,
    progress_tokens: Table<Json>,
    session_tasks: Vec<(String, String)>,
}

/// The mathematical counterpart of [`AsyncTaskBridge`].
#[verifier::ext_equal]
pub struct BridgeView {
    /// The schemas of modules' results, by module.
    pub output_schemas: Entries,
    /// The tokens under which clients hear of tasks, by task.
    pub progress_tokens: Map<Seq<char>, JsonView>,
    /// Sessions with the tasks that they launched, in the order of launching.
    pub session_tasks: Seq<(Seq<char>, Seq<char>)>,
}

impl View for AsyncTaskBridge {
    type V = BridgeView;

    closed spec fn view(&self) -> BridgeView {
        BridgeView {
            output_schemas: self.output_schemas@,
            progress_tokens: table_view(self.progress_tokens@),
            session_tasks: pairs_view(self.session_tasks@),
        }
    }
}

/// What a bridge remembers that knows of no task.
pub open spec fn no_tasks() -> BridgeView {
    BridgeView {
        output_schemas: json::no_entries(),
        progress_tokens: Map::empty(),
        session_tasks: Seq::empty(),
    }
}

/// A task with its result redacted, where it is complete and its module's results have a schema.
pub open spec fn redacted_task(task: TaskView, schemas: Entries) -> TaskView {
    if task.status == TaskStatus::Completed {
        TaskView {
            result: match task.result {
                Some(result) => Some(
                    output::redacted_under(result, json::lookup(schemas, task.module_id)),
                ),
                None => None,
            },
            ..task
        }
    } else {
        task
    }
}

impl AsyncTaskBridge {
    /// A bridge that knows of no task.
    pub fn new(executor: std::sync::Arc<apcore::executor::Executor>) -> (bridge: AsyncTaskBridge)
        ensures
            bridge@ == no_tasks(),
            task_manager::keeps_in_memory(bridge.runs_on()),
            task_manager::max_concurrent_of(bridge.runs_on()) == DEFAULT_MAX_CONCURRENT,
            task_manager::max_tasks_of(bridge.runs_on()) == DEFAULT_MAX_TASKS,
            task_manager::executor_of(bridge.runs_on()) == *executor,
            bridge.runs_with() == *executor,
    {
        Self::with_limits(executor, DEFAULT_MAX_CONCURRENT, DEFAULT_MAX_TASKS)
    }

    /// A bridge that knows of no task, with these limits on how many tasks run at once and how many
    /// are kept.
    pub fn with_limits(
        executor: std::sync::Arc<apcore::executor::Executor>,
        max_concurrent: usize,
        max_tasks: usize,
    ) -> (bridge: AsyncTaskBridge)
        requires
            max_concurrent <= usize::MAX / 8,
        ensures
            bridge@ == no_tasks(),
            task_manager::keeps_in_memory(bridge.runs_on()),
            task_manager::max_concurrent_of(bridge.runs_on()) == max_concurrent,
            task_manager::max_tasks_of(bridge.runs_on()) == max_tasks,
            task_manager::executor_of(bridge.runs_on()) == *executor,
            bridge.runs_with() == *executor,
    {
        let bridge = AsyncTaskBridge {
            tasks: Tasks::new(executor.clone(), max_concurrent, max_tasks),
            executor,
            output_schemas: JsonObject::new(),
            progress_tokens: Table::new(),
            session_tasks: Vec::new(),
        };
        assert(bridge@ =~= no_tasks());
        bridge
    }

    /// The manager that runs the tasks.
    pub fn manager(&self) -> (manager: &std::sync::Arc<apcore::async_task::AsyncTaskManager>)
        ensures
            **manager == self.runs_on(),
    {
        self.tasks.manager()
    }

    /// The manager that runs the tasks.
    pub closed spec fn runs_on(self) -> apcore::async_task::AsyncTaskManager {
        self.tasks.of()
    }

    /// The executor whose modules the tasks are.
    pub closed spec fn runs_with(self) -> apcore::executor::Executor {
        *self.executor
    }

    /// The bridge with these schemas for results.
    pub fn with_output_schemas(self, schemas: JsonObject) -> (bridge: AsyncTaskBridge)
        ensures
            bridge@ == (BridgeView { output_schemas: schemas@, ..self@ }),
            bridge.runs_on() == self.runs_on(),
            bridge.runs_with() == self.runs_with(),
    {
        let mut bridge = self;
        bridge.output_schemas = schemas;
        bridge
    }

    /// Whether a module runs in the background.
    pub fn is_async_module_descriptor(descriptor: &ModuleDescriptor) -> (r: bool)
        ensures
            r == async_module(*descriptor),
    {
        let extra = match &descriptor.annotations {
            Some(annotations) => Some(&annotations.extra),
            None => None,
        };
        Self::is_async_module(&descriptor.metadata, extra)
    }

    /// Whether the metadata or the annotations of a module say that it runs in the background.
    pub fn is_async_module(metadata: &JsonObject, annotations_extra: Option<&JsonObject>) -> (r:
        bool)
        ensures
            r == async_hinted(
                metadata@,
                match annotations_extra {
                    Some(extra) => Some(extra@),
                    None => None,
                },
            ),
    {
        if is_truthy(metadata.get("async")) {
            return true;
        }
        match annotations_extra {
            Some(extra) => is_truthy(extra.get("mcp_async")),
            None => false,
        }
    }

    /// Whether the module that is registered as `module_id` at the moment runs in the background.
    pub fn is_async_registered(registry: &apcore::registry::Registry, module_id: &str) -> (r: bool)
        ensures
            module_id@.len() == 0 ==> !r,
            exists|found: Option<ModuleDescriptor>| #[trigger]
                modules::looked_up(registry, module_id@, found) && r == found_async(found),
    {
        match modules::definition(registry, module_id) {
            Some(descriptor) => Self::is_async_module_descriptor(&descriptor),
            None => false,
        }
    }

    /// Whether the module that the executor has as `module_id` at the moment runs in the background.
    pub fn is_async_module_registered_self(&self, module_id: &str) -> (r: bool)
        ensures
            module_id@.len() == 0 ==> !r,
            exists|found: Option<ModuleDescriptor>| #[trigger]
                registered_as(&self.runs_with(), module_id@, found) && r == found_async(found),
    {
        let registry = self.executor.registry();
        assert(call_ensures(
            apcore::executor::Executor::registry,
            (&*self.executor,),
            registry,
        ));
        let r = Self::is_async_registered(registry, module_id);
        proof {
            let found = choose|found: Option<ModuleDescriptor>| #[trigger]
                modules::looked_up(registry, module_id@, found) && r == found_async(found);
            assert(registered_as(&self.runs_with(), module_id@, found));
        }
        r
    }

    /// Whether `module_id` is reserved for meta-tools.
    pub fn is_reserved_id(module_id: &str) -> (r: bool)
        ensures
            r == reserved(module_id@),
    {
        text::starts_with(module_id, META_TOOL_PREFIX)
    }

    /// Whether `name` is the name of a meta-tool.
    pub fn is_meta_tool(name: &str) -> (r: bool)
        ensures
            r == task_meta_tool(name@),
    {
        text::same(name, META_TOOL_SUBMIT) || text::same(name, META_TOOL_STATUS) || text::same(
            name,
            META_TOOL_CANCEL,
        ) || text::same(name, META_TOOL_LIST) || text::same(name, META_TOOL_PREVIEW)
    }

    /// Takes note of a task that was submitted: of the token under which its client hears of it,
    /// where there is one and a way to send, and of the session that launched it.
    pub fn submit(
        &mut self,
        task_id: &str,
        progress_token: Option<Json>,
        has_sender: bool,
        session_key: Option<&str>,
    ) -> (result: SubmitResult)
        ensures
            result.task_id@ == task_id@,
            result.status@ == "pending"@,
            final(self)@ == bridge_after(
                old(self)@,
                BridgeEvent::Submitted {
                    task: task_id@,
                    token: if has_sender {
                        json::opt_view(progress_token)
                    } else {
                        None
                    },
                    session: text::ref_view(session_key),
                },
            ),
            final(self).runs_on() == old(self).runs_on(),
            final(self).runs_with() == old(self).runs_with(),
    {
        let ghost before = *self;
        if has_sender {
            if let Some(token) = progress_token {
                self.progress_tokens.insert(task_id, token);
                assert(table_view(self.progress_tokens@) =~= table_view(
                    before.progress_tokens@,
                ).insert(task_id@, token@));
            }
        }
        if let Some(session) = session_key {
            self.session_tasks.push((session.to_string(), task_id.to_string()));
            assert(pairs_view(self.session_tasks@) =~= pairs_view(before.session_tasks@).push(
                (session@, task_id@),
            ));
        }
        SubmitResult { task_id: task_id.to_string(), status: "pending".to_string() }
    }

    /// The notification that a task came further; nothing where nobody is to hear of it. `progress`
    /// and `total` are numbers, or null where they are none.
    pub fn emit_progress(
        &self,
        task_id: &str,
        progress: Json,
        total: Option<Json>,
        message: Option<&str>,
    ) -> (notification: Option<Json>)
        ensures
            match notification {
                Some(json) => self@.progress_tokens.contains_key(task_id@) && json@
                    == progress_view(
                    self@.progress_tokens[task_id@],
                    progress@,
                    json::opt_view(total),
                    text::ref_view(message),
                ),
                None => !self@.progress_tokens.contains_key(task_id@),
            },
    {
        let token = match self.progress_tokens.get(task_id) {
            Some(token) => token.clone(),
            None => {
                return None;
            },
        };
        let total = match total {
            Some(n) => n,
            None => Json::Null,
        };
        let params = Json::object().with("progressToken", token).with("progress", progress).with(
            "total",
            total,
        ).with_opt("message", types::text_opt_json(message));
        Some(
            Json::object().with("method", Json::text("notifications/progress")).with(
                "params",
                params,
            ),
        )
    }

    /// The task with the id `task_id` as it may be shown, where there is one at the moment.
    pub fn get_status(&self, task_id: &str) -> (r: Option<TaskRecord>)
        ensures
            r matches Some(shown) ==> shown@.task_id == task_id@,
            exists|found: Option<TaskView>| #[trigger]
                task_manager::status_given(&self.runs_on(), task_id@, found) && task_opt_view(r)
                    == (match found {
                    Some(task) => Some(redacted_task(task, self@.output_schemas)),
                    None => None,
                }),
    {
        let found = self.tasks.status(task_id);
        assert(task_manager::status_given(&self.runs_on(), task_id@, task_opt_view(found)));
        match found {
            Some(info) => Some(self.shown(info)),
            None => None,
        }
    }

    /// The tasks that are in this state at the moment, or all.
    pub fn list_tasks(&self, status: Option<TaskStatus>) -> (tasks: Vec<TaskRecord>)
        ensures
            forall|i: int|
                0 <= i < tasks.len() ==> (status matches Some(wanted) ==> (
                #[trigger] tasks@[i])@.status == wanted),
            task_manager::list_given(&self.runs_on(), status, task_views(tasks@)),
    {
        self.tasks.list(status)
    }

    /// The task as it may be shown: its result redacted where it is complete.
    pub fn shown(&self, info: TaskRecord) -> (shown: TaskRecord)
        ensures
            shown@ == redacted_task(info@, self@.output_schemas),
    {
        let ghost task = info@;
        let mut info = info;
        if info.status == TaskStatus::Completed {
            if let Some(result) = &info.result {
                if let Some(schema) = self.output_schemas.get(info.module_id.as_str()) {
                    let redacted = output::redact(result, schema);
                    info.result = Some(redacted);
                }
            }
        }
        assert(info@ =~= redacted_task(task, self@.output_schemas));
        info
    }

    /// Forgets the token of a task that was cancelled.
    pub fn cancel(&mut self, task_id: &str)
        ensures
            final(self)@ == bridge_after(old(self)@, BridgeEvent::Cancelled(task_id@)),
            final(self).runs_on() == old(self).runs_on(),
            final(self).runs_with() == old(self).runs_with(),
    {
        let ghost before = *self;
        self.progress_tokens.remove(task_id);
        assert(table_view(self.progress_tokens@) =~= table_view(before.progress_tokens@).remove(
            task_id@,
        ));
    }

    /// Gives the tasks that a session launched, which are to be cancelled, and forgets them.
    pub fn cancel_session_tasks(&mut self, session_key: &str) -> (ids: Vec<String>)
        ensures
            text::texts(ids@) == tasks_of(old(self)@.session_tasks, session_key@),
            final(self)@ == bridge_after(old(self)@, BridgeEvent::Disconnected(session_key@)),
            final(self).runs_on() == old(self).runs_on(),
            final(self).runs_with() == old(self).runs_with(),
    {
        let ghost pairs = pairs_view(self.session_tasks@);
        let mut ids: Vec<String> = Vec::new();
        let mut rest: Vec<(String, String)> = Vec::new();
        let mut i: usize = 0;
        assert(text::texts(ids@) =~= tasks_of(pairs.take(0), session_key@));
        assert(pairs_view(rest@) =~= without_session(pairs.take(0), session_key@));
        while i < self.session_tasks.len()
            invariant
                i <= self.session_tasks.len(),
                pairs == pairs_view(self.session_tasks@),
                *self == *old(self),
                text::texts(ids@) == tasks_of(pairs.take(i as int), session_key@),
                pairs_view(rest@) == without_session(pairs.take(i as int), session_key@),
            decreases self.session_tasks.len() - i,
        {
            let ghost ids_before = text::texts(ids@);
            let ghost rest_before = pairs_view(rest@);
            assert(pairs.take(i + 1).drop_last() =~= pairs.take(i as int));
            assert(pairs.take(i + 1).last() == pairs[i as int]);
            let session = self.session_tasks[i].0.clone();
            let task = self.session_tasks[i].1.clone();
            if text::same(session.as_str(), session_key) {
                ids.push(task);
                assert(text::texts(ids@) =~= ids_before.push(pairs[i as int].1));
            } else {
                rest.push((session, task));
                assert(pairs_view(rest@) =~= rest_before.push(pairs[i as int]));
            }
            i = i + 1;
        }
        assert(pairs.take(pairs.len() as int) =~= pairs);
        self.session_tasks = rest;
        ids
    }

    /// How many of the tasks that were to be cancelled were.
    pub fn count_cancelled(outcomes: &Vec<bool>) -> (n: usize)
        ensures
            n == how_many(outcomes@),
    {
        let mut n: usize = 0;
        let mut i: usize = 0;
        while i < outcomes.len()
            invariant
                i <= outcomes.len(),
                n <= i,
                n == how_many(outcomes@.take(i as int)),
            decreases outcomes.len() - i,
        {
            assert(outcomes@.take(i + 1).drop_last() =~= outcomes@.take(i as int));
            if outcomes[i] {
                n = n + 1;
            }
            i = i + 1;
        }
        assert(outcomes@.take(outcomes@.len() as int) =~= outcomes@);
        n
    }

    /// The meta-tools.
    pub fn build_meta_tools() -> (tools: Vec<Tool>)
        ensures
            types::tool_views(tools@) == task_tools(),
    {
        let mut names: Vec<String> = Vec::new();
        names.push("pending".to_string());
        names.push("running".to_string());
        names.push("completed".to_string());
        names.push("failed".to_string());
        names.push("cancelled".to_string());
        assert(text::texts(names@) =~= status_names());
        let mut tools: Vec<Tool> = Vec::new();
        tools.push(
            make_meta_tool(
                META_TOOL_SUBMIT,
                SUBMIT_DESCRIPTION,
                closed_schema_json(
                    Json::object().with("module_id", typed_json("string")).with(
                        "arguments",
                        typed_json("object"),
                    ).with("version_hint", typed_json("string")),
                    Some("module_id"),
                ),
            ),
        );
        tools.push(
            make_meta_tool(
                META_TOOL_STATUS,
                STATUS_DESCRIPTION,
                closed_schema_json(
                    Json::object().with("task_id", typed_json("string")),
                    Some("task_id"),
                ),
            ),
        );
        tools.push(
            make_meta_tool(
                META_TOOL_CANCEL,
                CANCEL_DESCRIPTION,
                closed_schema_json(
                    Json::object().with("task_id", typed_json("string")),
                    Some("task_id"),
                ),
            ),
        );
        tools.push(
            make_meta_tool(
                META_TOOL_LIST,
                LIST_DESCRIPTION,
                closed_schema_json(
                    Json::object().with(
                        "status",
                        typed_json("string").with("enum", strings_json(&names)),
                    ),
                    None,
                ),
            ),
        );
        tools.push(
            make_meta_tool(
                META_TOOL_PREVIEW,
                PREVIEW_DESCRIPTION,
                closed_schema_json(
                    Json::object().with("module_id", typed_json("string")).with(
                        "arguments",
                        typed_json("object"),
                    ),
                    Some("module_id"),
                ),
            ),
        );
        assert(types::tool_views(tools@) =~= task_tools());
        tools
    }

    /// What a call of the tool `tool_name` comes to, as the modules and tasks are at the moment.
    pub fn handle_meta_tool(&self, tool_name: &str, arguments: &Json) -> (action: TaskAction)
        ensures
            exists|module_is_async: bool, found: Option<TaskView>, tasks: Seq<TaskView>|
                submitted_to(&self.runs_with(), tool_name@, arguments@, module_is_async)
                    && found_for(
                    &self.runs_on(),
                    meta_action(tool_name@, arguments@, module_is_async),
                    found,
                    tasks,
                ) && action@ == #[trigger] answered(
                    meta_action(tool_name@, arguments@, module_is_async),
                    found,
                    tasks,
                    self@.output_schemas,
                ),
    {
        let mut module_is_async = false;
        if text::same(tool_name, META_TOOL_SUBMIT) {
            if let Some(id) = filled_text(arguments, "module_id") {
                module_is_async = self.is_async_module_registered_self(id.as_str());
            }
        }
        assert(submitted_to(&self.runs_with(), tool_name@, arguments@, module_is_async));
        let decided = Self::decide_meta_tool(tool_name, arguments, module_is_async);
        let found = match &decided {
            TaskAction::Status(id) | TaskAction::Cancel(id) => self.tasks.status(id.as_str()),
            _ => None,
        };
        let tasks = match &decided {
            TaskAction::List(status) => self.list_tasks(*status),
            _ => Vec::new(),
        };
        let ghost seen = task_opt_view(found);
        let ghost listed = task_views(tasks@);
        let action = self.answer(decided, found, tasks);
        assert(found_for(
            &self.runs_on(),
            meta_action(tool_name@, arguments@, module_is_async),
            seen,
            listed,
        ));
        action
    }

    /// What an action comes to, given the task that it names, where there is one, and the tasks that
    /// it asks for.
    pub fn answer(&self, action: TaskAction, found: Option<TaskRecord>, tasks: Vec<TaskRecord>) -> (r:
        TaskAction)
        ensures
            r@ == answered(
                action@,
                task_opt_view(found),
                task_views(tasks@),
                self@.output_schemas,
            ),
    {
        match action {
            TaskAction::Status(id) => TaskAction::Reply(self.status_reply(id.as_str(), found)),
            TaskAction::Cancel(id) => match found {
                Some(_) => TaskAction::Cancel(id),
                None => TaskAction::Reply(not_found_json(id.as_str())),
            },
            TaskAction::List(_) => TaskAction::Reply(Self::list_reply(&tasks)),
            other => other,
        }
    }

    /// What a call of the tool `tool_name` leads to, given whether the module that a submission
    /// names runs in the background.
    pub fn decide_meta_tool(tool_name: &str, arguments: &Json, module_is_async: bool) -> (action:
        TaskAction)
        ensures
            action@ == meta_action(tool_name@, arguments@, module_is_async),
    {
        if text::same(tool_name, META_TOOL_SUBMIT) {
            Self::handle_submit(arguments, module_is_async)
        } else if text::same(tool_name, META_TOOL_STATUS) {
            Self::handle_status(arguments)
        } else if text::same(tool_name, META_TOOL_CANCEL) {
            Self::handle_cancel(arguments)
        } else if text::same(tool_name, META_TOOL_LIST) {
            Self::handle_list(arguments)
        } else if text::same(tool_name, META_TOOL_PREVIEW) {
            Self::handle_preview(arguments)
        } else {
            TaskAction::NotMeta
        }
    }

    /// What a submission leads to.
    pub fn handle_submit(arguments: &Json, module_is_async: bool) -> (action: TaskAction)
        ensures
            action@ == submit_action(arguments@, module_is_async),
    {
        let module_id = match filled_text(arguments, "module_id") {
            Some(id) => id,
            None => {
                return TaskAction::Refuse(
                    "__apcore_task_submit requires a non-empty 'module_id'".to_string(),
                );
            },
        };
        if Self::is_reserved_id(module_id.as_str()) {
            return TaskAction::Refuse(
                "module id '".to_string().concat(module_id.as_str()).concat(
                    "' is reserved by the async task bridge (__apcore_ prefix)",
                ),
            );
        }
        if !module_is_async {
            return TaskAction::Refuse(
                "ASYNC_MODULE_NOT_ASYNC: module '".to_string().concat(module_id.as_str()).concat(
                    "' is not async-hinted; use regular tools/call instead of __apcore_task_submit",
                ),
            );
        }
        match arguments.get("arguments") {
            None | Some(Json::Null) => TaskAction::Submit {
                module_id: module_id.clone(),
                inputs: Json::object(),
            },
            Some(Json::Object(object)) => TaskAction::Submit {
                module_id: module_id.clone(),
                inputs: Json::Object(object.clone()),
            },
            Some(_) => TaskAction::Refuse(
                "__apcore_task_submit requires `arguments` to be a JSON object".to_string(),
            ),
        }
    }

    /// What a request for a task's state leads to.
    pub fn handle_status(arguments: &Json) -> (action: TaskAction)
        ensures
            action@ == status_action(arguments@),
    {
        match filled_text(arguments, "task_id") {
            Some(id) => TaskAction::Status(id.clone()),
            None => TaskAction::Refuse(
                "__apcore_task_status requires a non-empty 'task_id'".to_string(),
            ),
        }
    }

    /// What a request to cancel a task leads to.
    pub fn handle_cancel(arguments: &Json) -> (action: TaskAction)
        ensures
            action@ == cancel_action(arguments@),
    {
        match filled_text(arguments, "task_id") {
            Some(id) => TaskAction::Cancel(id.clone()),
            None => TaskAction::Refuse(
                "__apcore_task_cancel requires a non-empty 'task_id'".to_string(),
            ),
        }
    }

    /// What a request for the list of tasks leads to.
    pub fn handle_list(arguments: &Json) -> (action: TaskAction)
        ensures
            action@ == list_action(arguments@),
    {
        match arguments.get("status") {
            None | Some(Json::Null) => TaskAction::List(None),
            Some(Json::String(name)) => match TaskStatus::from_name(name.as_str()) {
                Some(status) => TaskAction::List(Some(status)),
                None => TaskAction::Refuse(
                    "unknown task status filter: ".to_string().concat(name.as_str()),
                ),
            },
            Some(_) => TaskAction::Refuse(
                "__apcore_task_list `status` filter must be a string".to_string(),
            ),
        }
    }

    /// What a request for a preview leads to.
    pub fn handle_preview(arguments: &Json) -> (action: TaskAction)
        ensures
            action@ == preview_action(arguments@),
    {
        let module_id = match filled_text(arguments, "module_id") {
            Some(id) => id,
            None => {
                return TaskAction::Refuse(
                    "__apcore_module_preview requires a non-empty 'module_id'".to_string(),
                );
            },
        };
        if Self::is_reserved_id(module_id.as_str()) {
            return TaskAction::Refuse(
                "Reserved module id: '".to_string().concat(module_id.as_str()).concat(
                    "'. Names starting with '__apcore_' are reserved for apcore-mcp meta-tools and cannot be previewed via this handler.",
                ),
            );
        }
        match arguments.get("arguments") {
            None | Some(Json::Null) => TaskAction::Preview {
                module_id: module_id.clone(),
                inputs: Json::Null,
            },
            Some(Json::Object(object)) => TaskAction::Preview {
                module_id: module_id.clone(),
                inputs: Json::Object(object.clone()),
            },
            Some(_) => TaskAction::Refuse(
                "__apcore_module_preview requires 'arguments' to be a JSON object or null".to_string(),
            ),
        }
    }

    /// The answer to a submission.
    pub fn submit_reply(result: &SubmitResult) -> (json: Json)
        ensures
            json@ == JsonView::object().with("task_id"@, JsonView::text(result.task_id@)).with(
                "status"@,
                JsonView::text(result.status@),
            ),
    {
        Json::object().with("task_id", Json::text(result.task_id.as_str())).with(
            "status",
            Json::text(result.status.as_str()),
        )
    }

    /// The answer to a request for the state of `task_id`: the task as it may be shown, or that
    /// there is none.
    fn status_reply(&self, task_id: &str, info: Option<TaskRecord>) -> (json: Json)
        ensures
            json@ == (match info {
                Some(task) => redacted_task(task@, self@.output_schemas).json(),
                None => not_found_view(task_id@),
            }),
    {
        match info {
            Some(task) => self.shown(task).to_json(),
            None => not_found_json(task_id),
        }
    }

    /// The answer to a request to cancel `task_id`: whether it was cancelled.
    pub fn cancel_reply(task_id: &str, cancelled: bool) -> (json: Json)
        ensures
            json@ == JsonView::object().with("task_id"@, JsonView::text(task_id@)).with(
                "cancelled"@,
                JsonView::Bool(cancelled),
            ),
    {
        Json::object().with("task_id", Json::text(task_id)).with(
            "cancelled",
            Json::Bool(cancelled),
        )
    }

    /// The answer to a request for the list of tasks.
    fn list_reply(tasks: &Vec<TaskRecord>) -> (json: Json)
        ensures
            json@ == list_view(task_views(tasks@)),
    {
        let mut list: Vec<Json> = Vec::new();
        let mut i: usize = 0;
        while i < tasks.len()
            invariant
                i <= tasks.len(),
                list.len() == i,
                forall|j: int| 0 <= j < i ==> (#[trigger] list@[j])@ == tasks@[j]@.json(),
            decreases tasks.len() - i,
        {
            list.push(tasks[i].to_json());
            i = i + 1;
        }
        assert(json::views(list@) =~= task_views(tasks@).map_values(|task: TaskView| task.json()));
        Json::object().with("tasks", Json::array(list))
    }

    /// The answer to a request for a preview: what apcore's checks say.
    pub fn preview_reply(preflight: &PreflightResult) -> (json: Json)
        ensures
            json@ == JsonView::object().with("valid"@, JsonView::Bool(preflight.valid)).with(
                "requires_approval"@,
                JsonView::Bool(preflight.requires_approval),
            ).with(
                "predicted_changes"@,
                JsonView::Array(json::views(preflight.predicted_changes@)),
            ).with(
                "checks"@,
                JsonView::Array(
                    preflight.checks@.map_values(|check: PreflightCheck| check_view(check)),
                ),
            ),
    {
        let mut checks: Vec<Json> = Vec::new();
        let mut i: usize = 0;
        while i < preflight.checks.len()
            invariant
                i <= preflight.checks.len(),
                checks.len() == i,
                forall|j: int|
                    0 <= j < i ==> (#[trigger] checks@[j])@ == check_view(preflight.checks@[j]),
            decreases preflight.checks.len() - i,
        {
            checks.push(preflight_check_to_json(&preflight.checks[i]));
            i = i + 1;
        }
        assert(json::views(checks@) =~= preflight.checks@.map_values(
            |check: PreflightCheck| check_view(check),
        ));
        let mut predicted: Vec<Json> = Vec::new();
        let mut k: usize = 0;
        while k < preflight.predicted_changes.len()
            invariant
                k <= preflight.predicted_changes.len(),
                predicted.len() == k,
                forall|j: int|
                    0 <= j < k ==> (#[trigger] predicted@[j])@ == preflight.predicted_changes@[j]@,
            decreases preflight.predicted_changes.len() - k,
        {
            predicted.push(preflight.predicted_changes[k].clone());
            k = k + 1;
        }
        assert(json::views(predicted@) =~= json::views(preflight.predicted_changes@));
        Json::object().with("valid", Json::Bool(preflight.valid)).with(
            "requires_approval",
            Json::Bool(preflight.requires_approval),
        ).with("predicted_changes", Json::array(predicted)).with("checks", Json::array(checks))
    }
}

/// The names of all meta-tools are reserved, so that no module can stand in their place.
pub proof fn law_meta_tools_are_reserved(i: int)
    requires
        0 <= i < task_tools().len(),
    ensures
        reserved(task_tools()[i].name),
        task_meta_tool(task_tools()[i].name),
        reserved(approval_bridge::check_tool().name),
{
    reveal_strlit("__apcore_");
    reveal_strlit("__apcore_task_submit");
    reveal_strlit("__apcore_task_status");
    reveal_strlit("__apcore_task_cancel");
    reveal_strlit("__apcore_task_list");
    reveal_strlit("__apcore_module_preview");
    reveal_strlit("__apcore_approval_check");
    let prefix = META_TOOL_PREFIX@;
    assert(META_TOOL_SUBMIT@.take(9) =~= prefix);
    assert(META_TOOL_STATUS@.take(9) =~= prefix);
    assert(META_TOOL_CANCEL@.take(9) =~= prefix);
    assert(META_TOOL_LIST@.take(9) =~= prefix);
    assert(META_TOOL_PREVIEW@.take(9) =~= prefix);
    assert(approval_bridge::APPROVAL_CHECK@.take(9) =~= prefix);
}

/// A call leads somewhere exactly where the name is a meta-tool's.
pub proof fn law_only_meta_tools_act(name: Seq<char>, arguments: JsonView, module_is_async: bool)
    ensures
        meta_action(name, arguments, module_is_async) is NotMeta <==> !task_meta_tool(name),
{
}

/// A reserved module is neither submitted nor previewed, whatever else the arguments say.
pub proof fn law_reserved_modules_are_refused(
    name: Seq<char>,
    arguments: JsonView,
    module_is_async: bool,
)
    ensures
        meta_action(name, arguments, module_is_async) matches TaskActionView::Submit {
            module_id,
            ..
        } ==> !reserved(module_id) && module_is_async,
        meta_action(name, arguments, module_is_async) matches TaskActionView::Preview {
            module_id,
            ..
        } ==> !reserved(module_id),
{
}

/// The name of a state means that state.
pub proof fn law_status_names(status: TaskStatus)
    ensures
        named_status(status_name(status)) == Some(status),
{
    reveal_strlit("pending");
    reveal_strlit("running");
    reveal_strlit("completed");
    reveal_strlit("failed");
    reveal_strlit("cancelled");
    assert("pending"@[0] != "running"@[0]);
    assert("pending"@[0] != "completed"@[0]);
    assert("pending"@[0] != "failed"@[0]);
    assert("pending"@[0] != "cancelled"@[0]);
    assert("running"@[0] != "completed"@[0]);
    assert("running"@[0] != "failed"@[0]);
    assert("running"@[0] != "cancelled"@[0]);
    assert("completed"@[0] != "failed"@[0]);
    assert("completed"@[1] != "cancelled"@[1]);
    assert("failed"@[0] != "cancelled"@[0]);
}

/// A task that a session launches is added to its tasks and to no other session's.
pub proof fn law_launch_is_recorded(
    pairs: Seq<(Seq<char>, Seq<char>)>,
    session: Seq<char>,
    task: Seq<char>,
    other: Seq<char>,
)
    ensures
        tasks_of(pairs.push((session, task)), session) == tasks_of(pairs, session).push(task),
        other != session ==> tasks_of(pairs.push((session, task)), other) == tasks_of(pairs, other),
{
    assert(pairs.push((session, task)).drop_last() =~= pairs);
}

/// Once a session's tasks were given out, none is left of it, and the other sessions have theirs.
pub proof fn law_disconnect_takes_own_tasks(
    pairs: Seq<(Seq<char>, Seq<char>)>,
    session: Seq<char>,
    other: Seq<char>,
)
    ensures
        tasks_of(without_session(pairs, session), session) == Seq::<Seq<char>>::empty(),
        other != session ==> tasks_of(without_session(pairs, session), other) == tasks_of(
            pairs,
            other,
        ),
    decreases pairs.len(),
{
    if pairs.len() > 0 {
        law_disconnect_takes_own_tasks(pairs.drop_last(), session, other);
        let rest = without_session(pairs.drop_last(), session);
        assert(rest.push(pairs.last()).drop_last() =~= rest);
    }
}

/// Something that a bridge takes note of.
pub enum BridgeEvent {
    /// A task was submitted: with the token under which its client hears of it, where its client
    /// does, and the session that launched it, where one did.
    Submitted { task: Seq<char>, token: Option<JsonView>, session: Option<Seq<char>> },
    /// A task was cancelled.
    Cancelled(Seq<char>),
    /// The tasks of a session were given out.
    Disconnected(Seq<char>),
}

/// The bridge after an event.
pub open spec fn bridge_after(bridge: BridgeView, event: BridgeEvent) -> BridgeView {
    match event {
        BridgeEvent::Submitted { task, token, session } => BridgeView {
            progress_tokens: match token {
                Some(t) => bridge.progress_tokens.insert(task, t),
                None => bridge.progress_tokens,
            },
            session_tasks: match session {
                Some(key) => bridge.session_tasks.push((key, task)),
                None => bridge.session_tasks,
            },
            ..bridge
        },
        BridgeEvent::Cancelled(task) => BridgeView {
            progress_tokens: bridge.progress_tokens.remove(task),
            ..bridge
        },
        BridgeEvent::Disconnected(session) => BridgeView {
            session_tasks: without_session(bridge.session_tasks, session),
            ..bridge
        },
    }
}

/// A bridge after a history that began when it knew of no task.
pub open spec fn bridge_with(history: Seq<BridgeEvent>) -> BridgeView
    decreases history.len(),
{
    if history.len() == 0 {
        no_tasks()
    } else {
        bridge_after(bridge_with(history.drop_last()), history.last())
    }
}

/// The tasks that a session launched in a history since its tasks were last given out, in their
/// order.
pub open spec fn launched(history: Seq<BridgeEvent>, session: Seq<char>) -> Seq<Seq<char>>
    decreases history.len(),
{
    if history.len() == 0 {
        Seq::empty()
    } else {
        let before = launched(history.drop_last(), session);
        match history.last() {
            BridgeEvent::Submitted { task, session: key, .. } => if key == Some(session) {
                before.push(task)
            } else {
                before
            },
            BridgeEvent::Cancelled(_) => before,
            BridgeEvent::Disconnected(key) => if key == session {
                Seq::empty()
            } else {
                before
            },
        }
    }
}

/// The history that goes on with the cancellation of tasks, one after another.
pub open spec fn cancelled_after(history: Seq<BridgeEvent>, tasks: Seq<Seq<char>>) -> Seq<
    BridgeEvent,
> {
    history + tasks.map_values(|task: Seq<char>| BridgeEvent::Cancelled(task))
}

/// Whatever happened before, a disconnect gives out exactly the tasks that the session launched
/// since its last one, a second one right after gives out none, and the tasks of another session
/// stay with that.
pub proof fn law_disconnect_gives_out_what_was_launched(
    history: Seq<BridgeEvent>,
    session: Seq<char>,
    other: Seq<char>,
)
    ensures
        tasks_of(bridge_with(history).session_tasks, session) == launched(history, session),
        tasks_of(
            bridge_with(history.push(BridgeEvent::Disconnected(session))).session_tasks,
            session,
        ) == Seq::<Seq<char>>::empty(),
        other != session ==> tasks_of(
            bridge_with(history.push(BridgeEvent::Disconnected(session))).session_tasks,
            other,
        ) == tasks_of(bridge_with(history).session_tasks, other),
    decreases history.len(),
{
    assert(history.push(BridgeEvent::Disconnected(session)).drop_last() =~= history);
    law_disconnect_takes_own_tasks(bridge_with(history).session_tasks, session, other);
    if history.len() > 0 {
        let before = history.drop_last();
        let pairs = bridge_with(before).session_tasks;
        law_disconnect_gives_out_what_was_launched(before, session, other);
        match history.last() {
            BridgeEvent::Submitted { task, session: Some(key), .. } => {
                law_launch_is_recorded(pairs, key, task, session);
            },
            BridgeEvent::Disconnected(key) => {
                law_disconnect_takes_own_tasks(pairs, key, session);
            },
            _ => {},
        }
    }
}

/// Once the tasks of a session that disconnected were cancelled, nobody hears of them any more; who
/// heard of another task still does.
pub proof fn law_cancelled_tasks_are_not_heard_of(
    history: Seq<BridgeEvent>,
    tasks: Seq<Seq<char>>,
    task: Seq<char>,
)
    ensures
        tasks.contains(task) ==> !bridge_with(
            cancelled_after(history, tasks),
        ).progress_tokens.contains_key(task),
        !tasks.contains(task) ==> bridge_with(
            cancelled_after(history, tasks),
        ).progress_tokens.contains_key(task) == bridge_with(
            history,
        ).progress_tokens.contains_key(task),
    decreases tasks.len(),
{
    let whole = cancelled_after(history, tasks);
    if tasks.len() == 0 {
        assert(whole =~= history);
    } else {
        let rest = tasks.drop_last();
        law_cancelled_tasks_are_not_heard_of(history, rest, task);
        assert(whole.drop_last() =~= cancelled_after(history, rest));
        assert(whole.last() == BridgeEvent::Cancelled(tasks.last()));
        assert(rest.push(tasks.last()) =~= tasks);
        if tasks.contains(task) {
            let i = choose|i: int| 0 <= i < tasks.len() && tasks[i] == task;
            if i < rest.len() {
                assert(rest[i] == task);
            }
        } else {
            assert(tasks[tasks.len() - 1] == tasks.last());
            if rest.contains(task) {
                let i = choose|i: int| 0 <= i < rest.len() && rest[i] == task;
                assert(tasks[i] == task);
            }
        }
    }
}

/// A submission runs the module that it names, with exactly the arguments that it gives, or with
/// none. Where it names no module, or a reserved one, or one that does not run in the background,
/// or gives arguments that are no object, it is refused.
pub proof fn law_submissions_keep_their_arguments(
    arguments: &Json,
    module_is_async: bool,
    action: TaskAction,
    reserved_id: bool,
    id: &str,
)
    requires
        call_ensures(AsyncTaskBridge::handle_submit, (arguments, module_is_async), action),
        call_ensures(AsyncTaskBridge::is_reserved_id, (id,), reserved_id),
    ensures
        action is Submit || action is Refuse,
        action matches TaskAction::Submit { module_id, inputs } ==> arguments@.get("module_id"@)
            == Some(JsonView::String(module_id@)) && module_id@.len() > 0 && module_is_async
            && match arguments@.get("arguments"@) {
            Some(JsonView::Object(given)) => inputs@ == JsonView::Object(given),
            Some(JsonView::Null) => inputs@ == JsonView::Object(Seq::empty()),
            Some(_) => false,
            None => inputs@ == JsonView::Object(Seq::empty()),
        },
        arguments@.get("module_id"@) == Some(JsonView::String(id@)) && id@.len() > 0 ==> {
            let taken = match arguments@.get("arguments"@) {
                Some(JsonView::Object(_)) => true,
                Some(JsonView::Null) => true,
                Some(_) => false,
                None => true,
            };
            action is Submit == (!reserved_id && module_is_async && taken)
        },
        reserved_id && arguments@.get("module_id"@) == Some(JsonView::String(id@)) ==> (
        action matches TaskAction::Refuse(message) && (id@.len() > 0 ==> message@ == "module id '"@
            + id@ + "' is reserved by the async task bridge (__apcore_ prefix)"@)),
        !reserved_id && !module_is_async && id@.len() > 0 && arguments@.get("module_id"@) == Some(
            JsonView::String(id@),
        ) ==> (action matches TaskAction::Refuse(message) && message@
            == "ASYNC_MODULE_NOT_ASYNC: module '"@ + id@
            + "' is not async-hinted; use regular tools/call instead of __apcore_task_submit"@),
        !(arguments@.get("module_id"@) matches Some(JsonView::String(s)) && s.len() > 0) ==> (
        action matches TaskAction::Refuse(message) && message@
            == "__apcore_task_submit requires a non-empty 'module_id'"@),
        !reserved_id && module_is_async && id@.len() > 0 && arguments@.get("module_id"@) == Some(
            JsonView::String(id@),
        ) ==> (action matches TaskAction::Refuse(message) ==> message@
            == "__apcore_task_submit requires `arguments` to be a JSON object"@),
{
}

/// A preview is of the module that is named, with exactly the arguments that are given, or null
/// where there are none; a reserved module is never previewed.
pub proof fn law_previews_keep_their_arguments(
    arguments: &Json,
    action: TaskAction,
    reserved_id: bool,
    id: &str,
)
    requires
        call_ensures(AsyncTaskBridge::handle_preview, (arguments,), action),
        call_ensures(AsyncTaskBridge::is_reserved_id, (id,), reserved_id),
    ensures
        action is Preview || action is Refuse,
        action matches TaskAction::Preview { module_id, inputs } ==> arguments@.get("module_id"@)
            == Some(JsonView::String(module_id@)) && module_id@.len() > 0 && match arguments@.get(
            "arguments"@,
        ) {
            Some(JsonView::Object(given)) => inputs@ == JsonView::Object(given),
            Some(JsonView::Null) => inputs@ == JsonView::Null,
            Some(_) => false,
            None => inputs@ == JsonView::Null,
        },
        arguments@.get("module_id"@) == Some(JsonView::String(id@)) && id@.len() > 0 ==> {
            let taken = match arguments@.get("arguments"@) {
                Some(JsonView::Object(_)) => true,
                Some(JsonView::Null) => true,
                Some(_) => false,
                None => true,
            };
            action is Preview == (!reserved_id && taken)
        },
        !(arguments@.get("module_id"@) matches Some(JsonView::String(s)) && s.len() > 0) ==> (
        action matches TaskAction::Refuse(message) && message@
            == "__apcore_module_preview requires a non-empty 'module_id'"@),
        id@.len() > 0 && arguments@.get("module_id"@) == Some(JsonView::String(id@)) ==> (
        action matches TaskAction::Refuse(message) ==> message@ == (if reserved_id {
            "Reserved module id: '"@ + id@
                + "'. Names starting with '__apcore_' are reserved for apcore-mcp meta-tools and cannot be previewed via this handler."@
        } else {
            "__apcore_module_preview requires 'arguments' to be a JSON object or null"@
        })),
{
}

/// A task is shown or cancelled exactly under the id that is given; without one the request is
/// refused.
pub proof fn law_tasks_are_asked_for_by_id(
    arguments: &Json,
    shown: TaskAction,
    cancelled: TaskAction,
)
    requires
        call_ensures(AsyncTaskBridge::handle_status, (arguments,), shown),
        call_ensures(AsyncTaskBridge::handle_cancel, (arguments,), cancelled),
    ensures
        match arguments@.get("task_id"@) {
            Some(JsonView::String(id)) => if id.len() > 0 {
                (shown matches TaskAction::Status(s) && s@ == id) && (
                cancelled matches TaskAction::Cancel(c) && c@ == id)
            } else {
                shown is Refuse && cancelled is Refuse
            },
            _ => shown is Refuse && cancelled is Refuse,
        },
        shown matches TaskAction::Refuse(message) ==> message@
            == "__apcore_task_status requires a non-empty 'task_id'"@,
        cancelled matches TaskAction::Refuse(message) ==> message@
            == "__apcore_task_cancel requires a non-empty 'task_id'"@,
{
}

/// All tasks are listed where no state is asked for, those in the state that is named otherwise; a
/// name that means no state is refused.
pub proof fn law_tasks_are_listed_by_state(
    arguments: &Json,
    action: TaskAction,
    name: &str,
    meant: Option<TaskStatus>,
)
    requires
        call_ensures(AsyncTaskBridge::handle_list, (arguments,), action),
        call_ensures(TaskStatus::from_name, (name,), meant),
    ensures
        match arguments@.get("status"@) {
            None => action matches TaskAction::List(wanted) && wanted is None,
            Some(JsonView::Null) => action matches TaskAction::List(wanted) && wanted is None,
            Some(JsonView::String(given)) => given == name@ ==> match meant {
                Some(status) => action matches TaskAction::List(wanted) && wanted == Some(status),
                None => action matches TaskAction::Refuse(message) && message@
                    == "unknown task status filter: "@ + name@,
            },
            Some(_) => action matches TaskAction::Refuse(message) && message@
                == "__apcore_task_list `status` filter must be a string"@,
        },
{
}

/// The name of a state means that state, and nothing else means it.
pub proof fn law_states_are_named(
    name: &str,
    meant: Option<TaskStatus>,
    status: TaskStatus,
    own: &'static str,
)
    requires
        call_ensures(TaskStatus::from_name, (name,), meant),
        call_ensures(TaskStatus::name, (status,), own),
    ensures
        meant == Some(TaskStatus::Pending) <==> name@ == "pending"@,
        meant == Some(TaskStatus::Running) <==> name@ == "running"@,
        meant == Some(TaskStatus::Completed) <==> name@ == "completed"@,
        meant == Some(TaskStatus::Failed) <==> name@ == "failed"@,
        meant == Some(TaskStatus::Cancelled) <==> name@ == "cancelled"@,
        own@ == (match status {
            TaskStatus::Pending => "pending"@,
            TaskStatus::Running => "running"@,
            TaskStatus::Completed => "completed"@,
            TaskStatus::Failed => "failed"@,
            TaskStatus::Cancelled => "cancelled"@,
        }),
{
    reveal_strlit("pending");
    reveal_strlit("running");
    reveal_strlit("completed");
    reveal_strlit("failed");
    reveal_strlit("cancelled");
    assert("pending"@.len() == 7);
    assert("running"@.len() == 7);
    assert("completed"@.len() == 9);
    assert("failed"@.len() == 6);
    assert("cancelled"@.len() == 9);
    assert("pending"@[0] != "running"@[0]);
    assert("completed"@[1] != "cancelled"@[1]);
}

proof fn lemma_meta_tools_differ()
    ensures
        "__apcore_task_submit"@ != "__apcore_task_status"@,
        "__apcore_task_submit"@ != "__apcore_task_cancel"@,
        "__apcore_task_submit"@ != "__apcore_task_list"@,
        "__apcore_task_submit"@ != "__apcore_module_preview"@,
        "__apcore_task_status"@ != "__apcore_task_cancel"@,
        "__apcore_task_status"@ != "__apcore_task_list"@,
        "__apcore_task_status"@ != "__apcore_module_preview"@,
        "__apcore_task_cancel"@ != "__apcore_task_list"@,
        "__apcore_task_cancel"@ != "__apcore_module_preview"@,
        "__apcore_task_list"@ != "__apcore_module_preview"@,
{
    reveal_strlit("__apcore_task_submit");
    reveal_strlit("__apcore_task_status");
    reveal_strlit("__apcore_task_cancel");
    reveal_strlit("__apcore_task_list");
    reveal_strlit("__apcore_module_preview");
    assert("__apcore_task_submit"@.len() == 20);
    assert("__apcore_task_status"@.len() == 20);
    assert("__apcore_task_cancel"@.len() == 20);
    assert("__apcore_task_list"@.len() == 18);
    assert("__apcore_module_preview"@.len() == 23);
    assert("__apcore_task_submit"@[15] != "__apcore_task_status"@[15]);
    assert("__apcore_task_submit"@[14] != "__apcore_task_cancel"@[14]);
    assert("__apcore_task_status"@[14] != "__apcore_task_cancel"@[14]);
}

/// Each meta-tool does its own work, and what is no meta-tool does none.
pub proof fn law_meta_tools_do_their_own_work(
    name: &str,
    arguments: &Json,
    module_is_async: bool,
    action: TaskAction,
    submitted: TaskAction,
    shown: TaskAction,
    cancelled: TaskAction,
    listed: TaskAction,
    previewed: TaskAction,
    meta: bool,
)
    requires
        call_ensures(
            AsyncTaskBridge::decide_meta_tool,
            (name, arguments, module_is_async),
            action,
        ),
        call_ensures(AsyncTaskBridge::handle_submit, (arguments, module_is_async), submitted),
        call_ensures(AsyncTaskBridge::handle_status, (arguments,), shown),
        call_ensures(AsyncTaskBridge::handle_cancel, (arguments,), cancelled),
        call_ensures(AsyncTaskBridge::handle_list, (arguments,), listed),
        call_ensures(AsyncTaskBridge::handle_preview, (arguments,), previewed),
        call_ensures(AsyncTaskBridge::is_meta_tool, (name,), meta),
    ensures
        name@ == "__apcore_task_submit"@ ==> meta && action@ == submitted@,
        name@ == "__apcore_task_status"@ ==> meta && action@ == shown@,
        name@ == "__apcore_task_cancel"@ ==> meta && action@ == cancelled@,
        name@ == "__apcore_task_list"@ ==> meta && action@ == listed@,
        name@ == "__apcore_module_preview"@ ==> meta && action@ == previewed@,
        !meta <==> action is NotMeta,
        meta ==> name@ == "__apcore_task_submit"@ || name@ == "__apcore_task_status"@ || name@
            == "__apcore_task_cancel"@ || name@ == "__apcore_task_list"@ || name@
            == "__apcore_module_preview"@,
{
    lemma_meta_tools_differ();
}

/// Exactly the ids that begin with the prefix of the meta-tools are reserved.
pub proof fn law_reserved_ids(id: &str, rest: Seq<char>, reserved_id: bool)
    requires
        call_ensures(AsyncTaskBridge::is_reserved_id, (id,), reserved_id),
    ensures
        id@ == "__apcore_"@ + rest ==> reserved_id,
        reserved_id ==> id@ == "__apcore_"@ + id@.skip("__apcore_"@.len() as int),
{
    let prefix = "__apcore_"@;
    if id@ == prefix + rest {
        assert(id@.take(prefix.len() as int) =~= prefix);
    }
    if reserved_id {
        assert(id@ =~= id@.take(prefix.len() as int) + id@.skip(prefix.len() as int));
    }
}

/// A task stands on the wire with each of its members under its own name; what is not known is
/// missing.
pub proof fn law_tasks_on_the_wire(task: &TaskRecord, json: Json, state: &'static str)
    requires
        call_ensures(TaskRecord::to_json, (task,), json),
        call_ensures(TaskStatus::name, (task.status,), state),
    ensures
        json@.get("task_id"@) == Some(JsonView::String(task.task_id@)),
        json@.get("module_id"@) == Some(JsonView::String(task.module_id@)),
        json@.get("status"@) == Some(JsonView::String(state@)),
        json@.get("submitted_at"@) == Some(task.submitted_at@),
        json@.get("started_at"@) == json::opt_view(task.started_at),
        json@.get("completed_at"@) == json::opt_view(task.completed_at),
        json@.get("result"@) == json::opt_view(task.result),
        json@.get("error"@) == (match task.error {
            Some(message) => Some(JsonView::String(message@)),
            None => None,
        }),
        json@.get("retry_count"@) == Some(
            JsonView::Number(json::NumberView::Int(task.retry_count as int)),
        ),
        json@.get("max_retries"@) == Some(
            JsonView::Number(json::NumberView::Int(task.max_retries as int)),
        ),
{
    broadcast use json::group_members;

    reveal_strlit("task_id");
    reveal_strlit("module_id");
    reveal_strlit("status");
    reveal_strlit("submitted_at");
    reveal_strlit("started_at");
    reveal_strlit("completed_at");
    reveal_strlit("result");
    reveal_strlit("error");
    reveal_strlit("retry_count");
    reveal_strlit("max_retries");
    assert("task_id"@.len() == 7);
    assert("module_id"@.len() == 9);
    assert("status"@.len() == 6);
    assert("submitted_at"@.len() == 12);
    assert("started_at"@.len() == 10);
    assert("completed_at"@.len() == 12);
    assert("result"@.len() == 6);
    assert("error"@.len() == 5);
    assert("retry_count"@.len() == 11);
    assert("max_retries"@.len() == 11);
    assert("status"@[0] != "result"@[0]);
    assert("submitted_at"@[0] != "completed_at"@[0]);
    assert("retry_count"@[0] != "max_retries"@[0]);
}

/// A task is shown as it is, but for the result of one that is complete, which is redacted under
/// the schema of its module's results where there is one.
pub proof fn law_tasks_are_shown_redacted(
    before: AsyncTaskBridge,
    schemas: JsonObject,
    bridge: AsyncTaskBridge,
    task: TaskRecord,
    shown: TaskRecord,
)
    requires
        call_ensures(AsyncTaskBridge::with_output_schemas, (before, schemas), bridge),
        call_ensures(AsyncTaskBridge::shown, (&bridge, task), shown),
    ensures
        shown.task_id@ == task.task_id@,
        shown.module_id@ == task.module_id@,
        shown.status == task.status,
        shown.submitted_at@ == task.submitted_at@,
        json::opt_view(shown.started_at) == json::opt_view(task.started_at),
        json::opt_view(shown.completed_at) == json::opt_view(task.completed_at),
        text::opt_view(shown.error) == text::opt_view(task.error),
        shown.retry_count == task.retry_count,
        shown.max_retries == task.max_retries,
        json::opt_view(shown.result) == (match (task.result, JsonView::Object(schemas@).get(
            task.module_id@,
        )) {
            (Some(result), Some(schema)) => if task.status == TaskStatus::Completed {
                Some(output::redacted(result@, schema))
            } else {
                Some(result@)
            },
            (Some(result), None) => Some(result@),
            (None, _) => None,
        }),
        bridge@.session_tasks == before@.session_tasks && bridge@.progress_tokens
            == before@.progress_tokens && bridge.runs_on() == before.runs_on()
            && bridge.runs_with() == before.runs_with(),
{
    assert(shown@.task_id == task@.task_id);
    assert(shown@.error == task@.error);
    assert(shown@.started_at == task@.started_at);
    assert(shown@.completed_at == task@.completed_at);
    assert(shown@.retry_count == task@.retry_count && shown@.max_retries == task@.max_retries);
}

/// What only shows tasks is answered: a task with what may be shown of it, one that is not there
/// with that it is not, and a list with all the tasks, in their order. A task that is there is
/// cancelled; anything else stays as it was decided.
pub proof fn law_questions_are_answered(
    bridge: &AsyncTaskBridge,
    id: String,
    task: TaskRecord,
    shown: TaskRecord,
    document: Json,
    tasks: Vec<TaskRecord>,
    status: Option<TaskStatus>,
    other: TaskAction,
    found: Option<TaskRecord>,
    answered_found: TaskAction,
    answered_missing: TaskAction,
    cancel_found: TaskAction,
    cancel_missing: TaskAction,
    listed: TaskAction,
    kept: TaskAction,
    i: int,
    entry: Json,
)
    requires
        call_ensures(AsyncTaskBridge::shown, (bridge, task), shown),
        call_ensures(TaskRecord::to_json, (&shown,), document),
        call_ensures(
            AsyncTaskBridge::answer,
            (bridge, TaskAction::Status(id), Some(task), tasks),
            answered_found,
        ),
        call_ensures(
            AsyncTaskBridge::answer,
            (bridge, TaskAction::Status(id), None::<TaskRecord>, tasks),
            answered_missing,
        ),
        call_ensures(
            AsyncTaskBridge::answer,
            (bridge, TaskAction::Cancel(id), Some(task), tasks),
            cancel_found,
        ),
        call_ensures(
            AsyncTaskBridge::answer,
            (bridge, TaskAction::Cancel(id), None::<TaskRecord>, tasks),
            cancel_missing,
        ),
        call_ensures(
            AsyncTaskBridge::answer,
            (bridge, TaskAction::List(status), found, tasks),
            listed,
        ),
        call_ensures(AsyncTaskBridge::answer, (bridge, other, found, tasks), kept),
        0 <= i < tasks@.len() ==> call_ensures(TaskRecord::to_json, (&tasks@[i],), entry),
    ensures
        answered_found matches TaskAction::Reply(reply) && reply@ == document@,
        answered_missing matches TaskAction::Reply(reply) && reply@.get("error"@) == Some(
            JsonView::String("ASYNC_TASK_NOT_FOUND"@),
        ) && reply@.get("task_id"@) == Some(JsonView::String(id@)) && reply@.get("is_error"@)
            == Some(JsonView::Bool(true)),
        cancel_found matches TaskAction::Cancel(same) && same@ == id@,
        cancel_missing@ == answered_missing@,
        listed matches TaskAction::Reply(reply) && (reply@.get("tasks"@) matches Some(
            JsonView::Array(list),
        ) && list.len() == tasks@.len() && (0 <= i < list.len() ==> list[i] == entry@)),
        !(other is Status) && !(other is Cancel) && !(other is List) ==> kept@ == other@,
{
    broadcast use json::group_members;

    reveal_strlit("error");
    reveal_strlit("task_id");
    reveal_strlit("is_error");
    reveal_strlit("tasks");
    assert("error"@.len() == 5);
    assert("task_id"@.len() == 7);
    assert("is_error"@.len() == 8);
    assert("tasks"@.len() == 5);
    assert("error"@[0] != "tasks"@[0]);
    if 0 <= i < tasks@.len() {
        assert(task_views(tasks@)[i] == tasks@[i]@);
    }
}

/// A submission is answered with the id of the task and its state, and a cancellation with the id
/// of the task and whether it was cancelled.
pub proof fn law_submissions_and_cancellations_are_answered(
    result: &SubmitResult,
    submitted: Json,
    task_id: &str,
    done: bool,
    cancelled: Json,
)
    requires
        call_ensures(AsyncTaskBridge::submit_reply, (result,), submitted),
        call_ensures(AsyncTaskBridge::cancel_reply, (task_id, done), cancelled),
    ensures
        submitted@.get("task_id"@) == Some(JsonView::String(result.task_id@)),
        submitted@.get("status"@) == Some(JsonView::String(result.status@)),
        cancelled@.get("task_id"@) == Some(JsonView::String(task_id@)),
        cancelled@.get("cancelled"@) == Some(JsonView::Bool(done)),
{
    broadcast use json::group_members;

    reveal_strlit("task_id");
    reveal_strlit("status");
    reveal_strlit("cancelled");
    assert("task_id"@.len() == 7);
    assert("status"@.len() == 6);
    assert("cancelled"@.len() == 9);
}

/// A preview is answered with what apcore's checks say: whether the call is valid, whether somebody
/// has to approve, every change that is predicted, and every check with its error and its warnings.
pub proof fn law_previews_are_answered(preflight: &PreflightResult, json: Json)
    requires
        call_ensures(AsyncTaskBridge::preview_reply, (preflight,), json),
    ensures
        json@.get("valid"@) == Some(JsonView::Bool(preflight.valid)),
        json@.get("requires_approval"@) == Some(JsonView::Bool(preflight.requires_approval)),
        json@.get("predicted_changes"@) matches Some(JsonView::Array(changes)) && changes.len()
            == preflight.predicted_changes@.len() && forall|i: int|
            0 <= i < changes.len() ==> #[trigger] changes[i] == preflight.predicted_changes@[i]@,
        json@.get("checks"@) matches Some(JsonView::Array(checks)) && checks.len()
            == preflight.checks@.len() && forall|i: int|
            0 <= i < checks.len() ==> (#[trigger] checks[i]).get("check"@) == Some(
                JsonView::String(preflight.checks@[i].check@),
            ) && checks[i].get("passed"@) == Some(JsonView::Bool(preflight.checks@[i].passed))
                && checks[i].get("error"@) == json::opt_view(preflight.checks@[i].error) && (
            checks[i].get("warnings"@) is Some <==> preflight.checks@[i].warnings@.len() > 0),
{
    broadcast use json::group_members;

    reveal_strlit("valid");
    reveal_strlit("requires_approval");
    reveal_strlit("predicted_changes");
    reveal_strlit("checks");
    reveal_strlit("check");
    reveal_strlit("passed");
    reveal_strlit("error");
    reveal_strlit("warnings");
    assert("valid"@.len() == 5);
    assert("requires_approval"@.len() == 17);
    assert("predicted_changes"@.len() == 17);
    assert("checks"@.len() == 6);
    assert("check"@.len() == 5);
    assert("passed"@.len() == 6);
    assert("error"@.len() == 5);
    assert("warnings"@.len() == 8);
    assert("valid"@[0] != "check"@[0]);
    assert("valid"@[0] != "error"@[0]);
    assert("requires_approval"@[0] != "predicted_changes"@[0]);
    assert("checks"@[0] != "passed"@[0]);
    assert("check"@[0] != "error"@[0]);
}

/// A check is written with its own name, outcome, error and warnings, in their order.
pub proof fn law_checks_on_the_wire(check: &PreflightCheck, json: Json)
    requires
        call_ensures(preflight_check_to_json, (check,), json),
    ensures
        json@.get("check"@) == Some(JsonView::String(check.check@)),
        json@.get("passed"@) == Some(JsonView::Bool(check.passed)),
        json@.get("error"@) == json::opt_view(check.error),
        check.warnings@.len() == 0 ==> json@.get("warnings"@) is None,
        check.warnings@.len() > 0 ==> (json@.get("warnings"@) matches Some(
            JsonView::Array(warnings),
        ) && warnings.len() == check.warnings@.len() && forall|i: int|
            0 <= i < warnings.len() ==> #[trigger] warnings[i] == JsonView::String(
                check.warnings@[i]@,
            )),
{
    broadcast use json::group_members;

    reveal_strlit("check");
    reveal_strlit("passed");
    reveal_strlit("error");
    reveal_strlit("warnings");
    assert("check"@.len() == 5);
    assert("passed"@.len() == 6);
    assert("error"@.len() == 5);
    assert("warnings"@.len() == 8);
    assert("check"@[0] != "error"@[0]);
}

/// Who submitted a task with a token, and can be sent to, hears of it under that token, until it is
/// cancelled; the session that launched it is given the task when it disconnects. The task that is
/// submitted is pending.
pub proof fn law_submitted_tasks_are_heard_of(
    bridge: &mut AsyncTaskBridge,
    cancelling: &mut AsyncTaskBridge,
    task_id: &str,
    token: Option<Json>,
    has_sender: bool,
    session: Option<&str>,
    result: SubmitResult,
    progress: Json,
    total: Option<Json>,
    message: Option<&str>,
    told: Option<Json>,
    silent: Option<Json>,
)
    requires
        !old(bridge)@.progress_tokens.contains_key(task_id@),
        call_ensures(
            AsyncTaskBridge::submit,
            (bridge, task_id, token, has_sender, session),
            result,
        ),
        call_ensures(
            AsyncTaskBridge::emit_progress,
            (&*final(bridge), task_id, progress, total, message),
            told,
        ),
        *old(cancelling) == *final(bridge),
        call_ensures(AsyncTaskBridge::cancel, (cancelling, task_id), ()),
        call_ensures(
            AsyncTaskBridge::emit_progress,
            (&*final(cancelling), task_id, progress, total, message),
            silent,
        ),
    ensures
        result.task_id@ == task_id@,
        result.status@ == "pending"@,
        told is Some == (token is Some && has_sender),
        told matches Some(notification) ==> notification@.get("method"@) == Some(
            JsonView::String("notifications/progress"@),
        ) && (notification@.get("params"@) matches Some(params) && params.get("progressToken"@)
            == json::opt_view(token) && params.get("progress"@) == Some(progress@) && params.get(
            "total"@,
        ) == Some(
            match total {
                Some(n) => n@,
                None => JsonView::Null,
            },
        ) && params.get("message"@) == (match message {
            Some(s) => Some(JsonView::String(s@)),
            None => None,
        })),
        silent is None,
        match session {
            Some(id) => final(bridge)@.session_tasks == old(bridge)@.session_tasks.push(
                (id@, task_id@),
            ),
            None => final(bridge)@.session_tasks == old(bridge)@.session_tasks,
        },
        final(cancelling)@.session_tasks == final(bridge)@.session_tasks,
        final(bridge)@.output_schemas == old(bridge)@.output_schemas,
        final(bridge).runs_on() == old(bridge).runs_on() && final(bridge).runs_with() == old(
            bridge,
        ).runs_with(),
{
    broadcast use json::group_members;

    reveal_strlit("method");
    reveal_strlit("params");
    reveal_strlit("progressToken");
    reveal_strlit("progress");
    reveal_strlit("total");
    reveal_strlit("message");
    assert("method"@.len() == 6);
    assert("params"@.len() == 6);
    assert("progressToken"@.len() == 13);
    assert("progress"@.len() == 8);
    assert("total"@.len() == 5);
    assert("message"@.len() == 7);
    assert("method"@[0] != "params"@[0]);
}

/// Whether a session launched a task.
pub open spec fn launched_by(session: Seq<char>) -> spec_fn((Seq<char>, Seq<char>)) -> bool {
    |pair: (Seq<char>, Seq<char>)| pair.0 == session
}

/// Whether another session launched a task.
pub open spec fn not_launched_by(session: Seq<char>) -> spec_fn((Seq<char>, Seq<char>)) -> bool {
    |pair: (Seq<char>, Seq<char>)| pair.0 != session
}

/// A session that disconnects is given the tasks that it launched, in their order, and no other
/// session's; those stay in their order. A second time it is given none.
pub proof fn law_disconnected_sessions_give_up_their_tasks(
    bridge: &mut AsyncTaskBridge,
    again: &mut AsyncTaskBridge,
    session: &str,
    ids: Vec<String>,
    none: Vec<String>,
)
    requires
        call_ensures(AsyncTaskBridge::cancel_session_tasks, (bridge, session), ids),
        *old(again) == *final(bridge),
        call_ensures(AsyncTaskBridge::cancel_session_tasks, (again, session), none),
    ensures
        none@.len() == 0,
        text::texts(ids@) == old(bridge)@.session_tasks.filter(launched_by(session@)).map_values(
            |pair: (Seq<char>, Seq<char>)| pair.1,
        ),
        final(bridge)@.session_tasks == old(bridge)@.session_tasks.filter(
            not_launched_by(session@),
        ),
        final(bridge)@.progress_tokens == old(bridge)@.progress_tokens,
        final(bridge)@.output_schemas == old(bridge)@.output_schemas,
{
    let pairs = old(bridge)@.session_tasks;
    law_disconnect_takes_own_tasks(pairs, session@, session@);
    assert(text::texts(none@).len() == none@.len());
    lemma_tasks_are_sorted(pairs, session@);
}

/// Each task is either the session's or stays with its own.
proof fn lemma_tasks_are_sorted(pairs: Seq<(Seq<char>, Seq<char>)>, session: Seq<char>)
    ensures
        tasks_of(pairs, session) == pairs.filter(launched_by(session)).map_values(
            |pair: (Seq<char>, Seq<char>)| pair.1,
        ),
        without_session(pairs, session) == pairs.filter(not_launched_by(session)),
    decreases pairs.len(),
{
    reveal(Seq::filter);
    let own = launched_by(session);
    let task = |pair: (Seq<char>, Seq<char>)| pair.1;
    if pairs.len() > 0 {
        let rest = pairs.drop_last();
        lemma_tasks_are_sorted(rest, session);
        if pairs.last().0 == session {
            assert(rest.filter(own).push(pairs.last()).map_values(task) =~= rest.filter(
                own,
            ).map_values(task).push(pairs.last().1));
        }
    }
    assert(tasks_of(pairs, session) =~= pairs.filter(own).map_values(task));
}

/// Of the tasks that were to be cancelled those are counted that were: one more where another one
/// was, and as many where it was not.
pub proof fn law_cancelled_tasks_are_counted(
    outcomes: &Vec<bool>,
    more: &Vec<bool>,
    last: bool,
    n: usize,
    m: usize,
    none: &Vec<bool>,
    zero: usize,
)
    requires
        more@ == outcomes@.push(last),
        none@.len() == 0,
        call_ensures(AsyncTaskBridge::count_cancelled, (outcomes,), n),
        call_ensures(AsyncTaskBridge::count_cancelled, (more,), m),
        call_ensures(AsyncTaskBridge::count_cancelled, (none,), zero),
    ensures
        zero == 0,
        m == n + if last {
            1int
        } else {
            0int
        },
{
    assert(more@.drop_last() =~= outcomes@);
}

/// A module runs in the background where its metadata or its annotations say so, by a flag that is
/// set or by the word in any mixture of cases, and nowhere else.
pub proof fn law_hints_send_modules_to_the_background(
    metadata: &JsonObject,
    extra: Option<&JsonObject>,
    background: bool,
)
    requires
        call_ensures(AsyncTaskBridge::is_async_module, (metadata, extra), background),
    ensures
        ({
            let own = match JsonView::Object(metadata@).get("async"@) {
                Some(JsonView::Bool(b)) => b,
                Some(JsonView::String(s)) => text::lower(s) == "true"@,
                _ => false,
            };
            let annotated = match extra {
                Some(entries) => match JsonView::Object(entries@).get("mcp_async"@) {
                    Some(JsonView::Bool(b)) => b,
                    Some(JsonView::String(s)) => text::lower(s) == "true"@,
                    _ => false,
                },
                None => false,
            };
            background == (own || annotated)
        }),
{
}

/// A module's own metadata and the additions to its annotations are what tells whether it runs in
/// the background.
pub proof fn law_descriptors_tell_of_the_background(
    descriptor: &ModuleDescriptor,
    background: bool,
    extra: Option<&JsonObject>,
    told: bool,
)
    requires
        call_ensures(AsyncTaskBridge::is_async_module_descriptor, (descriptor,), background),
        call_ensures(AsyncTaskBridge::is_async_module, (&descriptor.metadata, extra), told),
        match (descriptor.annotations, extra) {
            (Some(annotations), Some(entries)) => *entries == annotations.extra,
            (None, None) => true,
            _ => false,
        },
    ensures
        background == told,
{
}

/// The schema is one of objects that have these properties, all of them and no others.
pub open spec fn closes(schema: JsonView, required: Option<Seq<char>>) -> bool {
    &&& schema.get("type"@) == Some(JsonView::String("object"@))
    &&& schema.get("additionalProperties"@) == Some(JsonView::Bool(false))
    &&& match required {
        Some(name) => schema.get("required"@) matches Some(JsonView::Array(names)) && names.len()
            == 1 && names[0] == JsonView::String(name),
        None => schema.get("required"@) is None,
    }
}

/// The property is one of this type.
pub open spec fn has_property(schema: JsonView, name: Seq<char>, kind: Seq<char>) -> bool {
    schema.get("properties"@) matches Some(properties) && (properties.get(name) matches Some(
        property,
    ) && property.get("type"@) == Some(JsonView::String(kind)))
}

/// There are five meta-tools, each under its name, marked as reserved, with the arguments that it
/// takes.
pub proof fn law_meta_tools_are_built(tools: Vec<Tool>)
    requires
        call_ensures(AsyncTaskBridge::build_meta_tools, (), tools),
    ensures
        tools@.len() == 5,
        tools@[0].name@ == "__apcore_task_submit"@,
        tools@[1].name@ == "__apcore_task_status"@,
        tools@[2].name@ == "__apcore_task_cancel"@,
        tools@[3].name@ == "__apcore_task_list"@,
        tools@[4].name@ == "__apcore_module_preview"@,
        forall|i: int|
            0 <= i < 5 ==> (#[trigger] tools@[i]).annotations is None && (tools@[i].meta matches Some(
                meta,
            ) && meta@.get("reserved"@) == Some(JsonView::Bool(true))),
        tools@[0].description@ == "Submit a module for asynchronous execution via apcore's AsyncTaskManager."@,
        tools@[1].description@ == "Query the TaskInfo projection for a previously submitted task."@,
        tools@[2].description@ == "Cancel a pending or running async task."@,
        tools@[3].description@ == "List all tracked tasks, optionally filtered by status (pending/running/completed/failed/cancelled)."@,
        tools@[4].description@ == "Preview a module call: predict state changes, validate inputs, and check approval requirements WITHOUT executing the module. Returns {valid, requires_approval, predicted_changes, checks}. Use this before invoking destructive or stateful modules to let the AI orchestrator answer 'what would change in the world if I called this?' (apcore PROTOCOL_SPEC §5.6)."@,
        json::get_in(
            json::get_in(tools@[3].input_schema@.get("properties"@), "status"@),
            "enum"@,
        ) matches Some(JsonView::Array(names)) && names == seq![
            JsonView::String("pending"@),
            JsonView::String("running"@),
            JsonView::String("completed"@),
            JsonView::String("failed"@),
            JsonView::String("cancelled"@),
        ],
        closes(tools@[0].input_schema@, Some("module_id"@)),
        closes(tools@[1].input_schema@, Some("task_id"@)),
        closes(tools@[2].input_schema@, Some("task_id"@)),
        closes(tools@[3].input_schema@, None),
        closes(tools@[4].input_schema@, Some("module_id"@)),
        has_property(tools@[0].input_schema@, "module_id"@, "string"@),
        has_property(tools@[0].input_schema@, "arguments"@, "object"@),
        has_property(tools@[0].input_schema@, "version_hint"@, "string"@),
        has_property(tools@[1].input_schema@, "task_id"@, "string"@),
        has_property(tools@[2].input_schema@, "task_id"@, "string"@),
        has_property(tools@[3].input_schema@, "status"@, "string"@),
        has_property(tools@[4].input_schema@, "module_id"@, "string"@),
        has_property(tools@[4].input_schema@, "arguments"@, "object"@),
{
    broadcast use json::group_members;

    reveal_strlit("type");
    reveal_strlit("properties");
    reveal_strlit("required");
    reveal_strlit("additionalProperties");
    reveal_strlit("module_id");
    reveal_strlit("arguments");
    reveal_strlit("version_hint");
    reveal_strlit("task_id");
    reveal_strlit("status");
    reveal_strlit("enum");
    reveal_strlit("reserved");
    assert("type"@.len() == 4);
    assert("properties"@.len() == 10);
    assert("required"@.len() == 8);
    assert("additionalProperties"@.len() == 20);
    assert("module_id"@.len() == 9);
    assert("arguments"@.len() == 9);
    assert("version_hint"@.len() == 12);
    assert("task_id"@.len() == 7);
    assert("status"@.len() == 6);
    assert("enum"@.len() == 4);
    assert("reserved"@.len() == 8);
    assert("type"@[0] != "enum"@[0]);
    assert("required"@[2] != "reserved"@[2]);
    assert("module_id"@[0] != "arguments"@[0]);
    let views = types::tool_views(tools@);
    assert(views.len() == tools@.len());
    assert(views == task_tools());
    assert forall|i: int| 0 <= i < 5 implies views[i] == (#[trigger] tools@[i])@ by {}
    assert(views[0] == tools@[0]@ && views[1] == tools@[1]@ && views[2] == tools@[2]@);
    assert(views[3] == tools@[3]@ && views[4] == tools@[4]@);
    assert(strings_view(status_names())->Array_0 =~= seq![
        JsonView::String("pending"@),
        JsonView::String("running"@),
        JsonView::String("completed"@),
        JsonView::String("failed"@),
        JsonView::String("cancelled"@),
    ]);
}

/// A bridge runs its tasks with its own executor, ten at once and a thousand in all unless it was
/// given other limits, and knows of none when it is made.
pub proof fn law_bridges_are_made(
    executor: std::sync::Arc<apcore::executor::Executor>,
    max_concurrent: usize,
    max_tasks: usize,
    bridge: AsyncTaskBridge,
    limited: AsyncTaskBridge,
    manager: &std::sync::Arc<apcore::async_task::AsyncTaskManager>,
    own: &std::sync::Arc<apcore::async_task::AsyncTaskManager>,
)
    requires
        max_concurrent <= usize::MAX / 8,
        call_ensures(AsyncTaskBridge::new, (executor,), bridge),
        call_ensures(
            AsyncTaskBridge::with_limits,
            (executor, max_concurrent, max_tasks),
            limited,
        ),
        call_ensures(AsyncTaskBridge::manager, (&bridge,), manager),
        call_ensures(AsyncTaskBridge::manager, (&limited,), own),
    ensures
        task_manager::max_concurrent_of(**manager) == 10,
        task_manager::max_tasks_of(**manager) == 1000,
        task_manager::executor_of(**manager) == *executor,
        task_manager::max_concurrent_of(**own) == max_concurrent,
        task_manager::max_tasks_of(**own) == max_tasks,
        task_manager::executor_of(**own) == *executor,
        bridge@.session_tasks.len() == 0 && limited@.session_tasks.len() == 0,
        bridge@.progress_tokens.dom() == Set::<Seq<char>>::empty(),
        bridge@.output_schemas.len() == 0,
        bridge.runs_with() == *executor && limited.runs_with() == *executor,
{
}

/// Submitting or cancelling one task leaves what clients hear of any other.
pub proof fn law_other_tasks_are_still_heard_of(
    bridge: &mut AsyncTaskBridge,
    cancelling: &mut AsyncTaskBridge,
    task_id: &str,
    token: Option<Json>,
    has_sender: bool,
    session: Option<&str>,
    result: SubmitResult,
    other: &str,
    progress: Json,
    total: Option<Json>,
    message: Option<&str>,
    before: Option<Json>,
    after: Option<Json>,
    at_last: Option<Json>,
)
    requires
        other@ != task_id@,
        call_ensures(
            AsyncTaskBridge::submit,
            (bridge, task_id, token, has_sender, session),
            result,
        ),
        *old(cancelling) == *final(bridge),
        call_ensures(AsyncTaskBridge::cancel, (cancelling, task_id), ()),
        call_ensures(
            AsyncTaskBridge::emit_progress,
            (&*old(bridge), other, progress, total, message),
            before,
        ),
        call_ensures(
            AsyncTaskBridge::emit_progress,
            (&*final(bridge), other, progress, total, message),
            after,
        ),
        call_ensures(
            AsyncTaskBridge::emit_progress,
            (&*final(cancelling), other, progress, total, message),
            at_last,
        ),
    ensures
        json::opt_view(after) == json::opt_view(before),
        json::opt_view(at_last) == json::opt_view(before),
{
}

/// Whether a module runs in the background is told by the module that the registry has under that
/// id at the moment, and by no other.
pub proof fn law_registered_modules_tell_of_the_background(
    registry: &apcore::registry::Registry,
    bridge: &AsyncTaskBridge,
    module_id: &str,
    background: bool,
    own: bool,
)
    requires
        call_ensures(AsyncTaskBridge::is_async_registered, (registry, module_id), background),
        call_ensures(AsyncTaskBridge::is_async_module_registered_self, (bridge, module_id), own),
    ensures
        exists|found: Option<ModuleDescriptor>| #[trigger]
            modules::looked_up(registry, module_id@, found) && background == (match found {
                Some(descriptor) => async_hinted(
                    descriptor.metadata@,
                    match descriptor.annotations {
                        Some(annotations) => Some(annotations.extra@),
                        None => None,
                    },
                ),
                None => false,
            }),
        exists|from: &apcore::registry::Registry, found: Option<ModuleDescriptor>| #[trigger]
            call_ensures(apcore::executor::Executor::registry, (&bridge.runs_with(),), from)
                && #[trigger] modules::looked_up(from, module_id@, found) && own == (match found {
                Some(descriptor) => async_hinted(
                    descriptor.metadata@,
                    match descriptor.annotations {
                        Some(annotations) => Some(annotations.extra@),
                        None => None,
                    },
                ),
                None => false,
            }),
{
    let found = choose|found: Option<ModuleDescriptor>| #[trigger]
        modules::looked_up(registry, module_id@, found) && background == found_async(found);
    assert(modules::looked_up(registry, module_id@, found));
    let mine = choose|found: Option<ModuleDescriptor>| #[trigger]
        registered_as(&bridge.runs_with(), module_id@, found) && own == found_async(found);
    assert(registered_as(&bridge.runs_with(), module_id@, mine));
    let from = choose|from: &apcore::registry::Registry| #[trigger]
        call_ensures(apcore::executor::Executor::registry, (&bridge.runs_with(),), from)
            && modules::looked_up(from, module_id@, mine);
    assert(modules::looked_up(from, module_id@, mine));
}

/// A task is shown exactly where the manager has one under that id at the moment, and the tasks
/// that are listed are all that the manager gives for the state.
pub proof fn law_tasks_of_the_manager_are_shown(
    bridge: &AsyncTaskBridge,
    task_id: &str,
    shown: Option<TaskRecord>,
    status: Option<TaskStatus>,
    tasks: Vec<TaskRecord>,
)
    requires
        call_ensures(AsyncTaskBridge::get_status, (bridge, task_id), shown),
        call_ensures(AsyncTaskBridge::list_tasks, (bridge, status), tasks),
    ensures
        exists|found: Option<TaskView>| #[trigger]
            task_manager::status_given(&bridge.runs_on(), task_id@, found) && match (shown, found) {
                (Some(record), Some(task)) => record.task_id@ == task.task_id && record.module_id@
                    == task.module_id && record.status == task.status && record.task_id@
                    == task_id@ && (task.status != TaskStatus::Completed ==> json::opt_view(
                    record.result,
                ) == task.result),
                (None, None) => true,
                _ => false,
            },
        task_manager::list_given(&bridge.runs_on(), status, task_views(tasks@)),
        status matches Some(wanted) ==> forall|i: int|
            0 <= i < tasks@.len() ==> (#[trigger] tasks@[i]).status == wanted,
{
    let found = choose|found: Option<TaskView>| #[trigger]
        task_manager::status_given(&bridge.runs_on(), task_id@, found) && task_opt_view(shown) == (
        match found {
            Some(task) => Some(redacted_task(task, bridge@.output_schemas)),
            None => None,
        });
    assert(task_manager::status_given(&bridge.runs_on(), task_id@, found));
    if let Some(record) = shown {
        assert(task_opt_view(shown) == Some(record@));
    }
    if let Some(wanted) = status {
        assert forall|i: int| 0 <= i < tasks@.len() implies (#[trigger] tasks@[i]).status
            == wanted by {
            assert(tasks@[i]@.status == wanted);
        }
    }
}

/// A call of a meta-tool comes to what was decided for it, with the tasks and the modules as they
/// are at the moment: a submission runs the module that it names with its own arguments, a task is
/// shown or reported missing under the id that is asked for, and what is no meta-tool comes to
/// nothing.
pub proof fn law_meta_tools_act(
    bridge: &AsyncTaskBridge,
    name: &str,
    arguments: &Json,
    action: TaskAction,
    previewed: TaskAction,
    meta: bool,
)
    requires
        call_ensures(AsyncTaskBridge::handle_meta_tool, (bridge, name, arguments), action),
        call_ensures(AsyncTaskBridge::handle_preview, (arguments,), previewed),
        call_ensures(AsyncTaskBridge::is_meta_tool, (name,), meta),
    ensures
        !meta <==> action is NotMeta,
        name@ == "__apcore_module_preview"@ ==> action@ == previewed@,
        name@ == "__apcore_task_submit"@ ==> action is Submit || action is Refuse,
        action matches TaskAction::Submit { module_id, inputs } ==> name@
            == "__apcore_task_submit"@ && arguments@.get("module_id"@) == Some(
            JsonView::String(module_id@),
        ) && match arguments@.get("arguments"@) {
            Some(JsonView::Object(given)) => inputs@ == JsonView::Object(given),
            _ => inputs@ == JsonView::Object(Seq::empty()),
        } && exists|found: Option<ModuleDescriptor>| #[trigger]
            registered_as(&bridge.runs_with(), module_id@, found) && found is Some,
        name@ == "__apcore_task_status"@ ==> match arguments@.get("task_id"@) {
            Some(JsonView::String(id)) => if id.len() > 0 {
                action matches TaskAction::Reply(reply) && reply@.get("task_id"@) == Some(
                    JsonView::String(id),
                )
            } else {
                action is Refuse
            },
            _ => action is Refuse,
        },
        name@ == "__apcore_task_cancel"@ ==> match arguments@.get("task_id"@) {
            Some(JsonView::String(id)) => if id.len() > 0 {
                match action {
                    TaskAction::Cancel(task) => task@ == id,
                    TaskAction::Reply(reply) => reply@.get("error"@) == Some(
                        JsonView::String("ASYNC_TASK_NOT_FOUND"@),
                    ) && reply@.get("task_id"@) == Some(JsonView::String(id)),
                    _ => false,
                }
            } else {
                action is Refuse
            },
            _ => action is Refuse,
        },
        name@ == "__apcore_task_list"@ ==> (action matches TaskAction::Reply(reply)
            ==> reply@.get("tasks"@) is Some),
        name@ == "__apcore_task_list"@ && arguments@.get("status"@) is None ==> action is Reply,
{
    broadcast use json::group_members;

    lemma_meta_tools_differ();
    reveal_strlit("task_id");
    reveal_strlit("module_id");
    reveal_strlit("status");
    reveal_strlit("submitted_at");
    reveal_strlit("started_at");
    reveal_strlit("completed_at");
    reveal_strlit("result");
    reveal_strlit("error");
    reveal_strlit("retry_count");
    reveal_strlit("max_retries");
    reveal_strlit("is_error");
    reveal_strlit("tasks");
    assert("task_id"@.len() == 7);
    assert("module_id"@.len() == 9);
    assert("status"@.len() == 6);
    assert("submitted_at"@.len() == 12);
    assert("started_at"@.len() == 10);
    assert("completed_at"@.len() == 12);
    assert("result"@.len() == 6);
    assert("error"@.len() == 5);
    assert("retry_count"@.len() == 11);
    assert("max_retries"@.len() == 11);
    assert("is_error"@.len() == 8);
    assert("tasks"@.len() == 5);
    assert("status"@[0] != "result"@[0]);
    assert("submitted_at"@[0] != "completed_at"@[0]);
    assert("error"@[0] != "tasks"@[0]);
    assert("retry_count"@[0] != "max_retries"@[0]);
    let (module_is_async, found, tasks) = choose|
        module_is_async: bool,
        found: Option<TaskView>,
        tasks: Seq<TaskView>,
    |
        submitted_to(&bridge.runs_with(), name@, arguments@, module_is_async) && found_for(
            &bridge.runs_on(),
            meta_action(name@, arguments@, module_is_async),
            found,
            tasks,
        ) && action@ == #[trigger] answered(
            meta_action(name@, arguments@, module_is_async),
            found,
            tasks,
            bridge@.output_schemas,
        );
    if let TaskAction::Submit { module_id, inputs } = action {
        let taken = choose|taken: Option<ModuleDescriptor>| #[trigger]
            registered_as(&bridge.runs_with(), module_id@, taken) && module_is_async
                == found_async(taken);
        assert(registered_as(&bridge.runs_with(), module_id@, taken));
    }
}

} // verus!
