//! The meta-tool that polls a pending approval.

use crate::json::{Json, JsonView};
use crate::text;
use crate::types::{self, Tool, ToolView};
use vstd::prelude::*;

verus! {

/// The name of the meta-tool.
pub const APPROVAL_CHECK: &'static str = "__apcore_approval_check";

/// Exposes pending approvals as a meta-tool.
pub struct ApprovalBridge;

/// What a call of the meta-tool leads to.
pub enum ApprovalAction {
    /// Look up the approval.
    Check(String),
    /// Answer at once: the document, and whether it reports an error.
    Reply(Json, bool),
}

/// What looking up an approval gave.
pub enum ApprovalOutcome {
    /// The approval's state.
    Found { status: String, reason: Option<String> },
    /// The lookup failed, with this message.
    StoreError(String),
}

/// The approval that the arguments name.
pub open spec fn approval_id(arguments: JsonView) -> Option<Seq<char>> {
    match arguments.get("approval_id"@) {
        Some(JsonView::String(id)) => if id.len() > 0 {
            Some(id)
        } else {
            None
        },
        _ => None,
    }
}

/// A document that reports an error.
pub open spec fn error_view(message: Seq<char>) -> JsonView {
    JsonView::object().with("error"@, JsonView::text(message)).with("is_error"@, JsonView::Bool(true))
}

fn error_json(message: &str) -> (json: Json)
    ensures
        json@ == error_view(message@),
{
    Json::object().with("error", Json::text(message)).with("is_error", Json::Bool(true))
}

/// The arguments that the meta-tool takes.
pub open spec fn check_schema() -> JsonView {
    JsonView::object().with("type"@, JsonView::text("object"@)).with(
        "properties"@,
        JsonView::object().with(
            "approval_id"@,
            JsonView::object().with("type"@, JsonView::text("string"@)).with(
                "description"@,
                JsonView::text("The approval_id from the APPROVAL_PENDING response"@),
            ),
        ),
    ).with("required"@, JsonView::Array(seq![JsonView::text("approval_id"@)])).with(
        "additionalProperties"@,
        JsonView::Bool(false),
    )
}

/// The mark of a meta-tool.
pub open spec fn reserved_meta() -> JsonView {
    JsonView::object().with("reserved"@, JsonView::Bool(true))
}

/// What the meta-tool says of itself.
pub const APPROVAL_DESCRIPTION: &'static str = "Poll the status of a pending approval request. Returns {approval_id, status, reason}. status is 'pending', 'approved', or 'rejected'. When 'approved', retry the original tool call with _meta.approvalId set to this approval_id.";

/// The meta-tool.
pub open spec fn check_tool() -> ToolView {
    ToolView {
        name: APPROVAL_CHECK@,
        description: APPROVAL_DESCRIPTION@,
        input_schema: check_schema(),
        annotations: None,
        meta: Some(reserved_meta()),
    }
}

/// The answer to a poll of `id`.
pub open spec fn check_reply(id: Seq<char>, outcome: ApprovalOutcome) -> (JsonView, bool) {
    match outcome {
        ApprovalOutcome::Found { status, reason } => (
            JsonView::object().with("approval_id"@, JsonView::text(id)).with(
                "status"@,
                JsonView::text(status@),
            ).with_opt("reason"@, types::text_opt_view(text::opt_view(reason))),
            false,
        ),
        ApprovalOutcome::StoreError(message) => (error_view("store error: "@ + message@), true),
    }
}

impl ApprovalBridge {
    /// Whether `name` is the name of the meta-tool.
    pub fn is_meta_tool(name: &str) -> (r: bool)
        ensures
            r == (name@ == APPROVAL_CHECK@),
    {
        text::same(name, APPROVAL_CHECK)
    }

    /// The meta-tools: the one that polls an approval.
    pub fn build_meta_tools() -> (tools: Vec<Tool>)
        ensures
            types::tool_views(tools@) == seq![check_tool()],
    {
        let mut required: Vec<Json> = Vec::new();
        required.push(Json::text("approval_id"));
        let required = Json::array(required);
        assert(required@->Array_0 =~= seq![JsonView::text("approval_id"@)]);
        let schema = Json::object().with("type", Json::text("object")).with(
            "properties",
            Json::object().with(
                "approval_id",
                Json::object().with("type", Json::text("string")).with(
                    "description",
                    Json::text("The approval_id from the APPROVAL_PENDING response"),
                ),
            ),
        ).with("required", required).with("additionalProperties", Json::Bool(false));
        let tool = Tool {
            name: APPROVAL_CHECK.to_string(),
            description: APPROVAL_DESCRIPTION.to_string(),
            input_schema: schema,
            annotations: None,
            meta: Some(Json::object().with("reserved", Json::Bool(true))),
        };
        let mut tools: Vec<Tool> = Vec::new();
        tools.push(tool);
        assert(types::tool_views(tools@) =~= seq![check_tool()]);
        tools
    }

    /// What a call of the meta-tool `name` leads to.
    pub fn handle_meta_tool(name: &str, arguments: &Json) -> (action: ApprovalAction)
        ensures
            match action {
                ApprovalAction::Check(id) => name@ == APPROVAL_CHECK@ && approval_id(arguments@)
                    == Some(id@),
                ApprovalAction::Reply(reply, is_error) => is_error && if name@ == APPROVAL_CHECK@ {
                    approval_id(arguments@) is None && reply@ == error_view(
                        "approval_id is required"@,
                    )
                } else {
                    reply@ == JsonView::object().with(
                        "error"@,
                        JsonView::text("Unknown approval meta-tool: "@ + name@),
                    )
                },
            },
    {
        if !ApprovalBridge::is_meta_tool(name) {
            let message = "Unknown approval meta-tool: ".to_string().concat(name);
            return ApprovalAction::Reply(
                Json::object().with("error", Json::text(message.as_str())),
                true,
            );
        }
        match arguments.get("approval_id") {
            Some(Json::String(id)) => {
                if id.as_str().is_empty() {
                    ApprovalAction::Reply(error_json("approval_id is required"), true)
                } else {
                    ApprovalAction::Check(id.clone())
                }
            },
            _ => ApprovalAction::Reply(error_json("approval_id is required"), true),
        }
    }

    /// The answer to a poll of the approval `id`.
    pub fn handle_check(id: &str, outcome: &ApprovalOutcome) -> (reply: (Json, bool))
        ensures
            (reply.0@, reply.1) == check_reply(id@, *outcome),
    {
        match outcome {
            ApprovalOutcome::Found { status, reason } => {
                let reason = match reason {
                    Some(reason) => Some(Json::text(reason.as_str())),
                    None => None,
                };
                let payload = Json::object().with("approval_id", Json::text(id)).with(
                    "status",
                    Json::text(status.as_str()),
                ).with_opt("reason", reason);
                (payload, false)
            },
            ApprovalOutcome::StoreError(message) => {
                let text = "store error: ".to_string().concat(message.as_str());
                (error_json(text.as_str()), true)
            },
        }
    }
}

/// A poll looks up exactly the approval that it names; one that names none, and a call of another
/// tool, is answered with an error.
pub proof fn law_polls_look_up_their_approval(
    name: &str,
    arguments: &Json,
    action: ApprovalAction,
    own: bool,
)
    requires
        call_ensures(ApprovalBridge::handle_meta_tool, (name, arguments), action),
        call_ensures(ApprovalBridge::is_meta_tool, (name,), own),
    ensures
        own <==> name@ == "__apcore_approval_check"@,
        !own ==> (action matches ApprovalAction::Reply(reply, is_error) && is_error && reply@.get(
            "error"@,
        ) == Some(JsonView::String("Unknown approval meta-tool: "@ + name@))),
        own ==> match arguments@.get("approval_id"@) {
            Some(JsonView::String(id)) => if id.len() > 0 {
                action matches ApprovalAction::Check(looked_up) && looked_up@ == id
            } else {
                action is Reply
            },
            _ => action is Reply,
        },
        own ==> (action matches ApprovalAction::Reply(reply, is_error) ==> is_error && reply@.get(
            "error"@,
        ) == Some(JsonView::String("approval_id is required"@)) && reply@.get("is_error"@) == Some(
            JsonView::Bool(true),
        )),
{
    broadcast use crate::json::group_members;

    reveal_strlit("error");
    reveal_strlit("is_error");
    assert("error"@.len() == 5);
    assert("is_error"@.len() == 8);
}

/// A poll is answered with the approval's own id, its state, and the reason where there is one; a
/// lookup that failed is reported as an error.
pub proof fn law_polls_are_answered(id: &str, outcome: &ApprovalOutcome, reply: (Json, bool))
    requires
        call_ensures(ApprovalBridge::handle_check, (id, outcome), reply),
    ensures
        match outcome {
            ApprovalOutcome::Found { status, reason } => {
                &&& !reply.1
                &&& reply.0@.get("approval_id"@) == Some(JsonView::String(id@))
                &&& reply.0@.get("status"@) == Some(JsonView::String(status@))
                &&& reply.0@.get("reason"@) == (match reason {
                    Some(why) => Some(JsonView::String(why@)),
                    None => None,
                })
                &&& reply.0@.get("is_error"@) is None
            },
            ApprovalOutcome::StoreError(message) => {
                &&& reply.1
                &&& reply.0@.get("error"@) == Some(JsonView::String("store error: "@ + message@))
                &&& reply.0@.get("is_error"@) == Some(JsonView::Bool(true))
            },
        },
{
    broadcast use crate::json::group_members;

    reveal_strlit("approval_id");
    reveal_strlit("status");
    reveal_strlit("reason");
    reveal_strlit("error");
    reveal_strlit("is_error");
    assert("approval_id"@.len() == 11);
    assert("status"@.len() == 6);
    assert("reason"@.len() == 6);
    assert("error"@.len() == 5);
    assert("is_error"@.len() == 8);
    assert("status"@[0] != "reason"@[0]);
}

/// There is one meta-tool for approvals, marked as reserved, which takes the id of an approval and
/// nothing else.
pub proof fn law_the_approval_tool_is_built(tools: Vec<Tool>)
    requires
        call_ensures(ApprovalBridge::build_meta_tools, (), tools),
    ensures
        tools@.len() == 1,
        tools@[0].name@ == "__apcore_approval_check"@,
        tools@[0].description@ == "Poll the status of a pending approval request. Returns {approval_id, status, reason}. status is 'pending', 'approved', or 'rejected'. When 'approved', retry the original tool call with _meta.approvalId set to this approval_id."@,
        tools@[0].annotations is None,
        tools@[0].meta matches Some(meta) && meta@.get("reserved"@) == Some(JsonView::Bool(true)),
        tools@[0].input_schema@.get("type"@) == Some(JsonView::String("object"@)),
        tools@[0].input_schema@.get("additionalProperties"@) == Some(JsonView::Bool(false)),
        tools@[0].input_schema@.get("required"@) matches Some(JsonView::Array(names)) && names.len()
            == 1 && names[0] == JsonView::String("approval_id"@),
        tools@[0].input_schema@.get("properties"@) matches Some(properties) && (properties.get(
            "approval_id"@,
        ) matches Some(property) && property.get("type"@) == Some(JsonView::String("string"@)) && property.get(
            "description"@,
        ) == Some(JsonView::String("The approval_id from the APPROVAL_PENDING response"@))),
{
    broadcast use crate::json::group_members;

    reveal_strlit("type");
    reveal_strlit("properties");
    reveal_strlit("required");
    reveal_strlit("additionalProperties");
    reveal_strlit("approval_id");
    reveal_strlit("description");
    reveal_strlit("reserved");
    assert("type"@.len() == 4);
    assert("properties"@.len() == 10);
    assert("required"@.len() == 8);
    assert("additionalProperties"@.len() == 20);
    assert("approval_id"@.len() == 11);
    assert("description"@.len() == 11);
    assert("reserved"@.len() == 8);
    assert("required"@[2] != "reserved"@[2]);
    assert("approval_id"@[0] != "description"@[0]);
    let views = types::tool_views(tools@);
    assert(views.len() == tools@.len());
    assert(views == seq![check_tool()]);
    assert(views[0] == tools@[0]@);
}

} // verus!
