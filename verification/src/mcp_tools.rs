//! The tool policy applied to MCP tools: which of a server's tools a session
//! sees, how a prepared invocation becomes an MCP tool call, how a refused
//! dispatch is answered, and what a dispatch through the agent does.

use rmcp::model::{CallToolRequestParams, ErrorData, Tool};
use serde_json::Value;
use std::path::PathBuf;
use vstd::prelude::*;

use crate::json::JsonObject;
use crate::order::ascending;
use crate::text::{str_views, string_views};
use crate::tool_dispatch::{
    object_arguments, prepare_tool_dispatch_with_approval_decision, prepared_as,
};
use crate::tool_errors::{policy_error_message, ToolDispatchPreparationError};
use crate::tool_policy::{
    authorize_outcome, describe_tool_inventory, missing_from_inventory, opt_decision,
    tool_allowed, tool_visibility_for_policy, visibility_matches,
};
use crate::tool_types::{
    PreparedToolInvocation, ToolApprovalDecision, ToolInventoryVisibility, ToolInvocation,
    ToolRuntimePolicy, ToolRuntimeSession, ToolVisibility,
};

verus! {

#[verifier::external_type_specification]
#[verifier::external_body]
pub struct ExMcpTool(rmcp::model::Tool);

#[verifier::external_type_specification]
#[verifier::external_body]
pub struct ExMcpCallToolRequestParams(rmcp::model::CallToolRequestParams);

#[verifier::external_type_specification]
#[verifier::external_body]
pub struct ExMcpErrorData(rmcp::model::ErrorData);

/// The `name` field of an MCP tool.
pub uninterp spec fn mcp_tool_name(tool: Tool) -> Seq<char>;

/// Reads an MCP tool's `name` field.
#[verifier::external_body]
fn tool_name(tool: &Tool) -> (r: &str)
    ensures
        r@ == mcp_tool_name(*tool),
{
    tool.name.as_ref()
}

/// The names of the tools, in order.
pub open spec fn tool_names(tools: Seq<Tool>) -> Seq<Seq<char>> {
    tools.map_values(|t: Tool| mcp_tool_name(t))
}

/// Whether the policy shows an MCP tool.
pub open spec fn shows_tool(policy: ToolRuntimePolicy) -> spec_fn(Tool) -> bool {
    |t: Tool| tool_allowed(policy.available_tools, mcp_tool_name(t))
}

/// Keeps the tools that the policy shows, in their order.
pub fn filter_tools_for_policy(tools: Vec<Tool>, policy: &ToolRuntimePolicy) -> (r: Vec<Tool>)
    ensures
        r@ == tools@.filter(shows_tool(*policy)),
{
    let ghost all = tools@;
    let ghost pred = shows_tool(*policy);
    let mut kept: Vec<Tool> = Vec::new();
    for tool in it: tools.into_iter()
        invariant
            it.seq() == all,
            kept@ == all.take(it.index() as int).filter(pred),
            pred == shows_tool(*policy),
    {
        proof {
            assert(all.take(it.index() + 1).drop_last() =~= all.take(it.index() as int));
            reveal(Seq::filter);
        }
        if tool_visibility_for_policy(policy, tool_name(&tool)).visible {
            kept.push(tool);
        }
    }
    assert(all.take(all.len() as int) =~= all);
    kept
}

/// The visibility of each MCP tool, and the allowed tools missing among
/// them, sorted.
pub fn describe_tools_for_policy(tools: &[Tool], policy: &ToolRuntimePolicy) -> (r:
    ToolInventoryVisibility)
    ensures
        r.tools@.len() == tools@.len(),
        forall|i: int|
            0 <= i < tools@.len() ==> visibility_matches(
                #[trigger] r.tools@[i],
                *policy,
                mcp_tool_name(tools@[i]),
            ),
        string_views(r.missing_allowed_tools@).to_multiset() == missing_from_inventory(
            policy.available_tools,
            tool_names(tools@),
        ).to_multiset(),
        ascending(string_views(r.missing_allowed_tools@)),
{
    let mut names: Vec<&str> = Vec::new();
    let mut i: usize = 0;
    while i < tools.len()
        invariant
            i <= tools@.len(),
            str_views(names@) =~= tool_names(tools@).take(i as int),
        decreases tools@.len() - i,
    {
        let ghost before = names@;
        names.push(tool_name(&tools[i]));
        assert(str_views(names@) =~= str_views(before).push(mcp_tool_name(tools@[i as int])));
        i = i + 1;
    }
    assert(tool_names(tools@).take(i as int) =~= tool_names(tools@));
    let r = describe_tool_inventory(policy, names.as_slice());
    assert forall|k: int| 0 <= k < tools@.len() implies visibility_matches(
        #[trigger] r.tools@[k],
        *policy,
        mcp_tool_name(tools@[k]),
    ) by {
        assert(str_views(names@)[k] == names@[k]@);
    }
    r
}

/// Whether, and why, the policy shows an MCP tool.
pub fn tool_visibility_for_rmcp_tool(tool: &Tool, policy: &ToolRuntimePolicy) -> (v:
    ToolVisibility)
    ensures
        visibility_matches(v, *policy, mcp_tool_name(*tool)),
        v.visible == tool_allowed(policy.available_tools, mcp_tool_name(*tool)),
{
    tool_visibility_for_policy(policy, tool_name(tool))
}

/// What `CallToolRequestParams::new` returns for a tool name.
pub uninterp spec fn mcp_call_params(name: Seq<char>) -> CallToolRequestParams;

/// What `CallToolRequestParams::with_arguments` returns.
pub uninterp spec fn mcp_call_params_with_arguments(
    params: CallToolRequestParams,
    arguments: JsonObject,
) -> CallToolRequestParams;

/// `CallToolRequestParams::new(name)`: a call of the named tool without
/// arguments. Its fields are not described here.
#[verifier::external_body]
fn call_params(name: String) -> (r: CallToolRequestParams)
    ensures
        r == mcp_call_params(name@),
{
    CallToolRequestParams::new(name)
}

/// `CallToolRequestParams::with_arguments`: the call with these arguments.
/// Its fields are not described here.
#[verifier::external_body]
fn call_params_with_arguments(params: CallToolRequestParams, arguments: JsonObject) -> (r:
    CallToolRequestParams)
    ensures
        r == mcp_call_params_with_arguments(params, arguments),
{
    params.with_arguments(arguments)
}

/// The MCP call of a prepared invocation: its tool, and its arguments when it
/// has any.
pub open spec fn call_params_for(prepared: PreparedToolInvocation) -> CallToolRequestParams {
    match prepared.arguments {
        Some(arguments) => mcp_call_params_with_arguments(
            mcp_call_params(prepared.name@),
            arguments,
        ),
        None => mcp_call_params(prepared.name@),
    }
}

/// Builds the MCP call of a prepared invocation.
pub fn prepared_invocation_to_call_tool_params(prepared: PreparedToolInvocation) -> (r:
    CallToolRequestParams)
    ensures
        r == call_params_for(prepared),
{
    let params = call_params(prepared.name);
    match prepared.arguments {
        Some(arguments) => call_params_with_arguments(params, arguments),
        None => params,
    }
}

/// The JSON-RPC code of an MCP error (its `code` field).
pub uninterp spec fn mcp_error_code(error: ErrorData) -> i32;

/// The message of an MCP error (its `message` field).
pub uninterp spec fn mcp_error_message(error: ErrorData) -> Seq<char>;

/// The additional data of an MCP error (its `data` field).
pub uninterp spec fn mcp_error_data(error: ErrorData) -> Option<Value>;

/// The JSON-RPC code for an invalid request.
pub open spec fn invalid_request_code() -> i32 {
    -32600i32
}

/// The JSON-RPC code for invalid parameters.
pub open spec fn invalid_params_code() -> i32 {
    -32602i32
}

/// The JSON-RPC code for an internal error.
pub open spec fn internal_error_code() -> i32 {
    -32603i32
}

/// `error` has this code and message, and no data.
pub open spec fn mcp_error_is(error: ErrorData, code: i32, message: Seq<char>) -> bool {
    &&& mcp_error_code(error) == code
    &&& mcp_error_message(error) == message
    &&& mcp_error_data(error) is None
}

/// What `ErrorData::invalid_request(message, None)` returns.
pub uninterp spec fn mcp_invalid_request(message: Seq<char>) -> ErrorData;

/// What `ErrorData::invalid_params(message, None)` returns.
pub uninterp spec fn mcp_invalid_params(message: Seq<char>) -> ErrorData;

/// `ErrorData::invalid_request(message, None)`: an error with the JSON-RPC
/// code for an invalid request (`ErrorCode::INVALID_REQUEST`, -32600), this
/// message and no data.
#[verifier::external_body]
fn invalid_request(message: String) -> (r: ErrorData)
    ensures
        r == mcp_invalid_request(message@),
        mcp_error_code(r) == -32600,
        mcp_error_message(r) == message@,
        mcp_error_data(r) is None,
{
    ErrorData::invalid_request(message, None)
}

/// `ErrorData::invalid_params(message, None)`: an error with the JSON-RPC
/// code for invalid parameters (`ErrorCode::INVALID_PARAMS`, -32602), this
/// message and no data.
#[verifier::external_body]
fn invalid_params(message: String) -> (r: ErrorData)
    ensures
        r == mcp_invalid_params(message@),
        mcp_error_code(r) == -32602,
        mcp_error_message(r) == message@,
        mcp_error_data(r) is None,
{
    ErrorData::invalid_params(message, None)
}

/// The MCP error that answers a refused dispatch: a policy refusal is an
/// invalid request, bad arguments are invalid parameters; either carries the
/// refusal's message.
pub open spec fn error_data_for(error: ToolDispatchPreparationError) -> ErrorData {
    match error {
        ToolDispatchPreparationError::Policy(e) => mcp_invalid_request(policy_error_message(e@)),
        ToolDispatchPreparationError::Arguments(e) => mcp_invalid_params(e.message@),
    }
}

/// The JSON-RPC code that answers a refusal.
pub open spec fn refusal_code(error: ToolDispatchPreparationError) -> i32 {
    match error {
        ToolDispatchPreparationError::Policy(_) => invalid_request_code(),
        ToolDispatchPreparationError::Arguments(_) => invalid_params_code(),
    }
}

/// The message that answers a refusal: the refusal's own message.
pub open spec fn refusal_message(error: ToolDispatchPreparationError) -> Seq<char> {
    match error {
        ToolDispatchPreparationError::Policy(e) => policy_error_message(e@),
        ToolDispatchPreparationError::Arguments(e) => e.message@,
    }
}

/// Builds the MCP error that answers a refused dispatch.
pub fn dispatch_preparation_error_to_error_data(error: ToolDispatchPreparationError) -> (r:
    ErrorData)
    ensures
        r == error_data_for(error),
        mcp_error_is(r, refusal_code(error), refusal_message(error)),
{
    match error {
        ToolDispatchPreparationError::Policy(e) => invalid_request(e.message()),
        ToolDispatchPreparationError::Arguments(e) => invalid_params(e.message),
    }
}

/// What `ErrorData::internal_error(message, None)` returns.
pub uninterp spec fn mcp_internal_error(message: Seq<char>) -> ErrorData;

/// `ErrorData::internal_error(message, None)`: an error with the JSON-RPC
/// code for an internal error (`ErrorCode::INTERNAL_ERROR`, -32603), this
/// message and no data.
#[verifier::external_body]
fn internal_error(message: String) -> (r: ErrorData)
    ensures
        r == mcp_internal_error(message@),
        mcp_error_code(r) == -32603,
        mcp_error_message(r) == message@,
        mcp_error_data(r) is None,
{
    ErrorData::internal_error(message, None)
}

/// How a dispatch answers once its call is prepared: the MCP call and the
/// working directory to run it in, or the error for the refusal.
pub open spec fn dispatch_answer(
    prepared: Result<PreparedToolInvocation, ToolDispatchPreparationError>,
) -> Result<(CallToolRequestParams, PathBuf), ErrorData> {
    match prepared {
        Ok(p) => Ok((call_params_for(p), p.working_dir)),
        Err(e) => Err(error_data_for(e)),
    }
}

/// The decisions of a tool dispatch through the agent, once the session's
/// workspace has been looked up: a failed lookup is an internal error;
/// otherwise the call is prepared against the session's working directory
/// and either made, as an MCP call in the selected working directory, or
/// refused with the matching MCP error.
pub fn plan_tool_dispatch(
    policy: &ToolRuntimePolicy,
    session: &ToolRuntimeSession,
    invocation: ToolInvocation,
    request_id: String,
    session_working_dir: Result<PathBuf, String>,
    approval_decision: Option<&ToolApprovalDecision>,
) -> (r: Result<(CallToolRequestParams, PathBuf), ErrorData>)
    ensures
        match session_working_dir {
            Err(message) => r == Err::<(CallToolRequestParams, PathBuf), ErrorData>(
                mcp_internal_error(message@),
            ) && mcp_error_is(r->Err_0, internal_error_code(), message@),
            Ok(dir) => exists|prepared: Result<PreparedToolInvocation, ToolDispatchPreparationError>|
                #![trigger dispatch_answer(prepared)]
                prepared_as(
                    prepared,
                    *policy,
                    *session,
                    invocation,
                    Some(request_id),
                    opt_decision(approval_decision),
                    dir,
                ) && r == dispatch_answer(prepared) && (prepared matches Err(refusal)
                    ==> mcp_error_is(r->Err_0, refusal_code(refusal), refusal_message(refusal))),
        },
{
    let dir = match session_working_dir {
        Ok(dir) => dir,
        Err(message) => return Err(internal_error(message)),
    };
    let prepared = prepare_tool_dispatch_with_approval_decision(
        policy,
        session,
        invocation,
        request_id,
        &dir,
        approval_decision,
    );
    let ghost answered = prepared;
    let r = match prepared {
        Ok(p) => {
            let working_dir = p.working_dir.clone();
            Ok((prepared_invocation_to_call_tool_params(p), working_dir))
        },
        Err(e) => Err(dispatch_preparation_error_to_error_data(e)),
    };
    assert(r == dispatch_answer(answered));
    r
}

/// A dispatch makes a call only when the session's policy and the host's
/// decision authorize the tool and its arguments are a JSON object (or
/// absent); the call is then the tool's own, with those arguments.
pub proof fn law_dispatch_calls_only_authorized_tools(
    prepared: Result<PreparedToolInvocation, ToolDispatchPreparationError>,
    policy: ToolRuntimePolicy,
    session: ToolRuntimeSession,
    invocation: ToolInvocation,
    request_id: String,
    decision: Option<ToolApprovalDecision>,
    working_dir: PathBuf,
)
    requires
        prepared_as(prepared, policy, session, invocation, Some(request_id), decision, working_dir),
        dispatch_answer(prepared) is Ok,
    ensures
        authorize_outcome(policy, decision, invocation.name@) is Ok,
        object_arguments(invocation.arguments) matches Some(arguments) && prepared matches Ok(p)
            && p.name == invocation.name && p.arguments == arguments
            && dispatch_answer(prepared) == Ok::<(CallToolRequestParams, PathBuf), ErrorData>(
            (call_params_for(p), p.working_dir),
        ),
{
}

} // verus!
