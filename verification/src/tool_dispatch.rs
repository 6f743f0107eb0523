//! Preparing an authorized tool call for dispatch: argument checking and the
//! choice of working directory.

use std::path::PathBuf;
use serde_json::Value;
use vstd::prelude::*;

use crate::ids::uuid_text;
use crate::json::{json_into_object, json_object, JsonObject};
use uuid::Uuid;
use crate::paths::{paths_equal, same_path};
use crate::tool_errors::{
    non_object_arguments_message, ToolDispatchPreparationError, ToolInvocationArgumentError,
    ToolRuntimePolicyErrorView,
};
use crate::tool_policy::{authorize_outcome, authorize_tool_dispatch_with_decision, opt_decision};
use crate::tool_types::{
    PreparedToolInvocation, ToolApprovalDecision, ToolInvocation, ToolRuntimePolicy,
    ToolRuntimeSession, WorkspaceBinding,
};

verus! {

/// The arguments after the object check: none stay none, an object yields
/// its members, and anything else is refused.
pub fn argument_object_from_split(split: Option<Result<JsonObject, Value>>) -> (r: Result<
    Option<JsonObject>,
    ToolInvocationArgumentError,
>)
    ensures
        split is None ==> r == Ok::<Option<JsonObject>, ToolInvocationArgumentError>(None),
        split matches Some(Ok(m)) ==> r == Ok::<Option<JsonObject>, ToolInvocationArgumentError>(
            Some(m),
        ),
        split matches Some(Err(_)) ==> r matches Err(e) && e.message@
            == non_object_arguments_message(),
{
    match split {
        Some(Ok(arguments)) => Ok(Some(arguments)),
        Some(Err(_)) => Err(ToolInvocationArgumentError::new("Tool arguments must be a JSON object.")),
        None => Ok(None),
    }
}

/// The arguments of a call as an object: `Some(None)` when there are none,
/// `Some(Some(members))` for a JSON object, and `None` when they are refused.
pub open spec fn object_arguments(arguments: Option<Value>) -> Option<Option<JsonObject>> {
    match arguments {
        None => Some(None),
        Some(v) => match json_object(v) {
            Some(members) => Some(Some(members)),
            None => None,
        },
    }
}

/// Accepts missing arguments and JSON objects; refuses any other value.
pub fn take_invocation_argument_object(arguments: Option<Value>) -> (r: Result<
    Option<JsonObject>,
    ToolInvocationArgumentError,
>)
    ensures
        match object_arguments(arguments) {
            Some(accepted) => r == Ok::<Option<JsonObject>, ToolInvocationArgumentError>(accepted),
            None => r matches Err(e) && e.message@ == non_object_arguments_message(),
        },
{
    let split = match arguments {
        Some(value) => Some(json_into_object(value)),
        None => None,
    };
    argument_object_from_split(split)
}

/// Whether some binding's path is the requested path.
pub open spec fn bound_to(bindings: Seq<WorkspaceBinding>, requested: PathBuf) -> bool {
    exists|i: int| 0 <= i < bindings.len() && same_path(#[trigger] bindings[i].local_path, requested)
}

/// `k` is the first writable binding.
pub open spec fn first_writable_at(bindings: Seq<WorkspaceBinding>, k: int) -> bool {
    &&& 0 <= k < bindings.len()
    &&& bindings[k].writable
    &&& forall|j: int| 0 <= j < k ==> !(#[trigger] bindings[j]).writable
}

/// The working directory for a call: the requested directory when there
/// are no bindings or it is bound; else the first writable binding; else the
/// first binding; else the fallback.
pub open spec fn selects_working_dir(
    dir: PathBuf,
    requested: Option<PathBuf>,
    bindings: Seq<WorkspaceBinding>,
    fallback: PathBuf,
) -> bool {
    if requested is Some && (bindings.len() == 0 || bound_to(bindings, requested->0)) {
        dir == requested->0
    } else if exists|k: int| first_writable_at(bindings, k) {
        exists|k: int| first_writable_at(bindings, k) && dir == bindings[k].local_path
    } else if bindings.len() > 0 {
        dir == bindings[0].local_path
    } else {
        dir == fallback
    }
}

/// A requested directory that some binding holds is the working directory,
/// whether or not any binding is writable.
pub proof fn law_bound_request_is_kept(
    dir: PathBuf,
    requested: PathBuf,
    bindings: Seq<WorkspaceBinding>,
    fallback: PathBuf,
    i: int,
)
    requires
        selects_working_dir(dir, Some(requested), bindings, fallback),
        0 <= i < bindings.len(),
        same_path(bindings[i].local_path, requested),
    ensures
        dir == requested,
{
}

/// The working directory is always one of the candidates: the requested
/// directory, a binding's path, or (only without bindings) the fallback; and
/// when the request is missing or unbound, a writable binding is preferred
/// to every read-only one.
pub proof fn law_working_dir_is_a_candidate(
    dir: PathBuf,
    requested: Option<PathBuf>,
    bindings: Seq<WorkspaceBinding>,
    fallback: PathBuf,
)
    requires
        selects_working_dir(dir, requested, bindings, fallback),
    ensures
        requested == Some(dir) || (exists|i: int| 0 <= i < bindings.len() && dir
            == #[trigger] bindings[i].local_path) || (bindings.len() == 0 && dir == fallback),
        bindings.len() > 0 && !(requested matches Some(r) && bound_to(bindings, r)) && (exists|
            w: int,
        | 0 <= w < bindings.len() && #[trigger] bindings[w].writable) ==> exists|k: int|
            0 <= k < bindings.len() && #[trigger] bindings[k].writable && dir
                == bindings[k].local_path,
{
    if !(requested is Some && (bindings.len() == 0 || bound_to(bindings, requested->0))) {
        if exists|k: int| first_writable_at(bindings, k) {
            let k = choose|k: int| first_writable_at(bindings, k) && dir == bindings[k].local_path;
            assert(bindings[k].writable);
        } else if bindings.len() > 0 {
            assert(dir == bindings[0].local_path);
            if exists|w: int| 0 <= w < bindings.len() && #[trigger] bindings[w].writable {
                let w = choose|w: int| 0 <= w < bindings.len() && #[trigger] bindings[w].writable;
                lemma_first_writable_exists(bindings, w);
            }
        }
    }
}

/// A writable binding implies a first writable one.
proof fn lemma_first_writable_exists(bindings: Seq<WorkspaceBinding>, w: int)
    requires
        0 <= w < bindings.len(),
        bindings[w].writable,
    ensures
        exists|k: int| first_writable_at(bindings, k),
    decreases w,
{
    if forall|j: int| 0 <= j < w ==> !(#[trigger] bindings[j]).writable {
        assert(first_writable_at(bindings, w));
    } else {
        let j = choose|j: int| 0 <= j < w && (#[trigger] bindings[j]).writable;
        lemma_first_writable_exists(bindings, j);
    }
}

/// The path behind an optional reference.
pub open spec fn opt_path(p: Option<&PathBuf>) -> Option<PathBuf> {
    match p {
        Some(p) => Some(*p),
        None => None,
    }
}

/// Chooses the working directory of a call from the requested directory,
/// the session's workspace bindings and a fallback.
pub fn select_working_dir(
    requested: Option<&PathBuf>,
    bindings: &[WorkspaceBinding],
    fallback: &PathBuf,
) -> (r: PathBuf)
    ensures
        selects_working_dir(r, opt_path(requested), bindings@, *fallback),
{
    if let Some(req) = requested {
        if bindings.len() == 0 {
            return req.clone();
        }
        let mut i: usize = 0;
        while i < bindings.len()
            invariant
                i <= bindings@.len(),
                requested == Some(req),
                forall|j: int| 0 <= j < i ==> !same_path(#[trigger] bindings@[j].local_path, *req),
            decreases bindings@.len() - i,
        {
            if paths_equal(&bindings[i].local_path, req) {
                assert(same_path(bindings@[i as int].local_path, *req));
                assert(bound_to(bindings@, *req));
                return req.clone();
            }
            i = i + 1;
        }
    }
    let mut k: usize = 0;
    while k < bindings.len()
        invariant
            k <= bindings@.len(),
            requested matches Some(r) ==> bindings@.len() > 0 && !bound_to(bindings@, *r),
            forall|j: int| 0 <= j < k ==> !(#[trigger] bindings@[j]).writable,
        decreases bindings@.len() - k,
    {
        if bindings[k].writable {
            assert(first_writable_at(bindings@, k as int));
            return (&bindings[k].local_path).clone();
        }
        k = k + 1;
    }
    if bindings.len() > 0 {
        (&bindings[0].local_path).clone()
    } else {
        (fallback).clone()
    }
}

/// The session's requested working directory.
pub open spec fn requested_dir(session: ToolRuntimeSession) -> Option<PathBuf> {
    session.working_dir
}

/// Prepares a call with an id of its own (or a fresh one).
pub fn prepare_tool_dispatch(
    policy: &ToolRuntimePolicy,
    session: &ToolRuntimeSession,
    invocation: ToolInvocation,
    fallback_working_dir: &PathBuf,
) -> (r: Result<PreparedToolInvocation, ToolDispatchPreparationError>)
    ensures
        prepared_as(r, *policy, *session, invocation, None, None, *fallback_working_dir),
        r is Ok && invocation.id is Some ==> r->Ok_0.request_id@ == invocation.id->0@,
        r is Ok && invocation.id is None ==> exists|u: Uuid| r->Ok_0.request_id@
            == #[trigger] uuid_text(u),
{
    let request_id = invocation.request_id();
    prepare_tool_dispatch_with_request_id(
        policy,
        session,
        invocation,
        request_id,
        fallback_working_dir,
    )
}

/// Prepares a call under the given request id, without a host decision.
pub fn prepare_tool_dispatch_with_request_id(
    policy: &ToolRuntimePolicy,
    session: &ToolRuntimeSession,
    invocation: ToolInvocation,
    request_id: String,
    fallback_working_dir: &PathBuf,
) -> (r: Result<PreparedToolInvocation, ToolDispatchPreparationError>)
    ensures
        prepared_as(
            r,
            *policy,
            *session,
            invocation,
            Some(request_id),
            None,
            *fallback_working_dir,
        ),
{
    prepare_tool_dispatch_with_approval_decision(
        policy,
        session,
        invocation,
        request_id,
        fallback_working_dir,
        None,
    )
}

/// What preparing a call yields: the authorization refusal when there is
/// one; else the argument refusal when the arguments are not an object; else
/// the prepared call under the request id (when one is given), with the
/// call's name, its arguments as an object (or none), and the selected
/// working directory.
pub open spec fn prepared_as(
    r: Result<PreparedToolInvocation, ToolDispatchPreparationError>,
    policy: ToolRuntimePolicy,
    session: ToolRuntimeSession,
    invocation: ToolInvocation,
    request_id: Option<String>,
    decision: Option<ToolApprovalDecision>,
    fallback: PathBuf,
) -> bool {
    let auth = authorize_outcome(policy, decision, invocation.name@);
    if auth is Err {
        r matches Err(ToolDispatchPreparationError::Policy(e)) && Err::<(), ToolRuntimePolicyErrorView>(e@) == auth
    } else if object_arguments(invocation.arguments) is None {
        r matches Err(ToolDispatchPreparationError::Arguments(e)) && e.message@
            == non_object_arguments_message()
    } else {
        r matches Ok(p) && {
            &&& (request_id matches Some(id) ==> p.request_id@ == id@)
            &&& p.name == invocation.name
            &&& object_arguments(invocation.arguments) == Some(p.arguments)
            &&& selects_working_dir(
                p.working_dir,
                requested_dir(session),
                policy.workspace_bindings@,
                fallback,
            )
        }
    }
}

/// Authorizes the call with the host's decision, checks its arguments, and
/// selects its working directory.
pub fn prepare_tool_dispatch_with_approval_decision(
    policy: &ToolRuntimePolicy,
    session: &ToolRuntimeSession,
    invocation: ToolInvocation,
    request_id: String,
    fallback_working_dir: &PathBuf,
    decision: Option<&ToolApprovalDecision>,
) -> (r: Result<PreparedToolInvocation, ToolDispatchPreparationError>)
    ensures
        prepared_as(
            r,
            *policy,
            *session,
            invocation,
            Some(request_id),
            opt_decision(decision),
            *fallback_working_dir,
        ),
{
    let mut invocation = invocation;
    match authorize_tool_dispatch_with_decision(policy, invocation.name.as_str(), decision) {
        Ok(()) => {},
        Err(e) => return Err(ToolDispatchPreparationError::Policy(e)),
    }
    let arguments = match invocation.take_argument_object() {
        Ok(arguments) => arguments,
        Err(e) => return Err(ToolDispatchPreparationError::Arguments(e)),
    };
    let working_dir = select_working_dir(
        session.working_dir.as_ref(),
        policy.workspace_bindings.as_slice(),
        fallback_working_dir,
    );
    Ok(PreparedToolInvocation { request_id, name: invocation.name, arguments, working_dir })
}

} // verus!
