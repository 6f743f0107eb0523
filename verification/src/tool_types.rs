//! The data a host exchanges with the tool runtime: sessions, invocations,
//! policies, workspace bindings and tool visibility.

use std::path::PathBuf;
use serde_json::Value;
use vstd::prelude::*;

use crate::ids::{fresh_request_id, uuid_text, ExternalSessionId};
use uuid::Uuid;
use crate::json::JsonObject;
use crate::tool_errors::ToolInvocationArgumentError;
use crate::tool_dispatch::take_invocation_argument_object;

verus! {

/// The runtime session a tool call belongs to.
pub struct ToolRuntimeSession {
    pub external_session_id: ExternalSessionId,
    pub runtime_session_id: String,
    pub working_dir: Option<PathBuf>,
}

/// A tool call as the model asked for it.
#[derive(Clone, Debug)]
pub struct ToolInvocation {
    pub id: Option<String>,
    pub name: String,
    pub arguments: Option<Value>,
}

impl ToolInvocation {
    /// The call's id, or a fresh random id when it has none.
    pub fn request_id(&self) -> (r: String)
        ensures
            self.id matches Some(id) ==> r@ == id@,
            self.id is None ==> exists|u: Uuid| r@ == #[trigger] uuid_text(u),
    {
        match &self.id {
            Some(id) => id.clone(),
            None => fresh_request_id(),
        }
    }

    /// Takes the arguments out of the call (leaving none) and checks that
    /// they are a JSON object.
    pub fn take_argument_object(&mut self) -> (r: Result<
        Option<JsonObject>,
        ToolInvocationArgumentError,
    >)
        ensures
            final(self).arguments is None,
            final(self).id == old(self).id,
            final(self).name == old(self).name,
            match crate::tool_dispatch::object_arguments(old(self).arguments) {
                Some(accepted) => r == Ok::<Option<JsonObject>, ToolInvocationArgumentError>(
                    accepted,
                ),
                None => r matches Err(e) && e.message@
                    == crate::tool_errors::non_object_arguments_message(),
            },
    {
        let arguments = self.arguments.take();
        take_invocation_argument_object(arguments)
    }
}

/// A tool call that passed the session's policy, ready to dispatch.
#[derive(Clone, Debug)]
pub struct PreparedToolInvocation {
    pub request_id: String,
    pub name: String,
    pub arguments: Option<JsonObject>,
    pub working_dir: PathBuf,
}

/// A host-owned local workspace a session may work in.
#[derive(Clone, Debug)]
pub struct WorkspaceBinding {
    pub owner_id: String,
    pub local_path: PathBuf,
    pub mount_name: String,
    pub writable: bool,
}

/// Which tools a session may use: all, only those listed, or none.
#[derive(Clone, Debug, PartialEq, Eq)]
pub enum ToolAvailability {
    All,
    Only(Vec<String>),
    NoTools,
}

/// Whether tool calls need the host's approval.
#[derive(Clone, Copy, Debug, PartialEq, Eq, Structural)]
pub enum ToolApprovalMode {
    Auto,
    Ask,
    Deny,
}

/// The host's answer to an approval request.
#[derive(Clone, Debug, PartialEq, Eq)]
pub enum ToolApprovalDecision {
    Approved,
    Denied { reason: Option<String> },
}

/// The tool policy of one session.
#[derive(Clone, Debug)]
pub struct ToolRuntimePolicy {
    pub external_session_id: ExternalSessionId,
    pub workspace_bindings: Vec<WorkspaceBinding>,
    pub available_tools: ToolAvailability,
    pub approval_mode: ToolApprovalMode,
}

/// Why a tool is visible or hidden.
#[derive(Clone, Copy, Debug, PartialEq, Eq, Structural)]
pub enum ToolVisibilityReason {
    Available,
    UnavailableByPolicy,
    NotAllowedByPolicy,
}

/// Whether one tool is visible to the model, and why.
#[derive(Clone, Debug, PartialEq, Eq)]
pub struct ToolVisibility {
    pub name: String,
    pub visible: bool,
    pub reason: ToolVisibilityReason,
    pub approval_mode: ToolApprovalMode,
}

/// The visibility of the active tools, and the allowed tools that are not
/// active.
#[derive(Clone, Debug, PartialEq, Eq)]
pub struct ToolInventoryVisibility {
    pub tools: Vec<ToolVisibility>,
    pub missing_allowed_tools: Vec<String>,
}

} // verus!
