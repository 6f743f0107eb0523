//! Why the tool runtime refuses a call, and how a registry breaks a policy.

use vstd::prelude::*;

use crate::text::{joined, join_texts, string_views};

verus! {

/// Why a session's tool policy refuses a call.
#[derive(Clone, Debug, PartialEq, Eq)]
pub enum ToolRuntimePolicyError {
    Unavailable { tool_name: String },
    NotAllowed { tool_name: String },
    RequiresApproval { tool_name: String },
    Denied { tool_name: String },
}

/// A policy refusal, with the tool's name as text.
pub enum ToolRuntimePolicyErrorView {
    Unavailable(Seq<char>),
    NotAllowed(Seq<char>),
    RequiresApproval(Seq<char>),
    Denied(Seq<char>),
}

impl View for ToolRuntimePolicyError {
    type V = ToolRuntimePolicyErrorView;

    open spec fn view(&self) -> ToolRuntimePolicyErrorView {
        match self {
            ToolRuntimePolicyError::Unavailable { tool_name } => ToolRuntimePolicyErrorView::Unavailable(tool_name@),
            ToolRuntimePolicyError::NotAllowed { tool_name } => ToolRuntimePolicyErrorView::NotAllowed(tool_name@),
            ToolRuntimePolicyError::RequiresApproval { tool_name } => ToolRuntimePolicyErrorView::RequiresApproval(tool_name@),
            ToolRuntimePolicyError::Denied { tool_name } => ToolRuntimePolicyErrorView::Denied(tool_name@),
        }
    }
}

/// The message of a policy refusal.
pub open spec fn policy_error_message(e: ToolRuntimePolicyErrorView) -> Seq<char> {
    match e {
        ToolRuntimePolicyErrorView::Unavailable(t) => "Tool `"@ + t + "` is not available in this session."@,
        ToolRuntimePolicyErrorView::NotAllowed(t) => "Tool `"@ + t + "` is not allowed in this session."@,
        ToolRuntimePolicyErrorView::RequiresApproval(t) => "Tool `"@ + t
            + "` requires host approval before dispatch."@,
        ToolRuntimePolicyErrorView::Denied(t) => "Tool `"@ + t
            + "` was denied by the session tool policy."@,
    }
}

/// `"Tool `"`, then the name, then the closing text.
fn tool_message(tool_name: &String, closing: &str) -> (r: String)
    ensures
        r@ == "Tool `"@ + tool_name@ + closing@,
{
    let mut out = "Tool `".to_owned();
    out.append(tool_name.as_str());
    out.append(closing);
    out
}

impl ToolRuntimePolicyError {
    /// The refusal's message, as it is displayed.
    pub fn message(&self) -> (r: String)
        ensures
            r@ == policy_error_message(self@),
    {
        match self {
            ToolRuntimePolicyError::Unavailable { tool_name } => tool_message(
                tool_name,
                "` is not available in this session.",
            ),
            ToolRuntimePolicyError::NotAllowed { tool_name } => tool_message(
                tool_name,
                "` is not allowed in this session.",
            ),
            ToolRuntimePolicyError::RequiresApproval { tool_name } => tool_message(
                tool_name,
                "` requires host approval before dispatch.",
            ),
            ToolRuntimePolicyError::Denied { tool_name } => tool_message(
                tool_name,
                "` was denied by the session tool policy.",
            ),
        }
    }
}

/// `"Tool arguments must be a JSON object."`
pub open spec fn non_object_arguments_message() -> Seq<char> {
    "Tool arguments must be a JSON object."@
}

/// Tool arguments that are not what the tool runtime accepts.
#[derive(Clone, Debug, PartialEq, Eq)]
pub struct ToolInvocationArgumentError {
    pub message: String,
}

impl ToolInvocationArgumentError {
    pub fn new(message: &str) -> (e: Self)
        ensures
            e.message@ == message@,
    {
        ToolInvocationArgumentError { message: message.to_owned() }
    }
}

/// Why a tool call could not be prepared for dispatch.
#[derive(Clone, Debug, PartialEq, Eq)]
pub enum ToolDispatchPreparationError {
    Policy(ToolRuntimePolicyError),
    Arguments(ToolInvocationArgumentError),
}

impl ToolDispatchPreparationError {
    /// The message of the underlying error.
    pub fn message(&self) -> (r: String)
        ensures
            self matches ToolDispatchPreparationError::Policy(e) ==> r@ == policy_error_message(e@),
            self matches ToolDispatchPreparationError::Arguments(e) ==> r@ == e.message@,
    {
        match self {
            ToolDispatchPreparationError::Policy(e) => e.message(),
            ToolDispatchPreparationError::Arguments(e) => e.message.clone(),
        }
    }
}

/// How the active tools of a registry break an allowlist: allowed tools
/// that are not active, and active tools that are not allowed.
#[derive(Clone, Debug, PartialEq, Eq)]
pub struct ToolRegistryPolicyViolation {
    pub missing_allowed: Vec<String>,
    pub disallowed_active: Vec<String>,
}

/// The message of a violation: a sentence on each non-empty list, joined by
/// `"; "`.
pub open spec fn violation_message(missing: Seq<Seq<char>>, disallowed: Seq<Seq<char>>) -> Seq<char> {
    let first = if missing.len() > 0 {
        "tool policy cannot allow unavailable tools: "@ + joined(missing, ", "@)
    } else {
        Seq::empty()
    };
    let separator = if missing.len() > 0 && disallowed.len() > 0 {
        "; "@
    } else {
        Seq::empty()
    };
    let second = if disallowed.len() > 0 {
        "tool policy requires selective filtering, but active disallowed tools are still registered: "@
            + joined(disallowed, ", "@)
    } else {
        Seq::empty()
    };
    first + separator + second
}

impl ToolRegistryPolicyViolation {
    /// No tool is missing and none is disallowed.
    pub fn is_empty(&self) -> (r: bool)
        ensures
            r == (self.missing_allowed@.len() == 0 && self.disallowed_active@.len() == 0),
    {
        self.missing_allowed.len() == 0 && self.disallowed_active.len() == 0
    }

    /// The violation's message, as it is displayed.
    pub fn message(&self) -> (r: String)
        ensures
            r@ == violation_message(
                string_views(self.missing_allowed@),
                string_views(self.disallowed_active@),
            ),
    {
        let mut out = String::new();
        let has_missing = self.missing_allowed.len() > 0;
        if has_missing {
            out.append("tool policy cannot allow unavailable tools: ");
            let list = join_texts(&self.missing_allowed, ", ");
            out.append(list.as_str());
        }
        if self.disallowed_active.len() > 0 {
            if has_missing {
                out.append("; ");
            }
            out.append(
                "tool policy requires selective filtering, but active disallowed tools are still registered: ",
            );
            let list = join_texts(&self.disallowed_active, ", ");
            out.append(list.as_str());
        }
        assert(out@ =~= violation_message(
            string_views(self.missing_allowed@),
            string_views(self.disallowed_active@),
        ));
        out
    }
}

} // verus!
