use goose_agent_core::ids::ExternalSessionId;
use goose_agent_core::tool_dispatch::{
    prepare_tool_dispatch, prepare_tool_dispatch_with_approval_decision,
    argument_object_from_split, prepare_tool_dispatch_with_request_id, select_working_dir,
    take_invocation_argument_object,
};
use goose_agent_core::tool_errors::{
    ToolDispatchPreparationError, ToolInvocationArgumentError, ToolRegistryPolicyViolation,
    ToolRuntimePolicyError,
};
use goose_agent_core::tool_policy::{
    authorize_tool_dispatch, authorize_tool_dispatch_with_decision, describe_tool_inventory,
    ensure_dispatch_approved, ensure_tool_allowed, is_tool_available, tool_visibility_for_policy,
    validate_active_tools_for_policy,
};
use goose_agent_core::tool_types::{
    ToolApprovalDecision, ToolApprovalMode, ToolAvailability, ToolInvocation, ToolRuntimePolicy,
    ToolRuntimeSession, ToolVisibility, ToolVisibilityReason, WorkspaceBinding,
};
use serde_json::Value;
use std::path::{Path, PathBuf};

fn policy(available_tools: ToolAvailability, approval_mode: ToolApprovalMode) -> ToolRuntimePolicy {
    ToolRuntimePolicy {
        external_session_id: ExternalSessionId::new_v4(),
        workspace_bindings: Vec::new(),
        available_tools,
        approval_mode,
    }
}

fn object(key: &str, value: &str) -> Value {
    let mut members = serde_json::Map::new();
    members.insert(key.to_string(), Value::String(value.to_string()));
    Value::Object(members)
}

#[test]
fn denies_unavailable_tools() {
    let policy = policy(ToolAvailability::NoTools, ToolApprovalMode::Auto);

    let error = ensure_tool_allowed(&policy, "developer__shell").unwrap_err();

    assert_eq!(
        error,
        ToolRuntimePolicyError::Unavailable {
            tool_name: "developer__shell".to_string()
        }
    );
}

#[test]
fn denies_tools_missing_from_allowlist() {
    let policy = policy(
        ToolAvailability::Only(vec!["developer__read".to_string()]),
        ToolApprovalMode::Auto,
    );

    let error = ensure_tool_allowed(&policy, "developer__shell").unwrap_err();

    assert_eq!(
        error,
        ToolRuntimePolicyError::NotAllowed {
            tool_name: "developer__shell".to_string()
        }
    );
}

#[test]
fn ask_mode_requires_host_approval() {
    let policy = policy(ToolAvailability::All, ToolApprovalMode::Ask);

    let error = ensure_dispatch_approved(&policy, "developer__shell").unwrap_err();

    assert_eq!(
        error,
        ToolRuntimePolicyError::RequiresApproval {
            tool_name: "developer__shell".to_string()
        }
    );
}

#[test]
fn ask_mode_can_be_approved_by_host_decision() {
    let policy = policy(ToolAvailability::All, ToolApprovalMode::Ask);

    let result = authorize_tool_dispatch_with_decision(
        &policy,
        "developer__shell",
        Some(&ToolApprovalDecision::Approved),
    );

    assert!(result.is_ok());
}

#[test]
fn ask_mode_can_be_denied_by_host_decision() {
    let policy = policy(ToolAvailability::All, ToolApprovalMode::Ask);

    let error = authorize_tool_dispatch_with_decision(
        &policy,
        "developer__shell",
        Some(&ToolApprovalDecision::Denied {
            reason: Some("too risky".to_string()),
        }),
    )
    .unwrap_err();

    assert_eq!(
        error,
        ToolRuntimePolicyError::Denied {
            tool_name: "developer__shell".to_string()
        }
    );
}

#[test]
fn authorizes_allowed_auto_dispatch() {
    let policy = policy(
        ToolAvailability::Only(vec!["developer__shell".to_string()]),
        ToolApprovalMode::Auto,
    );

    let result = authorize_tool_dispatch(&policy, "developer__shell");

    assert!(result.is_ok());
}

#[test]
fn prepares_tool_dispatch_with_bound_workspace() {
    let requested = PathBuf::from("/tmp/alice");
    let fallback = PathBuf::from("/tmp/fallback");
    let mut policy = policy(ToolAvailability::All, ToolApprovalMode::Auto);
    policy.workspace_bindings.push(WorkspaceBinding {
        owner_id: "alice".to_string(),
        local_path: requested.clone(),
        mount_name: "alice".to_string(),
        writable: true,
    });
    let session = ToolRuntimeSession {
        external_session_id: policy.external_session_id,
        runtime_session_id: "goose-session-1".to_string(),
        working_dir: Some(requested.clone()),
    };

    let prepared = prepare_tool_dispatch_with_request_id(
        &policy,
        &session,
        ToolInvocation {
            id: None,
            name: "developer__shell".to_string(),
            arguments: Some(object("command", "pwd")),
        },
        "request-1".to_string(),
        &fallback,
    )
    .unwrap();

    assert_eq!(prepared.request_id, "request-1");
    assert_eq!(prepared.name, "developer__shell");
    assert_eq!(prepared.working_dir, requested);
    assert_eq!(
        prepared.arguments.unwrap().get("command").unwrap(),
        &Value::String("pwd".to_string())
    );
}

#[test]
fn prepares_ask_mode_dispatch_after_host_approval() {
    let fallback = PathBuf::from("/tmp/fallback");
    let policy = policy(ToolAvailability::All, ToolApprovalMode::Ask);
    let session = ToolRuntimeSession {
        external_session_id: policy.external_session_id,
        runtime_session_id: "goose-session-1".to_string(),
        working_dir: None,
    };

    let prepared = prepare_tool_dispatch_with_approval_decision(
        &policy,
        &session,
        ToolInvocation {
            id: None,
            name: "developer__shell".to_string(),
            arguments: Some(object("command", "pwd")),
        },
        "request-1".to_string(),
        &fallback,
        Some(&ToolApprovalDecision::Approved),
    )
    .unwrap();

    assert_eq!(prepared.request_id, "request-1");
    assert_eq!(prepared.working_dir, fallback);
}

#[test]
fn prepare_tool_dispatch_rejects_unavailable_tool() {
    let policy = policy(ToolAvailability::NoTools, ToolApprovalMode::Auto);
    let session = ToolRuntimeSession {
        external_session_id: policy.external_session_id,
        runtime_session_id: "goose-session-1".to_string(),
        working_dir: None,
    };

    let error = prepare_tool_dispatch(
        &policy,
        &session,
        ToolInvocation {
            id: Some("request-1".to_string()),
            name: "developer__shell".to_string(),
            arguments: None,
        },
        &Path::new("/tmp/fallback").to_path_buf(),
    )
    .unwrap_err();

    assert_eq!(
        error,
        ToolDispatchPreparationError::Policy(ToolRuntimePolicyError::Unavailable {
            tool_name: "developer__shell".to_string()
        })
    );
}

#[test]
fn prepare_tool_dispatch_rejects_non_object_arguments() {
    let policy = policy(ToolAvailability::All, ToolApprovalMode::Auto);
    let session = ToolRuntimeSession {
        external_session_id: policy.external_session_id,
        runtime_session_id: "goose-session-1".to_string(),
        working_dir: None,
    };

    let error = prepare_tool_dispatch(
        &policy,
        &session,
        ToolInvocation {
            id: Some("request-1".to_string()),
            name: "developer__shell".to_string(),
            arguments: Some(Value::String("nope".to_string())),
        },
        &Path::new("/tmp/fallback").to_path_buf(),
    )
    .unwrap_err();

    assert!(matches!(error, ToolDispatchPreparationError::Arguments(_)));
}

#[test]
fn validates_active_tools_against_allowlist() {
    let policy = policy(
        ToolAvailability::Only(vec![
            "developer__read".to_string(),
            "developer__shell".to_string(),
        ]),
        ToolApprovalMode::Auto,
    );

    let result = validate_active_tools_for_policy(&policy, &["developer__read", "developer__shell"]);

    assert!(result.is_ok());
}

#[test]
fn reports_missing_and_disallowed_active_tools() {
    let policy = policy(
        ToolAvailability::Only(vec![
            "developer__read".to_string(),
            "developer__shell".to_string(),
        ]),
        ToolApprovalMode::Auto,
    );

    let violation =
        validate_active_tools_for_policy(&policy, &["developer__read", "developer__write"])
            .unwrap_err();

    assert_eq!(violation.missing_allowed, vec!["developer__shell"]);
    assert_eq!(violation.disallowed_active, vec!["developer__write"]);
    assert!(violation.message().contains("unavailable tools"));
    assert!(violation.message().contains("disallowed tools"));
}

#[test]
fn describes_visible_and_blocked_tool_inventory() {
    let policy = policy(
        ToolAvailability::Only(vec![
            "developer__read".to_string(),
            "developer__shell".to_string(),
        ]),
        ToolApprovalMode::Ask,
    );

    let inventory = describe_tool_inventory(&policy, &["developer__read", "developer__write"]);

    assert_eq!(
        inventory.tools,
        vec![
            ToolVisibility {
                name: "developer__read".to_string(),
                visible: true,
                reason: ToolVisibilityReason::Available,
                approval_mode: ToolApprovalMode::Ask,
            },
            ToolVisibility {
                name: "developer__write".to_string(),
                visible: false,
                reason: ToolVisibilityReason::NotAllowedByPolicy,
                approval_mode: ToolApprovalMode::Ask,
            },
        ]
    );
    assert_eq!(inventory.missing_allowed_tools, vec!["developer__shell"]);
}

#[test]
fn describes_none_policy_as_unavailable_inventory() {
    let policy = policy(ToolAvailability::NoTools, ToolApprovalMode::Auto);

    let inventory = describe_tool_inventory(&policy, &["developer__read"]);

    assert_eq!(
        inventory.tools,
        vec![ToolVisibility {
            name: "developer__read".to_string(),
            visible: false,
            reason: ToolVisibilityReason::UnavailableByPolicy,
            approval_mode: ToolApprovalMode::Auto,
        }]
    );
    assert!(inventory.missing_allowed_tools.is_empty());
}

#[test]
fn accepts_missing_or_object_invocation_arguments() {
    assert!(take_invocation_argument_object(None).unwrap().is_none());

    let arguments = object("command", "ls");
    let arguments = take_invocation_argument_object(Some(arguments)).unwrap();

    assert_eq!(
        arguments.unwrap().get("command"),
        Some(&Value::String("ls".to_string()))
    );
}

#[test]
fn rejects_non_object_invocation_arguments() {
    let error =
        take_invocation_argument_object(Some(Value::String("not object".to_string()))).unwrap_err();

    assert_eq!(error.message, "Tool arguments must be a JSON object.");
}

#[test]
fn selects_requested_bound_workspace() {
    let requested = PathBuf::from("/tmp/alice");
    let fallback = PathBuf::from("/tmp/fallback");
    let bindings = vec![WorkspaceBinding {
        owner_id: "alice".to_string(),
        local_path: requested.clone(),
        mount_name: "alice".to_string(),
        writable: true,
    }];

    let selected = select_working_dir(Some(&requested), &bindings, &fallback);

    assert_eq!(selected, requested);
}

#[test]
fn ignores_requested_unbound_workspace() {
    let requested = PathBuf::from("/tmp/other");
    let allowed = PathBuf::from("/tmp/alice");
    let fallback = PathBuf::from("/tmp/fallback");
    let bindings = vec![WorkspaceBinding {
        owner_id: "alice".to_string(),
        local_path: allowed.clone(),
        mount_name: "alice".to_string(),
        writable: true,
    }];

    let selected = select_working_dir(Some(&requested), &bindings, &fallback);

    assert_eq!(selected, allowed);
}

fn binding(path: &str, writable: bool) -> WorkspaceBinding {
    WorkspaceBinding {
        owner_id: "owner".to_string(),
        local_path: PathBuf::from(path),
        mount_name: "mount".to_string(),
        writable,
    }
}

#[test]
fn working_dir_prefers_first_writable_then_first_then_fallback() {
    let fallback = PathBuf::from("/tmp/fallback");
    let bindings = vec![binding("/a", false), binding("/b", true), binding("/c", true)];
    assert_eq!(select_working_dir(None, &bindings, &fallback), PathBuf::from("/b"));

    let read_only = vec![binding("/a", false), binding("/b", false)];
    assert_eq!(select_working_dir(None, &read_only, &fallback), PathBuf::from("/a"));

    assert_eq!(select_working_dir(None, &[], &fallback), fallback);

    let anywhere = PathBuf::from("/anywhere");
    assert_eq!(select_working_dir(Some(&anywhere), &[], &fallback), anywhere);
}

#[test]
fn working_dir_compares_paths_by_component() {
    let fallback = PathBuf::from("/tmp/fallback");
    let bindings = vec![binding("/a", false), binding("/tmp/alice", false)];
    let requested = PathBuf::from("/tmp//alice/");

    assert_eq!(select_working_dir(Some(&requested), &bindings, &fallback), requested);
}

#[test]
fn deny_mode_refuses_even_approved_calls() {
    let policy = policy(ToolAvailability::All, ToolApprovalMode::Deny);

    let error = authorize_tool_dispatch_with_decision(
        &policy,
        "developer__shell",
        Some(&ToolApprovalDecision::Approved),
    )
    .unwrap_err();

    assert_eq!(
        error,
        ToolRuntimePolicyError::Denied {
            tool_name: "developer__shell".to_string()
        }
    );
    assert_eq!(
        error.message(),
        "Tool `developer__shell` was denied by the session tool policy."
    );
}

#[test]
fn unavailable_tool_is_refused_before_approval() {
    let policy = policy(
        ToolAvailability::Only(vec!["developer__read".to_string()]),
        ToolApprovalMode::Ask,
    );

    let error = authorize_tool_dispatch_with_decision(
        &policy,
        "developer__shell",
        Some(&ToolApprovalDecision::Approved),
    )
    .unwrap_err();

    assert_eq!(
        error.message(),
        "Tool `developer__shell` is not allowed in this session."
    );
    assert!(!is_tool_available(&policy, "developer__shell"));
    assert!(is_tool_available(&policy, "developer__read"));
    assert!(!tool_visibility_for_policy(&policy, "developer__shell").visible);
}

#[test]
fn policy_error_messages_name_the_tool() {
    let unavailable = ToolRuntimePolicyError::Unavailable {
        tool_name: "t".to_string(),
    };
    assert_eq!(unavailable.message(), "Tool `t` is not available in this session.");
    let approval = ToolRuntimePolicyError::RequiresApproval {
        tool_name: "t".to_string(),
    };
    assert_eq!(
        approval.message(),
        "Tool `t` requires host approval before dispatch."
    );
    let wrapped = ToolDispatchPreparationError::Arguments(ToolInvocationArgumentError::new(
        "Tool arguments must be a JSON object.",
    ));
    assert_eq!(wrapped.message(), "Tool arguments must be a JSON object.");
}

#[test]
fn violation_lists_each_tool_once_in_order() {
    let policy = policy(
        ToolAvailability::Only(vec![
            "zeta".to_string(),
            "alpha".to_string(),
            "zeta".to_string(),
            "beta".to_string(),
        ]),
        ToolApprovalMode::Auto,
    );

    let violation =
        validate_active_tools_for_policy(&policy, &["gamma", "beta", "delta", "gamma"]).unwrap_err();

    assert_eq!(violation.missing_allowed, vec!["alpha", "zeta"]);
    assert_eq!(violation.disallowed_active, vec!["delta", "gamma"]);
    assert!(!violation.is_empty());
    assert_eq!(
        violation.message(),
        "tool policy cannot allow unavailable tools: alpha, zeta; tool policy requires selective filtering, but active disallowed tools are still registered: delta, gamma"
    );

    let only_missing = ToolRegistryPolicyViolation {
        missing_allowed: vec!["a".to_string()],
        disallowed_active: Vec::new(),
    };
    assert_eq!(
        only_missing.message(),
        "tool policy cannot allow unavailable tools: a"
    );
}

#[test]
fn policies_without_allowlist_accept_any_registry() {
    let all = policy(ToolAvailability::All, ToolApprovalMode::Auto);
    assert!(validate_active_tools_for_policy(&all, &["x"]).is_ok());
    let none = policy(ToolAvailability::NoTools, ToolApprovalMode::Auto);
    assert!(validate_active_tools_for_policy(&none, &["x"]).is_ok());
}

#[test]
fn inventory_sorts_missing_tools_and_keeps_repeats() {
    let policy = policy(
        ToolAvailability::Only(vec![
            "zeta".to_string(),
            "alpha".to_string(),
            "zeta".to_string(),
            "read".to_string(),
        ]),
        ToolApprovalMode::Auto,
    );

    let inventory = describe_tool_inventory(&policy, &["read"]);

    assert_eq!(inventory.missing_allowed_tools, vec!["alpha", "zeta", "zeta"]);
    assert_eq!(inventory.tools.len(), 1);
    assert!(inventory.tools[0].visible);
}

#[test]
fn invocation_request_id_and_arguments() {
    let mut invocation = ToolInvocation {
        id: Some("call-7".to_string()),
        name: "shell".to_string(),
        arguments: Some(object("command", "ls")),
    };
    assert_eq!(invocation.request_id(), "call-7");
    let arguments = invocation.take_argument_object().unwrap();
    assert!(arguments.is_some());
    assert!(invocation.arguments.is_none());

    let anonymous = ToolInvocation {
        id: None,
        name: "shell".to_string(),
        arguments: None,
    };
    let first = anonymous.request_id();
    let second = anonymous.request_id();
    assert_eq!(first.len(), 36);
    assert_ne!(first, second);
}

#[test]
fn argument_split_keeps_objects_and_refuses_other_values() {
    assert!(argument_object_from_split(None).unwrap().is_none());

    let mut members = serde_json::Map::new();
    members.insert("path".to_string(), Value::String("/tmp".to_string()));
    let kept = argument_object_from_split(Some(Ok(members.clone()))).unwrap();
    assert_eq!(kept, Some(members));

    let refused = argument_object_from_split(Some(Err(Value::Bool(true)))).unwrap_err();
    assert_eq!(refused.message, "Tool arguments must be a JSON object.");
}

#[test]
fn request_id_without_an_id_is_a_fresh_uuid() {
    let invocation = ToolInvocation {
        id: None,
        name: "developer__shell".to_string(),
        arguments: None,
    };
    let first = invocation.request_id();
    let second = invocation.request_id();
    assert!(uuid::Uuid::parse_str(&first).is_ok());
    assert_eq!(first.len(), 36);
    assert_ne!(first, second);
}
