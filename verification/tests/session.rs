use goose_agent_core::ids::ExternalSessionId;
use goose_agent_core::session::{RuntimeSessionRecord, RuntimeWorkspaceRef, SessionLink};
use serde_json::Value;
use std::path::PathBuf;

fn converts_local_session_link() {
    let external_session_id = ExternalSessionId::new_v4();
    let link = SessionLink {
        external_session_id,
        goose_session_id: "goose-session-1".to_string(),
        working_dir: PathBuf::from("/tmp/workspace"),
    };

    let record = RuntimeSessionRecord::from_session_link(link.clone()).with_title("Demo");
    let restored = record.try_into_session_link().unwrap();

    assert_eq!(record.external_session_id, external_session_id);
    assert_eq!(record.runtime_session_id, "goose-session-1");
    assert_eq!(record.title.as_deref(), Some("Demo"));
    assert_eq!(restored.external_session_id, link.external_session_id);
    assert_eq!(restored.goose_session_id, link.goose_session_id);
    assert_eq!(restored.working_dir, link.working_dir);
}

fn remote_requires_host_binding() {
    let record = RuntimeSessionRecord::new(
        ExternalSessionId::new_v4(),
        "goose-session-1",
        RuntimeWorkspaceRef::remote_uri("s3://tenant/session"),
    );

    let error = record.try_into_session_link().unwrap_err();

    assert!(error.message().contains("no local path binding"));
}

fn remote_can_be_bound_locally() {
    let external_session_id = ExternalSessionId::new_v4();
    let record = RuntimeSessionRecord::new(
        external_session_id,
        "goose-session-1",
        RuntimeWorkspaceRef::remote_uri("s3://tenant/session")
            .with_owner("alice")
            .with_mount_name("alice-workspace"),
    )
    .bind_local_workspace(PathBuf::from("/tmp/alice-workspace"));

    assert!(record.workspace.is_remote());
    assert!(record.workspace.is_local_bound());
    assert_eq!(record.workspace.owner_id.as_deref(), Some("alice"));
    assert_eq!(
        record.workspace.remote_uri.as_deref(),
        Some("s3://tenant/session")
    );

    let link = record.try_into_session_link().unwrap();

    assert_eq!(link.external_session_id, external_session_id);
    assert_eq!(link.goose_session_id, "goose-session-1");
    assert_eq!(link.working_dir, PathBuf::from("/tmp/alice-workspace"));
}

#[test]
fn lib_runtime_session_record_converts_local_session_link() {
    converts_local_session_link();
}

#[test]
fn lib_remote_runtime_workspace_requires_host_binding_before_goose_link() {
    remote_requires_host_binding();
}

#[test]
fn lib_remote_runtime_workspace_can_be_bound_to_local_goose_workspace() {
    remote_can_be_bound_locally();
}

#[test]
fn tests_runtime_session_record_converts_local_session_link() {
    converts_local_session_link();
}

#[test]
fn tests_remote_runtime_workspace_requires_host_binding_before_goose_link() {
    remote_requires_host_binding();
}

#[test]
fn tests_remote_runtime_workspace_can_be_bound_to_local_goose_workspace() {
    remote_can_be_bound_locally();
}

#[test]
fn new_record_has_empty_object_metadata() {
    let record = RuntimeSessionRecord::new(
        ExternalSessionId::new_v4(),
        "s",
        RuntimeWorkspaceRef::local_path(PathBuf::from("/w")),
    );
    assert_eq!(record.metadata, Value::Object(serde_json::Map::new()));
    assert_eq!(record.title, None);
    let with = record.with_metadata(Value::Bool(true));
    assert_eq!(with.metadata, Value::Bool(true));
}

#[test]
fn workspace_builders_set_their_field() {
    let workspace = RuntimeWorkspaceRef::local_path(PathBuf::from("/w"))
        .with_remote_uri("s3://x")
        .with_local_path(PathBuf::from("/v"));
    assert_eq!(workspace.local_path, Some(PathBuf::from("/v")));
    assert_eq!(workspace.remote_uri.as_deref(), Some("s3://x"));
    assert_eq!(workspace.require_local_path().unwrap(), PathBuf::from("/v"));
    assert_eq!(workspace.owner_id, None);
    assert_eq!(workspace.mount_name, None);
    let remote = RuntimeWorkspaceRef::remote_uri("s3://x");
    assert!(!remote.is_local_bound());
    assert!(remote.require_local_path().is_err());
}
