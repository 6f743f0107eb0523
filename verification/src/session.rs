//! Session records for runtimes that map external (cloud) sessions onto
//! Goose sessions: links, workspace references and runtime session records.

use std::path::PathBuf;
use serde_json::Value;
use vstd::prelude::*;

use crate::ids::{ExternalSessionId, ExternalTaskId};
use uuid::Uuid;
use crate::json::{empty_json_object, is_empty_json_object};

verus! {

/// An external session linked to a Goose session and its working directory.
#[derive(Clone, Debug)]
pub struct SessionLink {
    pub external_session_id: ExternalSessionId,
    pub goose_session_id: String,
    pub working_dir: PathBuf,
}

/// Where a session's workspace lives: a local path, a remote location, or
/// both, with the owner and mount name.
#[derive(Clone, Debug, PartialEq, Eq)]
pub struct RuntimeWorkspaceRef {
    pub owner_id: Option<String>,
    pub mount_name: Option<String>,
    pub local_path: Option<PathBuf>,
    pub remote_uri: Option<String>,
}

/// A workspace has no local path binding, so Goose cannot work in it.
#[derive(Clone, Copy, Debug, PartialEq, Eq)]
pub struct UnboundWorkspaceError {}

impl UnboundWorkspaceError {
    /// `"runtime workspace has no local path binding"`
    pub fn message(&self) -> (r: String)
        ensures
            r@ == "runtime workspace has no local path binding"@,
    {
        "runtime workspace has no local path binding".to_owned()
    }
}

/// An optional string that holds `s`.
pub open spec fn holds_text(o: Option<String>, s: Seq<char>) -> bool {
    o matches Some(t) && t@ == s
}

impl RuntimeWorkspaceRef {
    /// A workspace at a local path only.
    pub fn local_path(local_path: PathBuf) -> (w: Self)
        ensures
            w.owner_id is None,
            w.mount_name is None,
            w.local_path == Some(local_path),
            w.remote_uri is None,
    {
        RuntimeWorkspaceRef { owner_id: None, mount_name: None, local_path: Some(local_path), remote_uri: None }
    }

    /// A workspace at a remote location only.
    pub fn remote_uri(remote_uri: &str) -> (w: Self)
        ensures
            w.owner_id is None,
            w.mount_name is None,
            w.local_path is None,
            holds_text(w.remote_uri, remote_uri@),
    {
        RuntimeWorkspaceRef {
            owner_id: None,
            mount_name: None,
            local_path: None,
            remote_uri: Some(remote_uri.to_owned()),
        }
    }

    pub fn with_owner(self, owner_id: &str) -> (w: Self)
        ensures
            holds_text(w.owner_id, owner_id@),
            w.mount_name == self.mount_name,
            w.local_path == self.local_path,
            w.remote_uri == self.remote_uri,
    {
        let mut w = self;
        w.owner_id = Some(owner_id.to_owned());
        w
    }

    pub fn with_mount_name(self, mount_name: &str) -> (w: Self)
        ensures
            w.owner_id == self.owner_id,
            holds_text(w.mount_name, mount_name@),
            w.local_path == self.local_path,
            w.remote_uri == self.remote_uri,
    {
        let mut w = self;
        w.mount_name = Some(mount_name.to_owned());
        w
    }

    pub fn with_local_path(self, local_path: PathBuf) -> (w: Self)
        ensures
            w == (RuntimeWorkspaceRef { local_path: Some(local_path), ..self }),
    {
        let mut w = self;
        w.local_path = Some(local_path);
        w
    }

    pub fn with_remote_uri(self, remote_uri: &str) -> (w: Self)
        ensures
            w.owner_id == self.owner_id,
            w.mount_name == self.mount_name,
            w.local_path == self.local_path,
            holds_text(w.remote_uri, remote_uri@),
    {
        let mut w = self;
        w.remote_uri = Some(remote_uri.to_owned());
        w
    }

    /// The workspace is bound to a local path.
    pub fn is_local_bound(&self) -> (r: bool)
        ensures
            r == self.local_path is Some,
    {
        self.local_path.is_some()
    }

    /// The workspace has a remote location.
    pub fn is_remote(&self) -> (r: bool)
        ensures
            r == self.remote_uri is Some,
    {
        self.remote_uri.is_some()
    }

    /// The local path, or an error when the workspace has none.
    pub fn require_local_path(&self) -> (r: Result<PathBuf, UnboundWorkspaceError>)
        ensures
            self.local_path matches Some(p) ==> r == Ok::<PathBuf, UnboundWorkspaceError>(p),
            self.local_path is None ==> r is Err,
    {
        match &self.local_path {
            Some(path) => Ok(path.clone()),
            None => Err(UnboundWorkspaceError {  }),
        }
    }
}

/// A runtime session as a host records it.
#[derive(Clone, Debug, PartialEq, Eq)]
pub struct RuntimeSessionRecord {
    pub external_session_id: ExternalSessionId,
    pub runtime_session_id: String,
    pub title: Option<String>,
    pub workspace: RuntimeWorkspaceRef,
    pub metadata: Value,
}

impl RuntimeSessionRecord {
    /// A record without title, whose metadata is a JSON object without members.
    pub fn new(
        external_session_id: ExternalSessionId,
        runtime_session_id: &str,
        workspace: RuntimeWorkspaceRef,
    ) -> (r: Self)
        ensures
            r.external_session_id == external_session_id,
            r.runtime_session_id@ == runtime_session_id@,
            r.title is None,
            r.workspace == workspace,
            is_empty_json_object(r.metadata),
    {
        RuntimeSessionRecord {
            external_session_id,
            runtime_session_id: runtime_session_id.to_owned(),
            title: None,
            workspace,
            metadata: empty_json_object(),
        }
    }

    /// The record of a linked session: its Goose session and its working
    /// directory as the workspace's local path.
    pub fn from_session_link(link: SessionLink) -> (r: Self)
        ensures
            r.external_session_id == link.external_session_id,
            r.runtime_session_id@ == link.goose_session_id@,
            r.title is None,
            r.workspace == (RuntimeWorkspaceRef {
                owner_id: None,
                mount_name: None,
                local_path: Some(link.working_dir),
                remote_uri: None,
            }),
            is_empty_json_object(r.metadata),
    {
        Self::new(
            link.external_session_id,
            link.goose_session_id.as_str(),
            RuntimeWorkspaceRef::local_path(link.working_dir),
        )
    }

    pub fn with_title(self, title: &str) -> (r: Self)
        ensures
            r.external_session_id == self.external_session_id,
            r.runtime_session_id == self.runtime_session_id,
            holds_text(r.title, title@),
            r.workspace == self.workspace,
            r.metadata == self.metadata,
    {
        let mut r = self;
        r.title = Some(title.to_owned());
        r
    }

    pub fn with_metadata(self, metadata: Value) -> (r: Self)
        ensures
            r == (RuntimeSessionRecord { metadata, ..self }),
    {
        let mut r = self;
        r.metadata = metadata;
        r
    }

    /// Binds the workspace to a local path, keeping its other fields.
    pub fn bind_local_workspace(self, local_path: PathBuf) -> (r: Self)
        ensures
            r == (RuntimeSessionRecord {
                workspace: RuntimeWorkspaceRef { local_path: Some(local_path), ..self.workspace },
                ..self
            }),
    {
        let mut r = self;
        r.workspace = r.workspace.with_local_path(local_path);
        r
    }

    /// The session link of this record; an error when its workspace has no
    /// local path.
    pub fn try_into_session_link(&self) -> (r: Result<SessionLink, UnboundWorkspaceError>)
        ensures
            self.workspace.local_path is None <==> r is Err,
            r matches Ok(link) ==> link_of(link, *self),
    {
        let working_dir = match self.workspace.require_local_path() {
            Ok(path) => path,
            Err(e) => return Err(e),
        };
        Ok(
            SessionLink {
                external_session_id: self.external_session_id,
                goose_session_id: self.runtime_session_id.clone(),
                working_dir,
            },
        )
    }
}

/// One entry of a runtime session's history: the text of a message and,
/// when the host kept it, the whole message as JSON.
#[derive(Clone, Debug)]
pub struct RuntimeHistoryEntry {
    pub id: Uuid,
    pub external_session_id: ExternalSessionId,
    pub external_task_id: Option<ExternalTaskId>,
    pub source_message_id: Option<String>,
    pub runtime: String,
    pub role: String,
    pub content: String,
    pub message_json: Option<Value>,
}

/// `link` links the record's external session to its runtime session, in the
/// record's local workspace.
pub open spec fn link_of(link: SessionLink, record: RuntimeSessionRecord) -> bool {
    &&& link.external_session_id == record.external_session_id
    &&& link.goose_session_id@ == record.runtime_session_id@
    &&& record.workspace.local_path == Some(link.working_dir)
}

/// A record made from a link gives the same link back: the conversion is
/// lossless for locally bound sessions.
pub proof fn law_link_round_trip(link: SessionLink, record: RuntimeSessionRecord, back: SessionLink)
    requires
        record.external_session_id == link.external_session_id,
        record.runtime_session_id@ == link.goose_session_id@,
        record.workspace.local_path == Some(link.working_dir),
        link_of(back, record),
    ensures
        back.external_session_id == link.external_session_id,
        back.goose_session_id@ == link.goose_session_id@,
        back.working_dir == link.working_dir,
{
}

/// Binding a record's workspace to a local path makes it linkable, in that
/// path, whatever remote location it also has.
pub proof fn law_bound_workspace_is_linkable(record: RuntimeSessionRecord, path: PathBuf, back: SessionLink)
    requires
        link_of(
            back,
            RuntimeSessionRecord {
                workspace: RuntimeWorkspaceRef { local_path: Some(path), ..record.workspace },
                ..record
            },
        ),
    ensures
        back.working_dir == path,
        back.external_session_id == record.external_session_id,
        back.goose_session_id@ == record.runtime_session_id@,
{
}

} // verus!
