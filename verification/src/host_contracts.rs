//! How the runtime contracts map onto the Goose host's own configuration:
//! its mode and platform, its session configuration, its reply events, and
//! its provider metadata.

use rmcp::model::ServerNotification;
use vstd::prelude::*;

use crate::agent_loop::{AgentLoopRetrySpec, AgentLoopSessionSpec};
use crate::loop_events::{
    content_events, event_views, source_event_to_loop_events, AgentLoopEvent, AgentLoopEventView,
    AgentLoopSourceEvent,
};
use crate::message::Message;
use crate::provider_failure::{ProviderErrorKind, ProviderFailure};
use crate::text::opt_text;
use crate::prompt_policy::{RuntimeMode, RuntimePlatform};
use crate::provider_config::{
    ProviderRuntimeConfig, ProviderRuntimeConfigKey, ProviderRuntimeType, ProviderStreamingPolicy,
};

verus! {

/// How the Goose host decides on tool use.
#[derive(Clone, Copy, Debug, PartialEq, Eq, Structural)]
pub enum GooseMode {
    Auto,
    Approve,
    SmartApprove,
    Chat,
}

/// The Goose surface a session runs on.
#[derive(Clone, Copy, Debug, PartialEq, Eq, Structural)]
pub enum GoosePlatform {
    GooseCli,
    GooseDesktop,
}

/// The Goose mode of a runtime mode: the mode of the same name.
pub open spec fn mode_for(mode: RuntimeMode) -> GooseMode {
    match mode {
        RuntimeMode::Auto => GooseMode::Auto,
        RuntimeMode::Approve => GooseMode::Approve,
        RuntimeMode::SmartApprove => GooseMode::SmartApprove,
        RuntimeMode::Chat => GooseMode::Chat,
    }
}

pub fn goose_mode_from_policy(mode: RuntimeMode) -> (m: GooseMode)
    ensures
        m == mode_for(mode),
{
    match mode {
        RuntimeMode::Auto => GooseMode::Auto,
        RuntimeMode::Approve => GooseMode::Approve,
        RuntimeMode::SmartApprove => GooseMode::SmartApprove,
        RuntimeMode::Chat => GooseMode::Chat,
    }
}

/// The Goose platform of a runtime platform: the command line or the desktop.
pub fn goose_platform_from_policy(platform: RuntimePlatform) -> (p: GoosePlatform)
    ensures
        platform == RuntimePlatform::Cli ==> p == GoosePlatform::GooseCli,
        platform == RuntimePlatform::Desktop ==> p == GoosePlatform::GooseDesktop,
{
    match platform {
        RuntimePlatform::Cli => GoosePlatform::GooseCli,
        RuntimePlatform::Desktop => GoosePlatform::GooseDesktop,
    }
}

/// Distinct runtime modes map to distinct Goose modes, so the mode a host
/// asks for is never confused with another.
pub proof fn law_mode_mapping_is_injective(a: RuntimeMode, b: RuntimeMode)
    ensures
        mode_for(a) == mode_for(b) ==> a == b,
{
}

/// A check that decides whether a retried session succeeded.
#[derive(Clone, Debug, PartialEq, Eq)]
pub enum SuccessCheck {
    Shell { command: String },
}

/// How the Goose host retries a session.
#[derive(Clone, Debug, PartialEq, Eq)]
pub struct RetryConfig {
    pub max_retries: u32,
    pub checks: Vec<SuccessCheck>,
    pub on_failure: Option<String>,
    pub timeout_seconds: Option<u64>,
    pub on_failure_timeout_seconds: Option<u64>,
}

/// The Goose host's configuration of one session.
#[derive(Clone, Debug, PartialEq, Eq)]
pub struct SessionConfig {
    pub id: String,
    pub schedule_id: Option<String>,
    pub max_turns: Option<u32>,
    pub retry_config: Option<RetryConfig>,
}

/// The retry configuration of a loop retry spec: its retries and timeout,
/// with no success checks and no failure handler.
pub open spec fn retry_config_of(retry: RetryConfig, spec: AgentLoopRetrySpec) -> bool {
    &&& retry.max_retries == spec.max_retries
    &&& retry.checks@.len() == 0
    &&& retry.on_failure is None
    &&& retry.timeout_seconds == spec.timeout_seconds
    &&& retry.on_failure_timeout_seconds is None
}

pub fn retry_config_from_loop_spec(spec: AgentLoopRetrySpec) -> (r: RetryConfig)
    ensures
        retry_config_of(r, spec),
{
    RetryConfig {
        max_retries: spec.max_retries,
        checks: Vec::new(),
        on_failure: None,
        timeout_seconds: spec.timeout_seconds,
        on_failure_timeout_seconds: None,
    }
}

/// The session configuration of a loop session spec: the session id, no
/// schedule, the turn limit, and the retry configuration when there is one.
pub fn session_config_from_loop_spec(spec: AgentLoopSessionSpec) -> (c: SessionConfig)
    ensures
        c.id@ == spec.runtime_session_id@,
        c.schedule_id is None,
        c.max_turns == spec.max_turns,
        spec.retry is None <==> c.retry_config is None,
        spec.retry matches Some(r) ==> (c.retry_config matches Some(rc) && retry_config_of(rc, r)),
{
    let retry_config = match spec.retry {
        Some(retry) => Some(retry_config_from_loop_spec(retry)),
        None => None,
    };
    SessionConfig {
        id: spec.runtime_session_id,
        schedule_id: None,
        max_turns: spec.max_turns,
        retry_config,
    }
}

#[verifier::external_type_specification]
#[verifier::external_body]
pub struct ExMcpServerNotification(rmcp::model::ServerNotification);

/// The debug text of an MCP server notification.
pub uninterp spec fn notification_debug_text(notification: ServerNotification) -> Seq<char>;

/// `format!("{notification:?}")`: the notification's debug text.
#[verifier::external_body]
fn notification_text(notification: &ServerNotification) -> (r: String)
    ensures
        r@ == notification_debug_text(*notification),
{
    format!("{notification:?}")
}

/// An event of the Goose agent's reply stream: a message, an MCP server
/// notification for a request, or the replacement of the conversation.
pub enum AgentEvent {
    Message(Message),
    McpNotification((String, ServerNotification)),
    HistoryReplaced(Vec<Message>),
}

/// The source event of a reply event: the message itself, the notification
/// as its debug text, or the number of messages in the new conversation.
pub fn agent_event_to_source_event(event: AgentEvent) -> (r: AgentLoopSourceEvent)
    ensures
        match event {
            AgentEvent::Message(m) => r == AgentLoopSourceEvent::Message(m),
            AgentEvent::McpNotification((request_id, notification)) => r matches AgentLoopSourceEvent::McpNotification {
                request_id: id,
                notification: text,
            } && id == request_id && text@ == notification_debug_text(notification),
            AgentEvent::HistoryReplaced(conversation) => r == AgentLoopSourceEvent::HistoryReplaced {
                message_count: conversation@.len() as usize,
            },
        },
{
    match event {
        AgentEvent::Message(message) => AgentLoopSourceEvent::Message(message),
        AgentEvent::McpNotification((request_id, notification)) => {
            AgentLoopSourceEvent::McpNotification {
                request_id,
                notification: notification_text(&notification),
            }
        },
        AgentEvent::HistoryReplaced(conversation) => AgentLoopSourceEvent::HistoryReplaced {
            message_count: conversation.len(),
        },
    }
}

/// The loop events of a reply event.
pub open spec fn agent_events(event: AgentEvent) -> Seq<AgentLoopEventView> {
    match event {
        AgentEvent::Message(m) => content_events(opt_text(m.id), m.content@),
        AgentEvent::McpNotification((request_id, notification)) => seq![
            AgentLoopEventView::McpNotification(request_id@, notification_debug_text(notification)),
        ],
        AgentEvent::HistoryReplaced(conversation) => seq![
            AgentLoopEventView::HistoryReplaced(conversation@.len() as usize),
        ],
    }
}

/// The loop events of a reply event, through its source event.
pub fn agent_event_to_loop_events(event: AgentEvent) -> (r: Vec<AgentLoopEvent>)
    ensures
        event_views(r@) == agent_events(event),
{
    let source = agent_event_to_source_event(event);
    source_event_to_loop_events(source)
}

/// The streaming policy of a runtime configuration.
pub fn streaming_policy_from_runtime_config(config: &ProviderRuntimeConfig) -> (p:
    ProviderStreamingPolicy)
    ensures
        p == config.streaming,
{
    config.streaming_policy()
}

/// How the Goose host offers a provider.
#[derive(Clone, Copy, Debug, PartialEq, Eq, Structural)]
pub enum ProviderType {
    Preferred,
    Builtin,
    Declarative,
    Custom,
}

pub fn runtime_provider_type_from_provider_type(provider_type: ProviderType) -> (t:
    ProviderRuntimeType)
    ensures
        provider_type == ProviderType::Preferred ==> t == ProviderRuntimeType::Preferred,
        provider_type == ProviderType::Builtin ==> t == ProviderRuntimeType::Builtin,
        provider_type == ProviderType::Declarative ==> t == ProviderRuntimeType::Declarative,
        provider_type == ProviderType::Custom ==> t == ProviderRuntimeType::Custom,
{
    match provider_type {
        ProviderType::Preferred => ProviderRuntimeType::Preferred,
        ProviderType::Builtin => ProviderRuntimeType::Builtin,
        ProviderType::Declarative => ProviderRuntimeType::Declarative,
        ProviderType::Custom => ProviderRuntimeType::Custom,
    }
}

/// A configuration key a Goose provider reads.
#[derive(Clone, Debug, PartialEq, Eq)]
pub struct ConfigKey {
    pub name: String,
    pub required: bool,
    pub secret: bool,
    pub default: Option<String>,
    pub oauth_flow: bool,
    pub device_code_flow: bool,
    pub primary: bool,
}

/// The runtime form of a configuration key: the same fields.
pub fn runtime_config_key_from_config_key(key: ConfigKey) -> (k: ProviderRuntimeConfigKey)
    ensures
        k.name == key.name,
        k.required == key.required,
        k.secret == key.secret,
        k.default == key.default,
        k.oauth_flow == key.oauth_flow,
        k.device_code_flow == key.device_code_flow,
        k.primary == key.primary,
{
    ProviderRuntimeConfigKey {
        name: key.name,
        required: key.required,
        secret: key.secret,
        default: key.default,
        oauth_flow: key.oauth_flow,
        device_code_flow: key.device_code_flow,
        primary: key.primary,
    }
}

/// What a provider call of the Goose host failed with: the kind of error,
/// with the error's displayed message.
#[derive(Clone, Debug, PartialEq, Eq)]
pub enum ProviderError {
    Authentication(String),
    ContextLengthExceeded(String),
    RateLimitExceeded(String),
    CreditsExhausted(String),
    NetworkError(String),
    ServerError(String),
    EndpointNotFound(String),
    NotImplemented(String),
    RequestFailed(String),
    ExecutionError(String),
    UsageError(String),
}

/// The failure kind of a provider error, and whether a retry may help: rate
/// limits, network errors and server errors are retryable, the rest are not.
pub open spec fn failure_class(error: ProviderError) -> (ProviderErrorKind, bool) {
    match error {
        ProviderError::Authentication(_) => (ProviderErrorKind::Authentication, false),
        ProviderError::ContextLengthExceeded(_) => (ProviderErrorKind::ContextLengthExceeded, false),
        ProviderError::RateLimitExceeded(_) => (ProviderErrorKind::RateLimited, true),
        ProviderError::CreditsExhausted(_) => (ProviderErrorKind::CreditsExhausted, false),
        ProviderError::NetworkError(_) => (ProviderErrorKind::Network, true),
        ProviderError::ServerError(_) => (ProviderErrorKind::Server, true),
        ProviderError::EndpointNotFound(_) => (ProviderErrorKind::EndpointNotFound, false),
        ProviderError::NotImplemented(_) => (ProviderErrorKind::Unsupported, false),
        ProviderError::RequestFailed(_) => (ProviderErrorKind::RequestFailed, false),
        ProviderError::ExecutionError(_) => (ProviderErrorKind::Execution, false),
        ProviderError::UsageError(_) => (ProviderErrorKind::Execution, false),
    }
}

/// The displayed message of a provider error.
pub open spec fn error_message(error: ProviderError) -> Seq<char> {
    match error {
        ProviderError::Authentication(m) => m@,
        ProviderError::ContextLengthExceeded(m) => m@,
        ProviderError::RateLimitExceeded(m) => m@,
        ProviderError::CreditsExhausted(m) => m@,
        ProviderError::NetworkError(m) => m@,
        ProviderError::ServerError(m) => m@,
        ProviderError::EndpointNotFound(m) => m@,
        ProviderError::NotImplemented(m) => m@,
        ProviderError::RequestFailed(m) => m@,
        ProviderError::ExecutionError(m) => m@,
        ProviderError::UsageError(m) => m@,
    }
}

/// The normalized failure of a provider error: its kind and retryability,
/// its message, and no source.
pub fn provider_failure_from_error(error: ProviderError) -> (f: ProviderFailure)
    ensures
        (f.kind, f.retryable) == failure_class(error),
        f.message@ == error_message(error),
        f.source is None,
{
    let (kind, retryable, message) = match error {
        ProviderError::Authentication(m) => (ProviderErrorKind::Authentication, false, m),
        ProviderError::ContextLengthExceeded(m) => (ProviderErrorKind::ContextLengthExceeded, false, m),
        ProviderError::RateLimitExceeded(m) => (ProviderErrorKind::RateLimited, true, m),
        ProviderError::CreditsExhausted(m) => (ProviderErrorKind::CreditsExhausted, false, m),
        ProviderError::NetworkError(m) => (ProviderErrorKind::Network, true, m),
        ProviderError::ServerError(m) => (ProviderErrorKind::Server, true, m),
        ProviderError::EndpointNotFound(m) => (ProviderErrorKind::EndpointNotFound, false, m),
        ProviderError::NotImplemented(m) => (ProviderErrorKind::Unsupported, false, m),
        ProviderError::RequestFailed(m) => (ProviderErrorKind::RequestFailed, false, m),
        ProviderError::ExecutionError(m) => (ProviderErrorKind::Execution, false, m),
        ProviderError::UsageError(m) => (ProviderErrorKind::Execution, false, m),
    };
    ProviderFailure::new(kind, message.as_str(), retryable)
}

/// Only rate limits, network errors and server errors are worth retrying.
pub proof fn law_retryable_failures(error: ProviderError)
    ensures
        failure_class(error).1 <==> (error is RateLimitExceeded || error is NetworkError
            || error is ServerError),
{
}

} // verus!
