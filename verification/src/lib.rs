//! Reusable runtime contracts for Goose hosts: agent loop control and
//! events, provider configuration, prompt policy assembly, session records
//! and history, and tool dispatch policy, also for MCP tools.

pub mod text;
pub mod order;
pub mod paths;
pub mod ids;
pub mod json;

pub mod prompt_policy;
pub mod prompt_assembly;

pub mod provider_retry;
pub mod provider_failure;
pub mod provider_config;
pub mod provider_runtime;
pub mod model_names;

pub mod message;
pub mod agent_loop;
pub mod loop_events;

pub mod session;
pub mod history;

pub mod tool_types;
pub mod tool_errors;
pub mod tool_policy;
pub mod tool_dispatch;
pub mod mcp_tools;

pub mod host_contracts;
