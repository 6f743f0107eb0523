# goose_agent_core

Runtime contracts for hosts that embed the Goose agent: agent loop control
and events, provider configuration, prompt policy, session records and
history, and tool dispatch policy. The library is written in Verus; every
function in `src/` carries a contract that Verus proves.

## Layout

- `src/` — the verified library.
  - `text.rs`, `order.rs`: text, white space and ordering of strings, with
    the lemmas the other modules use.
  - `ids.rs`, `json.rs`, `paths.rs`: identifiers, JSON values and paths as
    the contracts carry them.
  - `prompt_policy.rs`, `prompt_assembly.rs`: prompt policies, their merge
    and application to a target, host policy layers, and prompt assembly.
  - `provider_retry.rs`, `provider_failure.rs`, `provider_config.rs`,
    `provider_runtime.rs`, `model_names.rs`: provider retry budgets,
    failures, configuration and model hints, creation requests, and the
    Responses-API model-name rules.
  - `message.rs`, `agent_loop.rs`, `loop_events.rs`: the loop's view of a
    message, turn limits and the per-turn budget, the order in which a run
    applies its policies and starts the source loop, loop events, and the
    run lifecycle, each as a state machine.
  - `session.rs`, `history.rs`: session links, workspace references,
    runtime session records, and history entries.
  - `tool_types.rs`, `tool_errors.rs`, `tool_policy.rs`, `tool_dispatch.rs`,
    `mcp_tools.rs`: tool availability and approval, inventory visibility,
    registry validation, dispatch preparation, and their use with MCP tools.
  - `host_contracts.rs`: the mapping onto the Goose host's own mode,
    platform, session configuration, reply events and provider errors.
- `tests/` — tests of the library on concrete values.
- `app/` — unverified plumbing around the library: the async runtime and
  store traits, the event streams, retry backoff and provider metadata
  (floating point), and serde forms of the contract types.

Calls into outside crates (`serde_json`, `uuid`, `regex`, `tokio-util`,
`rmcp`) go through small trusted functions whose doc comments say what
their contracts claim.
