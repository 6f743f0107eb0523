//! Normalized agent loop events, their derivation from messages and source
//! events, and the lifecycle that wraps a run's events in a start and a
//! completion event.

use serde_json::Value;
use vstd::prelude::*;

use crate::json::{json_object, JsonObject};
use crate::message::{ActionRequiredData, Message, MessageContent, ToolCallRequest};
use crate::text::{decimal, opt_text, usize_decimal};

verus! {

/// What a host sees of a running agent loop.
#[derive(Clone, Debug)]
pub enum AgentLoopEvent {
    RunStarted { runtime_session_id: String },
    RunCompleted { runtime_session_id: String },
    Text { message_id: Option<String>, text: String },
    ToolCall { id: String, name: String, arguments: Value },
    ToolResult { id: String, ok: bool, summary: String },
    ActionRequired { id: String, kind: String, message: String },
    SystemNotification { message: String, data: Option<Value> },
    McpNotification { request_id: String, notification: String },
    HistoryReplaced { message_count: usize },
}

/// An event as text: the same variants with their strings as views.
pub enum AgentLoopEventView {
    RunStarted(Seq<char>),
    RunCompleted(Seq<char>),
    Text(Option<Seq<char>>, Seq<char>),
    ToolCall(Seq<char>, Seq<char>, Value),
    ToolResult(Seq<char>, bool, Seq<char>),
    ActionRequired(Seq<char>, Seq<char>, Seq<char>),
    SystemNotification(Seq<char>, Option<Value>),
    McpNotification(Seq<char>, Seq<char>),
    HistoryReplaced(usize),
}

impl View for AgentLoopEvent {
    type V = AgentLoopEventView;

    open spec fn view(&self) -> AgentLoopEventView {
        match self {
            AgentLoopEvent::RunStarted { runtime_session_id } => AgentLoopEventView::RunStarted(
                runtime_session_id@,
            ),
            AgentLoopEvent::RunCompleted { runtime_session_id } => AgentLoopEventView::RunCompleted(
                runtime_session_id@,
            ),
            AgentLoopEvent::Text { message_id, text } => AgentLoopEventView::Text(
                opt_text(*message_id),
                text@,
            ),
            AgentLoopEvent::ToolCall { id, name, arguments } => AgentLoopEventView::ToolCall(
                id@,
                name@,
                *arguments,
            ),
            AgentLoopEvent::ToolResult { id, ok, summary } => AgentLoopEventView::ToolResult(
                id@,
                *ok,
                summary@,
            ),
            AgentLoopEvent::ActionRequired { id, kind, message } => AgentLoopEventView::ActionRequired(
                id@,
                kind@,
                message@,
            ),
            AgentLoopEvent::SystemNotification { message, data } => AgentLoopEventView::SystemNotification(
                message@,
                *data,
            ),
            AgentLoopEvent::McpNotification { request_id, notification } => AgentLoopEventView::McpNotification(
                request_id@,
                notification@,
            ),
            AgentLoopEvent::HistoryReplaced { message_count } => AgentLoopEventView::HistoryReplaced(
                *message_count,
            ),
        }
    }
}

/// The views of a list of events.
pub open spec fn event_views(events: Seq<AgentLoopEvent>) -> Seq<AgentLoopEventView> {
    events.map_values(|e: AgentLoopEvent| e@)
}

/// What a source runtime emits: whole messages, MCP notifications, and
/// history replacements.
#[derive(Debug)]
pub enum AgentLoopSourceEvent {
    Message(Message),
    McpNotification { request_id: String, notification: String },
    HistoryReplaced { message_count: usize },
}

/// The JSON value of a tool call's arguments (`null` when they cannot be
/// serialized).
pub uninterp spec fn arguments_json(arguments: Option<JsonObject>) -> Value;

/// `serde_json::to_value(&arguments)`, or `Value::Null` when that fails: the
/// arguments as one JSON value, an object with the same members when there
/// are arguments and `null` (no object) when there are none.
#[verifier::external_body]
fn tool_arguments_to_json(arguments: &Option<JsonObject>) -> (r: Value)
    ensures
        r == arguments_json(*arguments),
        json_object(r) == *arguments,
{
    serde_json::to_value(arguments).unwrap_or(Value::Null)
}

/// The prompt shown when a tool confirmation has none of its own.
pub open spec fn confirmation_prompt(tool_name: Seq<char>) -> Seq<char> {
    "Confirm tool call `"@ + tool_name + "` before continuing."@
}

/// The event a tool call request becomes: a call when it parsed, a failed
/// result naming the error when it did not.
pub open spec fn tool_request_event(
    id: Seq<char>,
    call: Result<ToolCallRequest, String>,
    failure_prefix: Seq<char>,
) -> AgentLoopEventView {
    match call {
        Ok(c) => AgentLoopEventView::ToolCall(id, c.name@, arguments_json(c.arguments)),
        Err(e) => AgentLoopEventView::ToolResult(id, false, failure_prefix + e@),
    }
}

/// The event an action request becomes.
pub open spec fn action_event(action: ActionRequiredData) -> AgentLoopEventView {
    match action {
        ActionRequiredData::ToolConfirmation { id, tool_name, prompt } => AgentLoopEventView::ActionRequired(
            id@,
            "tool_confirmation"@,
            match prompt {
                Some(p) => p@,
                None => confirmation_prompt(tool_name@),
            },
        ),
        ActionRequiredData::Elicitation { id, message } => AgentLoopEventView::ActionRequired(
            id@,
            "elicitation"@,
            message@,
        ),
        ActionRequiredData::ElicitationResponse { id } => AgentLoopEventView::ActionRequired(
            id@,
            "elicitation_response"@,
            "Elicitation response received."@,
        ),
    }
}

/// The event a content item becomes, if any: text, tool calls and results,
/// confirmations and other action requests, and system notifications do;
/// images and thinking do not.
pub open spec fn content_event(message_id: Option<Seq<char>>, content: MessageContent) -> Option<
    AgentLoopEventView,
> {
    match content {
        MessageContent::Text(text) => Some(AgentLoopEventView::Text(message_id, text@)),
        MessageContent::ToolRequest { id, tool_call } => Some(
            tool_request_event(id@, tool_call, "invalid tool call: "@),
        ),
        MessageContent::ToolResponse { id, tool_result } => Some(
            match tool_result {
                Ok(n) => AgentLoopEventView::ToolResult(
                    id@,
                    true,
                    "tool returned "@ + decimal(n as nat) + " content item(s)"@,
                ),
                Err(e) => AgentLoopEventView::ToolResult(id@, false, e@),
            },
        ),
        MessageContent::ToolConfirmationRequest { id, tool_name, prompt } => Some(
            AgentLoopEventView::ActionRequired(
                id@,
                "tool_confirmation"@,
                match prompt {
                    Some(p) => p@,
                    None => confirmation_prompt(tool_name@),
                },
            ),
        ),
        MessageContent::ActionRequired(action) => Some(action_event(action)),
        MessageContent::FrontendToolRequest { id, tool_call } => Some(
            tool_request_event(id@, tool_call, "invalid frontend tool call: "@),
        ),
        MessageContent::SystemNotification { msg, data } => Some(
            AgentLoopEventView::SystemNotification(msg@, data),
        ),
        MessageContent::Image => None,
        MessageContent::Thinking => None,
        MessageContent::RedactedThinking => None,
    }
}

/// The events of a message's content items, in order, skipping items that
/// become none.
pub open spec fn content_events(message_id: Option<Seq<char>>, contents: Seq<MessageContent>) -> Seq<
    AgentLoopEventView,
>
    decreases contents.len(),
{
    if contents.len() == 0 {
        Seq::empty()
    } else {
        let rest = content_events(message_id, contents.drop_last());
        match content_event(message_id, contents.last()) {
            Some(e) => rest.push(e),
            None => rest,
        }
    }
}

/// The events of a source event.
pub open spec fn source_events(event: AgentLoopSourceEvent) -> Seq<AgentLoopEventView> {
    match event {
        AgentLoopSourceEvent::Message(m) => content_events(opt_text(m.id), m.content@),
        AgentLoopSourceEvent::McpNotification { request_id, notification } => seq![
            AgentLoopEventView::McpNotification(request_id@, notification@),
        ],
        AgentLoopSourceEvent::HistoryReplaced { message_count } => seq![
            AgentLoopEventView::HistoryReplaced(message_count),
        ],
    }
}

/// A parsed tool call becomes the same event whether the model or the
/// frontend asked for it: a tool call under the request's id, with the
/// call's name and the JSON of its arguments.
pub proof fn law_frontend_calls_are_tool_calls(
    message_id: Option<Seq<char>>,
    id: String,
    call: ToolCallRequest,
)
    ensures
        content_event(
            message_id,
            MessageContent::FrontendToolRequest { id, tool_call: Ok(call) },
        ) == content_event(message_id, MessageContent::ToolRequest { id, tool_call: Ok(call) }),
        content_event(message_id, MessageContent::ToolRequest { id, tool_call: Ok(call) })
            == Some(AgentLoopEventView::ToolCall(id@, call.name@, arguments_json(call.arguments))),
{
}

/// `prefix` followed by `tail`.
fn text_with(prefix: &str, tail: &str) -> (r: String)
    ensures
        r@ == prefix@ + tail@,
{
    let mut out = prefix.to_owned();
    out.append(tail);
    out
}

/// The event of a tool call request.
fn tool_request_to_event(id: String, tool_call: Result<ToolCallRequest, String>, failure_prefix: &str) -> (r:
    AgentLoopEvent)
    ensures
        r@ == tool_request_event(id@, tool_call, failure_prefix@),
        tool_call matches Ok(c) ==> r matches AgentLoopEvent::ToolCall { arguments, .. }
            && json_object(arguments) == c.arguments,
{
    match tool_call {
        Ok(call) => {
            let arguments = tool_arguments_to_json(&call.arguments);
            AgentLoopEvent::ToolCall { id, name: call.name, arguments }
        },
        Err(error) => AgentLoopEvent::ToolResult {
            id,
            ok: false,
            summary: text_with(failure_prefix, error.as_str()),
        },
    }
}

/// The confirmation prompt, or the default one naming the tool.
fn prompt_or_default(prompt: Option<String>, tool_name: &String) -> (r: String)
    ensures
        r@ == match prompt {
            Some(p) => p@,
            None => confirmation_prompt(tool_name@),
        },
{
    match prompt {
        Some(p) => p,
        None => {
            let mut out = "Confirm tool call `".to_owned();
            out.append(tool_name.as_str());
            out.append("` before continuing.");
            out
        },
    }
}

/// The event of an action request.
fn action_required_to_loop_event(action: ActionRequiredData) -> (r: AgentLoopEvent)
    ensures
        r@ == action_event(action),
{
    match action {
        ActionRequiredData::ToolConfirmation { id, tool_name, prompt } => AgentLoopEvent::ActionRequired {
            id,
            kind: "tool_confirmation".to_owned(),
            message: prompt_or_default(prompt, &tool_name),
        },
        ActionRequiredData::Elicitation { id, message } => AgentLoopEvent::ActionRequired {
            id,
            kind: "elicitation".to_owned(),
            message,
        },
        ActionRequiredData::ElicitationResponse { id } => AgentLoopEvent::ActionRequired {
            id,
            kind: "elicitation_response".to_owned(),
            message: "Elicitation response received.".to_owned(),
        },
    }
}

/// The event a content item becomes, if any.
pub fn message_content_to_loop_event(message_id: Option<String>, content: MessageContent) -> (r:
    Option<AgentLoopEvent>)
    ensures
        match r {
            Some(e) => content_event(opt_text(message_id), content) == Some(e@),
            None => content_event(opt_text(message_id), content) is None,
        },
        content matches MessageContent::ToolRequest { tool_call: Ok(c), .. } ==> r matches Some(
            AgentLoopEvent::ToolCall { arguments, .. },
        ) && json_object(arguments) == c.arguments,
        content matches MessageContent::FrontendToolRequest { tool_call: Ok(c), .. } ==> r matches Some(
            AgentLoopEvent::ToolCall { arguments, .. },
        ) && json_object(arguments) == c.arguments,
{
    match content {
        MessageContent::Text(text) => Some(AgentLoopEvent::Text { message_id, text }),
        MessageContent::ToolRequest { id, tool_call } => Some(
            tool_request_to_event(id, tool_call, "invalid tool call: "),
        ),
        MessageContent::ToolResponse { id, tool_result } => Some(
            match tool_result {
                Ok(count) => {
                    let mut summary = "tool returned ".to_owned();
                    let digits = usize_decimal(count);
                    summary.append(digits.as_str());
                    summary.append(" content item(s)");
                    AgentLoopEvent::ToolResult { id, ok: true, summary }
                },
                Err(error) => AgentLoopEvent::ToolResult { id, ok: false, summary: error },
            },
        ),
        MessageContent::ToolConfirmationRequest { id, tool_name, prompt } => Some(
            AgentLoopEvent::ActionRequired {
                id,
                kind: "tool_confirmation".to_owned(),
                message: prompt_or_default(prompt, &tool_name),
            },
        ),
        MessageContent::ActionRequired(action) => Some(action_required_to_loop_event(action)),
        MessageContent::FrontendToolRequest { id, tool_call } => Some(
            tool_request_to_event(id, tool_call, "invalid frontend tool call: "),
        ),
        MessageContent::SystemNotification { msg, data } => Some(
            AgentLoopEvent::SystemNotification { message: msg, data },
        ),
        MessageContent::Image => None,
        MessageContent::Thinking => None,
        MessageContent::RedactedThinking => None,
    }
}

/// The events of a message: one per content item that becomes an event, in
/// order, each carrying the message's id where it has one.
pub fn message_to_loop_events(message: Message) -> (r: Vec<AgentLoopEvent>)
    ensures
        event_views(r@) == content_events(opt_text(message.id), message.content@),
{
    let ghost contents = message.content@;
    let ghost id_view = opt_text(message.id);
    let message_id = message.id;
    let mut items = message.content;
    let mut rest: Vec<MessageContent> = Vec::new();
    // Take the items out in order: reverse them, then pop.
    while items.len() > 0
        invariant
            rest@ + items@.reverse() == contents.reverse(),
        decreases items.len(),
    {
        let ghost before = items@;
        let item = items.pop().unwrap();
        proof {
            assert(before == items@.push(item));
            assert(before.reverse() =~= seq![item] + items@.reverse());
        }
        rest.push(item);
        proof {
            assert(rest@ + items@.reverse() =~= contents.reverse());
        }
    }
    proof {
        assert(items@.reverse() =~= Seq::<MessageContent>::empty());
        assert(rest@ =~= contents.reverse());
    }
    let mut events: Vec<AgentLoopEvent> = Vec::new();
    let ghost total = rest@.len();
    while rest.len() > 0
        invariant
            rest@.len() <= total,
            total == contents.len(),
            rest@ =~= contents.reverse().take(rest@.len() as int),
            id_view == opt_text(message_id),
            event_views(events@) == content_events(id_view, contents.take(total - rest@.len())),
        decreases rest.len(),
    {
        let ghost k = total - rest@.len();
        let ghost before = rest@;
        let item = rest.pop().unwrap();
        proof {
            assert(item == before[before.len() - 1]);
            assert(before[before.len() - 1] == contents.reverse()[before.len() - 1]);
            assert(contents.reverse()[before.len() - 1] == contents[k]);
            assert(contents.take(k + 1).drop_last() =~= contents.take(k));
            assert(contents.take(k + 1).last() == contents[k]);
            assert(rest@ =~= contents.reverse().take(rest@.len() as int));
        }
        let ghost events_before = events@;
        match message_content_to_loop_event(message_id.clone(), item) {
            Some(event) => {
                events.push(event);
                assert(event_views(events@) =~= event_views(events_before).push(event@));
            },
            None => {},
        }
    }
    proof {
        assert(contents.take(total as int) =~= contents);
    }
    events
}

/// The events a source event becomes: a message's content events, or the
/// notification or history replacement as one event.
pub fn source_event_to_loop_events(event: AgentLoopSourceEvent) -> (r: Vec<AgentLoopEvent>)
    ensures
        event_views(r@) == source_events(event),
{
    match event {
        AgentLoopSourceEvent::Message(message) => message_to_loop_events(message),
        AgentLoopSourceEvent::McpNotification { request_id, notification } => {
            let mut v: Vec<AgentLoopEvent> = Vec::new();
            v.push(AgentLoopEvent::McpNotification { request_id, notification });
            assert(event_views(v@) =~= source_events(event));
            v
        },
        AgentLoopSourceEvent::HistoryReplaced { message_count } => {
            let mut v: Vec<AgentLoopEvent> = Vec::new();
            v.push(AgentLoopEvent::HistoryReplaced { message_count });
            assert(event_views(v@) =~= source_events(event));
            v
        },
    }
}


/// Where a run stands in its lifecycle.
#[derive(Clone, Copy, Debug, PartialEq, Eq, Structural)]
pub enum LifecycleStage {
    Starting,
    Streaming,
    Finished,
}

/// What the lifecycle is told: the run starts, the inner stream yields an
/// event or fails, or the inner stream ends.
pub enum LifecycleInput<E> {
    Start,
    Event(AgentLoopEvent),
    Failed(E),
    Ended,
}

/// What the lifecycle answers: an event to emit, a failure to pass on, or
/// nothing.
pub enum LifecycleOutput<E> {
    Emit(AgentLoopEvent),
    Fail(E),
    Nothing,
}

/// An input, with its event as a view and without the failure.
pub enum LifecycleInputView {
    Start,
    Event(AgentLoopEventView),
    Failed,
    Ended,
}

/// An output, with its event as a view and without the failure.
pub enum LifecycleOutputView {
    Emit(AgentLoopEventView),
    Fail,
    Nothing,
}

pub open spec fn input_view<E>(input: LifecycleInput<E>) -> LifecycleInputView {
    match input {
        LifecycleInput::Start => LifecycleInputView::Start,
        LifecycleInput::Event(e) => LifecycleInputView::Event(e@),
        LifecycleInput::Failed(_) => LifecycleInputView::Failed,
        LifecycleInput::Ended => LifecycleInputView::Ended,
    }
}

pub open spec fn output_view<E>(output: LifecycleOutput<E>) -> LifecycleOutputView {
    match output {
        LifecycleOutput::Emit(e) => LifecycleOutputView::Emit(e@),
        LifecycleOutput::Fail(_) => LifecycleOutputView::Fail,
        LifecycleOutput::Nothing => LifecycleOutputView::Nothing,
    }
}

/// One lifecycle transition: the run's start emits `RunStarted`; while
/// streaming, inner events pass through, a failure ends the run and is passed
/// on, and the end of the inner stream emits `RunCompleted` and ends the run.
/// Anything else changes nothing.
pub open spec fn lifecycle_next(stage: LifecycleStage, id: Seq<char>, input: LifecycleInputView) -> (
    LifecycleStage,
    LifecycleOutputView,
) {
    match (stage, input) {
        (LifecycleStage::Starting, LifecycleInputView::Start) => (
            LifecycleStage::Streaming,
            LifecycleOutputView::Emit(AgentLoopEventView::RunStarted(id)),
        ),
        (LifecycleStage::Streaming, LifecycleInputView::Event(e)) => (
            LifecycleStage::Streaming,
            LifecycleOutputView::Emit(e),
        ),
        (LifecycleStage::Streaming, LifecycleInputView::Failed) => (
            LifecycleStage::Finished,
            LifecycleOutputView::Fail,
        ),
        (LifecycleStage::Streaming, LifecycleInputView::Ended) => (
            LifecycleStage::Finished,
            LifecycleOutputView::Emit(AgentLoopEventView::RunCompleted(id)),
        ),
        _ => (stage, LifecycleOutputView::Nothing),
    }
}

/// The stage after a sequence of inputs, and the outputs they produce.
pub open spec fn lifecycle_run(stage: LifecycleStage, id: Seq<char>, inputs: Seq<LifecycleInputView>) -> (
    LifecycleStage,
    Seq<LifecycleOutputView>,
)
    decreases inputs.len(),
{
    if inputs.len() == 0 {
        (stage, Seq::empty())
    } else {
        let (before, outputs) = lifecycle_run(stage, id, inputs.drop_last());
        let (after, output) = lifecycle_next(before, id, inputs.last());
        (after, outputs.push(output))
    }
}

/// The inputs of a run whose inner stream yields `events` and ends.
pub open spec fn streamed(events: Seq<AgentLoopEventView>) -> Seq<LifecycleInputView> {
    events.map_values(|e: AgentLoopEventView| LifecycleInputView::Event(e))
}

/// The outputs that pass `events` on.
pub open spec fn emitted(events: Seq<AgentLoopEventView>) -> Seq<LifecycleOutputView> {
    events.map_values(|e: AgentLoopEventView| LifecycleOutputView::Emit(e))
}

proof fn lemma_streaming_passes_events(id: Seq<char>, events: Seq<AgentLoopEventView>)
    ensures
        lifecycle_run(LifecycleStage::Streaming, id, streamed(events)) == (
            LifecycleStage::Streaming,
            emitted(events),
        ),
    decreases events.len(),
{
    if events.len() > 0 {
        lemma_streaming_passes_events(id, events.drop_last());
        assert(streamed(events).drop_last() =~= streamed(events.drop_last()));
        assert(emitted(events) =~= emitted(events.drop_last()).push(
            LifecycleOutputView::Emit(events.last()),
        ));
    } else {
        assert(streamed(events) =~= Seq::<LifecycleInputView>::empty());
        assert(emitted(events) =~= Seq::<LifecycleOutputView>::empty());
    }
}

proof fn lemma_run_append(
    stage: LifecycleStage,
    id: Seq<char>,
    a: Seq<LifecycleInputView>,
    b: Seq<LifecycleInputView>,
)
    ensures
        lifecycle_run(stage, id, a + b) == (
            lifecycle_run(lifecycle_run(stage, id, a).0, id, b).0,
            lifecycle_run(stage, id, a).1 + lifecycle_run(lifecycle_run(stage, id, a).0, id, b).1,
        ),
    decreases b.len(),
{
    if b.len() == 0 {
        assert(a + b =~= a);
        assert(lifecycle_run(stage, id, a).1 + Seq::<LifecycleOutputView>::empty() =~= lifecycle_run(
            stage,
            id,
            a,
        ).1);
    } else {
        lemma_run_append(stage, id, a, b.drop_last());
        assert((a + b).drop_last() =~= a + b.drop_last());
        assert((a + b).last() == b.last());
        let mid = lifecycle_run(stage, id, a);
        let rest = lifecycle_run(mid.0, id, b.drop_last());
        assert(mid.1 + rest.1.push(lifecycle_next(rest.0, id, b.last()).1) =~= (mid.1 + rest.1).push(
            lifecycle_next(rest.0, id, b.last()).1,
        ));
    }
}

/// A run whose inner stream yields `events` and then ends emits `RunStarted`,
/// the events in order, and `RunCompleted`, and is then finished.
pub proof fn law_lifecycle_wraps_events(id: Seq<char>, events: Seq<AgentLoopEventView>)
    ensures
        lifecycle_run(
            LifecycleStage::Starting,
            id,
            seq![LifecycleInputView::Start] + streamed(events) + seq![LifecycleInputView::Ended],
        ) == (
            LifecycleStage::Finished,
            seq![LifecycleOutputView::Emit(AgentLoopEventView::RunStarted(id))] + emitted(events)
                + seq![LifecycleOutputView::Emit(AgentLoopEventView::RunCompleted(id))],
        ),
{
    let start = seq![LifecycleInputView::Start];
    let end = seq![LifecycleInputView::Ended];
    assert(lifecycle_run(LifecycleStage::Starting, id, start) == (
        LifecycleStage::Streaming,
        seq![LifecycleOutputView::Emit(AgentLoopEventView::RunStarted(id))],
    )) by {
        reveal_with_fuel(lifecycle_run, 2);
        assert(start.drop_last() =~= Seq::<LifecycleInputView>::empty());
        assert(start.last() == LifecycleInputView::Start);
        assert(Seq::<LifecycleOutputView>::empty().push(
            LifecycleOutputView::Emit(AgentLoopEventView::RunStarted(id)),
        ) =~= seq![LifecycleOutputView::Emit(AgentLoopEventView::RunStarted(id))]);
    }
    lemma_streaming_passes_events(id, events);
    lemma_run_append(LifecycleStage::Starting, id, start, streamed(events));
    assert(lifecycle_run(LifecycleStage::Streaming, id, end) == (
        LifecycleStage::Finished,
        seq![LifecycleOutputView::Emit(AgentLoopEventView::RunCompleted(id))],
    )) by {
        reveal_with_fuel(lifecycle_run, 2);
        assert(end.drop_last() =~= Seq::<LifecycleInputView>::empty());
        assert(end.last() == LifecycleInputView::Ended);
        assert(Seq::<LifecycleOutputView>::empty().push(
            LifecycleOutputView::Emit(AgentLoopEventView::RunCompleted(id)),
        ) =~= seq![LifecycleOutputView::Emit(AgentLoopEventView::RunCompleted(id))]);
    }
    lemma_run_append(LifecycleStage::Starting, id, start + streamed(events), end);
}

proof fn lemma_run_len(stage: LifecycleStage, id: Seq<char>, inputs: Seq<LifecycleInputView>)
    ensures
        lifecycle_run(stage, id, inputs).1.len() == inputs.len(),
    decreases inputs.len(),
{
    if inputs.len() > 0 {
        lemma_run_len(stage, id, inputs.drop_last());
    }
}

/// Once a run has finished, whether by the end of the inner stream or by a
/// failure, no input produces anything more.
pub proof fn law_finished_run_is_silent(id: Seq<char>, inputs: Seq<LifecycleInputView>)
    ensures
        lifecycle_run(LifecycleStage::Finished, id, inputs).0 == LifecycleStage::Finished,
        forall|i: int|
            0 <= i < inputs.len() ==> #[trigger] lifecycle_run(
                LifecycleStage::Finished,
                id,
                inputs,
            ).1[i] == LifecycleOutputView::Nothing,
    decreases inputs.len(),
{
    if inputs.len() > 0 {
        law_finished_run_is_silent(id, inputs.drop_last());
        lemma_run_len(LifecycleStage::Finished, id, inputs.drop_last());
        let prev = lifecycle_run(LifecycleStage::Finished, id, inputs.drop_last());
        let outs = lifecycle_run(LifecycleStage::Finished, id, inputs).1;
        assert(outs == prev.1.push(LifecycleOutputView::Nothing));
        assert forall|i: int| 0 <= i < inputs.len() implies #[trigger] outs[i]
            == LifecycleOutputView::Nothing by {
            if i < inputs.len() - 1 {
                assert(outs[i] == prev.1[i]);
            }
        }
    }
}

/// The lifecycle of one run: it wraps the run's events in a start event and a
/// completion event carrying the runtime session id.
pub struct RunLifecycle {
    runtime_session_id: String,
    stage: LifecycleStage,
}

impl RunLifecycle {
    pub closed spec fn session_id(&self) -> Seq<char> {
        self.runtime_session_id@
    }

    pub closed spec fn current_stage(&self) -> LifecycleStage {
        self.stage
    }

    /// A run that has not started yet.
    pub fn new(runtime_session_id: String) -> (l: Self)
        ensures
            l.session_id() == runtime_session_id@,
            l.current_stage() == LifecycleStage::Starting,
    {
        RunLifecycle { runtime_session_id, stage: LifecycleStage::Starting }
    }

    /// Takes one input and answers what to do; a failure is passed on as it
    /// came.
    pub fn step<E>(&mut self, input: LifecycleInput<E>) -> (output: LifecycleOutput<E>)
        ensures
            final(self).session_id() == old(self).session_id(),
            (final(self).current_stage(), output_view(output)) == lifecycle_next(
                old(self).current_stage(),
                old(self).session_id(),
                input_view(input),
            ),
            output matches LifecycleOutput::Fail(e) ==> input == LifecycleInput::Failed(e),
    {
        match (self.stage, input) {
            (LifecycleStage::Starting, LifecycleInput::Start) => {
                self.stage = LifecycleStage::Streaming;
                LifecycleOutput::Emit(
                    AgentLoopEvent::RunStarted { runtime_session_id: self.runtime_session_id.clone() },
                )
            },
            (LifecycleStage::Streaming, LifecycleInput::Event(event)) => LifecycleOutput::Emit(event),
            (LifecycleStage::Streaming, LifecycleInput::Failed(error)) => {
                self.stage = LifecycleStage::Finished;
                LifecycleOutput::Fail(error)
            },
            (LifecycleStage::Streaming, LifecycleInput::Ended) => {
                self.stage = LifecycleStage::Finished;
                LifecycleOutput::Emit(
                    AgentLoopEvent::RunCompleted {
                        runtime_session_id: self.runtime_session_id.clone(),
                    },
                )
            },
            _ => LifecycleOutput::Nothing,
        }
    }
}

} // verus!

