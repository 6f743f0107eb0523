//! The parts of a conversation message that the agent loop and the session
//! history read: the message id, its author and, for each content item, its
//! kind and the fields the loop turns into events. Hosts convert their own
//! message type into this one.

use serde_json::Value;
use vstd::prelude::*;

use crate::json::JsonObject;

verus! {

/// A tool call the model asked for: the tool's name and its arguments.
#[derive(Clone, Debug)]
pub struct ToolCallRequest {
    pub name: String,
    pub arguments: Option<JsonObject>,
}

/// What a content item asks the host to act on.
#[derive(Clone, Debug)]
pub enum ActionRequiredData {
    ToolConfirmation { id: String, tool_name: String, prompt: Option<String> },
    Elicitation { id: String, message: String },
    ElicitationResponse { id: String },
}

/// One content item of a message. Failed tool calls and results carry the
/// text of their error; a tool result carries the number of its content
/// items.
#[derive(Debug)]
pub enum MessageContent {
    Text(String),
    Image,
    Thinking,
    RedactedThinking,
    ToolRequest { id: String, tool_call: Result<ToolCallRequest, String> },
    ToolResponse { id: String, tool_result: Result<usize, String> },
    ToolConfirmationRequest { id: String, tool_name: String, prompt: Option<String> },
    ActionRequired(ActionRequiredData),
    FrontendToolRequest { id: String, tool_call: Result<ToolCallRequest, String> },
    SystemNotification { msg: String, data: Option<Value> },
}

/// Who wrote a message.
#[derive(Clone, Copy, Debug, PartialEq, Eq, Structural)]
pub enum Role {
    User,
    Assistant,
}

/// A conversation message: its optional id, its author and its content
/// items.
#[derive(Debug)]
pub struct Message {
    pub id: Option<String>,
    pub role: Role,
    pub content: Vec<MessageContent>,
}

} // verus!
