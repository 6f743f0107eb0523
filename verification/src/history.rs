//! Runtime session history: the entry a message is kept as, and the message
//! that an entry's text stands for.

use serde_json::Value;
use vstd::prelude::*;

use crate::ids::{fresh_uuid, parse_uuid, parsed_uuid, uuid_text, uuid_to_string, ExternalSessionId};
use crate::message::{Message, MessageContent, Role};
use crate::session::RuntimeHistoryEntry;
use crate::text::{append_part, joined, lemma_joined_push, opt_text, str_eq};

verus! {

/// The texts of the text items among `content`, in order.
pub open spec fn message_texts(content: Seq<MessageContent>) -> Seq<Seq<char>>
    decreases content.len(),
{
    if content.len() == 0 {
        Seq::empty()
    } else {
        match content.last() {
            MessageContent::Text(text) => message_texts(content.drop_last()).push(text@),
            _ => message_texts(content.drop_last()),
        }
    }
}

/// A line feed, the separator of a message's texts in its history entry.
pub open spec fn line_feed() -> Seq<char> {
    seq!['\n']
}

/// The text a history entry keeps of a message: its text items joined by
/// line feeds.
pub open spec fn history_text(content: Seq<MessageContent>) -> Seq<char> {
    joined(message_texts(content), line_feed())
}

/// The name a history entry gives a role.
pub open spec fn role_text(role: Role) -> Seq<char> {
    match role {
        Role::Assistant => "assistant"@,
        Role::User => "user"@,
    }
}

fn role_name(role: Role) -> (r: String)
    ensures
        r@ == role_text(role),
{
    match role {
        Role::Assistant => "assistant".to_owned(),
        Role::User => "user".to_owned(),
    }
}

fn joined_texts(content: &Vec<MessageContent>) -> (r: String)
    ensures
        r@ == history_text(content@),
{
    let mut out = String::new();
    let mut count: usize = 0;
    let mut i: usize = 0;
    while i < content.len()
        invariant
            i <= content@.len(),
            count == message_texts(content@.take(i as int)).len(),
            count <= i,
            out@ == joined(message_texts(content@.take(i as int)), line_feed()),
        decreases content@.len() - i,
    {
        proof {
            assert(content@.take(i + 1).drop_last() =~= content@.take(i as int));
            assert(content@.take(i + 1).last() == content@[i as int]);
        }
        match &content[i] {
            MessageContent::Text(text) => {
                proof {
                    lemma_joined_push(message_texts(content@.take(i as int)), line_feed(), text@);
                    reveal_strlit("\n");
                }
                append_part(&mut out, count > 0, "\n", text.as_str());
                count = count + 1;
            },
            _ => {},
        }
        i = i + 1;
    }
    assert(content@.take(i as int) =~= content@);
    out
}

/// `entry` keeps `message`: the session, no task, the message's id as the
/// source id (and as the entry's id when that text is a UUID), the runtime
/// `"goose"`, the role's name, the message's texts joined by line feeds, and
/// the host's JSON form of the message.
pub open spec fn keeps_message(
    entry: RuntimeHistoryEntry,
    external_session_id: ExternalSessionId,
    message: Message,
    message_json: Option<Value>,
) -> bool {
    &&& entry.external_session_id == external_session_id
    &&& entry.external_task_id is None
    &&& opt_text(entry.source_message_id) == opt_text(message.id)
    &&& entry.runtime@ == "goose"@
    &&& entry.role@ == role_text(message.role)
    &&& entry.content@ == history_text(message.content@)
    &&& entry.message_json == message_json
    &&& (message.id matches Some(id) ==> (parsed_uuid(id@) matches Some(u) ==> entry.id == u))
}

/// The history entry a message is kept as, or `None` for a message without
/// content. The entry keeps the message's id as its source id (and as its
/// own id when that text is a UUID; else the entry gets a fresh random id),
/// its role, its text items joined by line feeds, and the host's JSON form
/// of the whole message.
pub fn runtime_history_from_message(
    external_session_id: ExternalSessionId,
    message: &Message,
    message_json: Option<Value>,
) -> (r: Option<RuntimeHistoryEntry>)
    ensures
        r is None <==> message.content@.len() == 0,
        r matches Some(entry) ==> keeps_message(entry, external_session_id, *message, message_json),
{
    // Without content items the joined text is empty too.
    if message.content.len() == 0 {
        return None;
    }
    let content = joined_texts(&message.content);
    let parsed = match &message.id {
        Some(id) => parse_uuid(id.as_str()),
        None => None,
    };
    let id = match parsed {
        Some(u) => u,
        None => fresh_uuid(),
    };
    let source_message_id = match &message.id {
        Some(id) => Some(id.clone()),
        None => None,
    };
    Some(
        RuntimeHistoryEntry {
            id,
            external_session_id,
            external_task_id: None,
            source_message_id,
            runtime: "goose".to_owned(),
            role: role_name(message.role),
            content,
            message_json,
        },
    )
}

impl RuntimeHistoryEntry {
    /// The history entry a message is kept as; see
    /// `runtime_history_from_message`.
    pub fn from_message(
        external_session_id: ExternalSessionId,
        message: &Message,
        message_json: Option<Value>,
    ) -> (r: Option<RuntimeHistoryEntry>)
        ensures
            r is None <==> message.content@.len() == 0,
            r matches Some(entry) ==> keeps_message(
                entry,
                external_session_id,
                *message,
                message_json,
            ),
    {
        runtime_history_from_message(external_session_id, message, message_json)
    }
}

/// `message` is what `entry`'s text stands for: an assistant message when
/// the entry's role is `"assistant"` and a user message otherwise, under the
/// entry's source id (else the text of the entry's own id), with the entry's
/// content as its one text item.
pub open spec fn reads_back(message: Message, entry: RuntimeHistoryEntry) -> bool {
    &&& message.role == (if entry.role@ == "assistant"@ {
        Role::Assistant
    } else {
        Role::User
    })
    &&& message.id matches Some(id) && id@ == (match entry.source_message_id {
        Some(source) => source@,
        None => uuid_text(entry.id),
    })
    &&& message.content@.len() == 1
    &&& message.content@[0] matches MessageContent::Text(text) && text@ == entry.content@
}

/// The message an entry's text stands for (see `reads_back`).
pub fn text_message_from_runtime_history(entry: &RuntimeHistoryEntry) -> (r: Message)
    ensures
        reads_back(r, *entry),
{
    let role = if str_eq(entry.role.as_str(), "assistant") {
        Role::Assistant
    } else {
        Role::User
    };
    let id = match &entry.source_message_id {
        Some(source) => source.clone(),
        None => uuid_to_string(&entry.id),
    };
    let mut content: Vec<MessageContent> = Vec::new();
    content.push(MessageContent::Text(entry.content.clone()));
    Message { id: Some(id), role, content }
}

/// Keeping a message in history and reading the entry back as text gives a
/// message with the same id and role whose one text item is the message's
/// texts joined by line feeds.
pub proof fn law_history_text_round_trip(
    message: Message,
    external_session_id: ExternalSessionId,
    message_json: Option<Value>,
    entry: RuntimeHistoryEntry,
    back: Message,
)
    requires
        message.id is Some,
        keeps_message(entry, external_session_id, message, message_json),
        reads_back(back, entry),
    ensures
        back.role == message.role,
        opt_text(back.id) == opt_text(message.id),
        back.content@.len() == 1,
        back.content@[0] matches MessageContent::Text(text) && text@ == history_text(
            message.content@,
        ),
{
    reveal_strlit("assistant");
    reveal_strlit("user");
    assert("user"@[0] != "assistant"@[0]);
}

} // verus!
