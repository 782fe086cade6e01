//! The visible conversation messages that standalone web search sees.

use crate::history::HistoryMessageRole;
use crate::projection::spec_message_role;
use crate::responses::ChatMessageMetadata;
use crate::responses::ContentItem;
use crate::responses::ResponseItem;
use crate::text::str_eq;
use vstd::prelude::*;

verus! {

/// What the harness's item classifiers report of one history item.
#[derive(Debug, Clone, PartialEq, Eq)]
pub struct VisibleItemFacts {
    /// Whether a user message is a real user turn rather than harness-injected context.
    pub is_user_turn: bool,
    /// The plaintext content of an agent message, when it has one.
    pub agent_plaintext: Option<String>,
}

/// The text of the message that relays an agent message.
pub open spec fn agent_relay_text(author: Seq<char>, text: Seq<char>) -> Seq<char> {
    "Agent message from "@ + author + ":\n"@ + text
}

/// The input-text parts of a message's content, in order.
pub open spec fn input_text_parts(content: Seq<ContentItem>) -> Seq<ContentItem>
    decreases content.len(),
{
    if content.len() == 0 {
        Seq::empty()
    } else if content.last() is InputText {
        input_text_parts(content.drop_last()).push(content.last())
    } else {
        input_text_parts(content.drop_last())
    }
}

/// `new` is `old` with one message appended: no provider id, the given role text and content,
/// phase and metadata.
pub open spec fn appended_message(
    old: Seq<ResponseItem>,
    new: Seq<ResponseItem>,
    role: Seq<char>,
    content: Seq<ContentItem>,
    phase: Option<crate::responses::MessagePhase>,
    meta: Option<ChatMessageMetadata>,
) -> bool {
    &&& new.len() == old.len() + 1
    &&& new.drop_last() == old
    &&& new.last() matches ResponseItem::Message { id: None, role: r, content: c, phase: p, internal_chat_message_metadata_passthrough: m }
    &&& r@ == role
    &&& c@ == content
    &&& p == phase
    &&& m == meta
}

/// What web search sees of one more history item: an assistant message as it is; a real user
/// turn's message reduced to its input text, when any remains; an agent message with plaintext
/// relayed as an assistant message; all without provider item ids. Nothing else is visible.
pub open spec fn pushed_visible(item: ResponseItem, facts: VisibleItemFacts, old: Seq<ResponseItem>, new: Seq<ResponseItem>) -> bool {
    match item {
        ResponseItem::Message { role, content, phase, internal_chat_message_metadata_passthrough: meta, .. } =>
            if spec_message_role(role@) == Some(HistoryMessageRole::Assistant) {
                appended_message(old, new, role@, content@, phase, meta)
            } else if spec_message_role(role@) == Some(HistoryMessageRole::User) && facts.is_user_turn
                && input_text_parts(content@).len() > 0 {
                appended_message(old, new, role@, input_text_parts(content@), phase, meta)
            } else {
                new == old
            },
        ResponseItem::AgentMessage { author, internal_chat_message_metadata_passthrough: meta, .. } => match facts.agent_plaintext {
            Some(text) => {
                &&& new.len() == old.len() + 1
                &&& new.drop_last() == old
                &&& new.last() matches ResponseItem::Message { id: None, role: r, content: c, phase: None, internal_chat_message_metadata_passthrough: m }
                &&& r@ == "assistant"@
                &&& c@.len() == 1
                &&& c@[0] matches ContentItem::OutputText { text: t }
                &&& t@ == agent_relay_text(author@, text@)
                &&& m == meta
            },
            None => new == old,
        },
        _ => new == old,
    }
}

fn copy_content_item(item: &ContentItem) -> (r: ContentItem)
    ensures
        r == *item,
{
    match item {
        ContentItem::InputText { text } => ContentItem::InputText { text: text.clone() },
        ContentItem::InputImage { image_url, detail } => ContentItem::InputImage { image_url: image_url.clone(), detail: *detail },
        ContentItem::InputAudio { audio_url } => ContentItem::InputAudio { audio_url: audio_url.clone() },
        ContentItem::OutputText { text } => ContentItem::OutputText { text: text.clone() },
    }
}

fn copy_metadata(meta: &Option<ChatMessageMetadata>) -> (r: Option<ChatMessageMetadata>)
    ensures
        r == *meta,
{
    match meta {
        Some(m) => Some(ChatMessageMetadata { turn_id: m.turn_id.clone() }),
        None => None,
    }
}

/// The parts of a message content kept by `keep_input_text_only`, or all of them.
fn copy_content(content: &Vec<ContentItem>, input_text_only: bool) -> (r: Vec<ContentItem>)
    ensures
        input_text_only ==> r@ == input_text_parts(content@),
        !input_text_only ==> r@ == content@,
{
    let mut out: Vec<ContentItem> = Vec::new();
    let mut i: usize = 0;
    while i < content.len()
        invariant
            i <= content@.len(),
            input_text_only ==> out@ == input_text_parts(content@.subrange(0, i as int)),
            !input_text_only ==> out@ == content@.subrange(0, i as int),
        decreases content.len() - i,
    {
        let item = &content[i];
        proof {
            assert(content@.subrange(0, i + 1).drop_last() =~= content@.subrange(0, i as int));
            assert(content@.subrange(0, i + 1).last() == content@[i as int]);
        }
        let keep = match item {
            ContentItem::InputText { .. } => true,
            _ => !input_text_only,
        };
        if keep {
            out.push(copy_content_item(item));
        }
        proof {
            if !input_text_only {
                assert(out@ =~= content@.subrange(0, i + 1));
            }
        }
        i += 1;
    }
    proof {
        assert(content@.subrange(0, content@.len() as int) =~= content@);
    }
    out
}

/// Appends what web search sees of one history item to the visible messages.
pub fn push_visible_message(messages: &mut Vec<ResponseItem>, item: &ResponseItem, facts: &VisibleItemFacts)
    ensures
        pushed_visible(*item, *facts, old(messages)@, final(messages)@),
{
    let ghost pre = messages@;
    match item {
        ResponseItem::Message { role, content, phase, internal_chat_message_metadata_passthrough, .. } => {
            let assistant = str_eq(role.as_str(), "assistant");
            let user = str_eq(role.as_str(), "user");
            proof {
                reveal_strlit("system");
                reveal_strlit("developer");
                reveal_strlit("user");
                reveal_strlit("assistant");
                assert("user"@.len() == 4);
                assert("system"@.len() == 6);
                assert("developer"@.len() == 9);
                assert("assistant"@.len() == 9);
                assert("assistant"@[0] != "developer"@[0]);
            }
            if assistant {
                let copied = copy_content(content, false);
                messages.push(ResponseItem::Message {
                    id: None,
                    role: role.clone(),
                    content: copied,
                    phase: *phase,
                    internal_chat_message_metadata_passthrough: copy_metadata(internal_chat_message_metadata_passthrough),
                });
                assert(messages@.drop_last() =~= pre);
            } else if user && facts.is_user_turn {
                let kept = copy_content(content, true);
                if kept.len() > 0 {
                    messages.push(ResponseItem::Message {
                        id: None,
                        role: role.clone(),
                        content: kept,
                        phase: *phase,
                        internal_chat_message_metadata_passthrough: copy_metadata(internal_chat_message_metadata_passthrough),
                    });
                    assert(messages@.drop_last() =~= pre);
                }
            }
        },
        ResponseItem::AgentMessage { author, internal_chat_message_metadata_passthrough, .. } => {
            if let Some(text) = &facts.agent_plaintext {
                let mut relay = String::from_str("Agent message from ");
                relay.append(author.as_str());
                relay.append(":\n");
                relay.append(text.as_str());
                let mut content: Vec<ContentItem> = Vec::new();
                content.push(ContentItem::OutputText { text: relay });
                messages.push(ResponseItem::Message {
                    id: None,
                    role: "assistant".to_owned(),
                    content,
                    phase: None,
                    internal_chat_message_metadata_passthrough: copy_metadata(internal_chat_message_metadata_passthrough),
                });
                assert(messages@.drop_last() =~= pre);
                proof {
                    reveal_strlit("Agent message from ");
                    reveal_strlit(":\n");
                }
            }
        },
        _ => {},
    }
}

} // verus!
