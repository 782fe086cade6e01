use tachyon::responses::ChatMessageMetadata;
use tachyon::responses::ContentItem;
use tachyon::responses::ImageDetail;
use tachyon::responses::MessagePhase;
use tachyon::responses::ResponseItem;
use tachyon::web_search::push_visible_message;
use tachyon::web_search::VisibleItemFacts;

fn message(id: Option<&str>, role: &str, content: Vec<ContentItem>) -> ResponseItem {
    ResponseItem::Message {
        id: id.map(str::to_string),
        role: role.to_string(),
        content,
        phase: Some(MessagePhase::Commentary),
        internal_chat_message_metadata_passthrough: Some(ChatMessageMetadata { turn_id: Some("t".to_string()) }),
    }
}

fn facts(is_user_turn: bool, agent_plaintext: Option<&str>) -> VisibleItemFacts {
    VisibleItemFacts { is_user_turn, agent_plaintext: agent_plaintext.map(str::to_string) }
}

#[test]
fn assistant_messages_are_kept_without_their_id() {
    let mut messages = Vec::new();
    let text = vec![ContentItem::OutputText { text: "answer".to_string() }];
    push_visible_message(&mut messages, &message(Some("msg_1"), "assistant", text.clone()), &facts(false, None));
    assert_eq!(messages, vec![message(None, "assistant", text)]);
}

#[test]
fn user_turns_keep_only_input_text() {
    let mut messages = Vec::new();
    let content = vec![
        ContentItem::InputText { text: "look".to_string() },
        ContentItem::InputImage { image_url: "img".to_string(), detail: Some(ImageDetail::Low) },
        ContentItem::InputText { text: "here".to_string() },
    ];
    push_visible_message(&mut messages, &message(Some("msg_2"), "user", content.clone()), &facts(true, None));
    assert_eq!(
        messages,
        vec![message(
            None,
            "user",
            vec![ContentItem::InputText { text: "look".to_string() }, ContentItem::InputText { text: "here".to_string() }],
        )]
    );

    push_visible_message(&mut messages, &message(None, "user", content.clone()), &facts(false, None));
    push_visible_message(
        &mut messages,
        &message(None, "user", vec![ContentItem::InputAudio { audio_url: "a".to_string() }]),
        &facts(true, None),
    );
    push_visible_message(&mut messages, &message(None, "developer", content), &facts(true, None));
    assert_eq!(messages.len(), 1);
}

#[test]
fn agent_messages_with_plaintext_are_relayed_as_assistant_messages() {
    let mut messages = Vec::new();
    let agent = ResponseItem::AgentMessage {
        id: Some("am".to_string()),
        author: "agent-a".to_string(),
        recipient: "agent-b".to_string(),
        content: Vec::new(),
        internal_chat_message_metadata_passthrough: None,
    };
    push_visible_message(&mut messages, &agent, &facts(false, None));
    assert!(messages.is_empty());
    push_visible_message(&mut messages, &agent, &facts(false, Some("status ok")));
    assert_eq!(
        messages,
        vec![ResponseItem::Message {
            id: None,
            role: "assistant".to_string(),
            content: vec![ContentItem::OutputText { text: "Agent message from agent-a:\nstatus ok".to_string() }],
            phase: None,
            internal_chat_message_metadata_passthrough: None,
        }]
    );
    push_visible_message(&mut messages, &ResponseItem::Other, &facts(true, Some("x")));
    assert_eq!(messages.len(), 1);
}
