use tachyon::history::HistoryEnvelope;
use tachyon::history::HistoryItem;
use tachyon::history::HistoryMessageRole;
use tachyon::projection::HistoryProjectionFallback;
use tachyon::responses::CodexHarnessMetadata;
use tachyon::responses::ContentItem;
use tachyon::responses::ReasoningItemContent;
use tachyon::responses::ReasoningItemReasoningSummary;
use tachyon::responses::ResponseItem;
use tachyon::responses::ResponseItemEnvelope;
use tachyon::stored_history::SourceItemFacts;
use tachyon::stored_history::StoredHistoryEntry;

fn message(role: &str, text: &str) -> ResponseItem {
    ResponseItem::Message {
        id: None,
        role: role.to_string(),
        content: vec![ContentItem::InputText { text: text.to_string() }],
        phase: None,
        internal_chat_message_metadata_passthrough: None,
    }
}

fn facts() -> SourceItemFacts {
    SourceItemFacts {
        legacy_turn_boundary: false,
        contextual_user_content: false,
        inter_agent_content: false,
        authorization_message: false,
    }
}

#[test]
fn canonical_message_role_drives_turn_boundary() {
    let entry = StoredHistoryEntry::new(ResponseItemEnvelope::new(message("user", "hello")));

    assert!(matches!(
        entry.canonical(),
        Some(HistoryItem::Message(message)) if message.role == HistoryMessageRole::User
    ));
    assert!(entry.is_user_turn_boundary(facts()));
    assert!(entry.fallback().is_none());
}

#[test]
fn encrypted_reasoning_retains_exact_fallback_source() {
    let source = HistoryEnvelope::with_metadata(
        ResponseItem::Reasoning {
            id: None,
            summary: vec![ReasoningItemReasoningSummary::SummaryText { text: "summary".to_string() }],
            content: Some(vec![ReasoningItemContent::ReasoningText { text: "plain".to_string() }]),
            encrypted_content: Some("opaque".to_string()),
            internal_chat_message_metadata_passthrough: None,
        },
        CodexHarnessMetadata { client_authored: true, fallback_token_limit_override: Some(2048) },
    );
    let entry = StoredHistoryEntry::new(source.clone());

    assert_eq!(entry.canonical(), None);
    assert_eq!(entry.fallback(), Some(HistoryProjectionFallback::EncryptedReasoning));
    assert_eq!(entry.responses_compatibility(), &source);
    assert_eq!(entry.into_responses_compatibility(), source);
}

#[test]
fn unknown_role_retains_exact_fallback_source_after_replacement() {
    let unknown = ResponseItemEnvelope::new(message("future_role", "opaque"));
    let mut entry = StoredHistoryEntry::new(unknown.clone());
    assert_eq!(entry.fallback(), Some(HistoryProjectionFallback::UnknownMessageRole));
    assert_eq!(entry.responses_compatibility(), &unknown);
    assert_eq!(entry.clone().into_responses_compatibility(), unknown);

    entry = StoredHistoryEntry::new(ResponseItemEnvelope::new(message("assistant", "known")));
    assert!(matches!(
        entry.canonical(),
        Some(HistoryItem::Message(message)) if message.role == HistoryMessageRole::Assistant
    ));
    assert_eq!(entry.fallback(), None);
    assert_eq!(entry.responses_compatibility().item, message("assistant", "known"));
}

#[test]
fn turn_boundaries_follow_the_canonical_role_and_source_facts() {
    let user = StoredHistoryEntry::new(ResponseItemEnvelope::new(message("user", "hello")));
    let contextual = SourceItemFacts { contextual_user_content: true, ..facts() };
    assert!(!user.is_user_turn_boundary(contextual));

    let assistant = StoredHistoryEntry::new(ResponseItemEnvelope::new(message("assistant", "hi")));
    assert!(!assistant.is_user_turn_boundary(facts()));
    assert!(assistant.is_user_turn_boundary(SourceItemFacts { inter_agent_content: true, ..facts() }));

    let developer = StoredHistoryEntry::new(ResponseItemEnvelope::new(message("developer", "rules")));
    assert!(!developer.is_user_turn_boundary(SourceItemFacts { legacy_turn_boundary: true, ..facts() }));

    let unknown = StoredHistoryEntry::new(ResponseItemEnvelope::new(message("future_role", "x")));
    assert!(unknown.is_user_turn_boundary(SourceItemFacts { legacy_turn_boundary: true, ..facts() }));
    assert!(!unknown.is_user_turn_boundary(facts()));
}

#[test]
fn authorization_messages_are_user_messages_or_fallbacks() {
    let authorized = SourceItemFacts { authorization_message: true, ..facts() };
    let user = StoredHistoryEntry::new(ResponseItemEnvelope::new(message("user", "yes")));
    assert!(user.is_user_authorization_message(authorized));
    assert!(!user.is_user_authorization_message(facts()));
    let assistant = StoredHistoryEntry::new(ResponseItemEnvelope::new(message("assistant", "yes")));
    assert!(!assistant.is_user_authorization_message(authorized));
    let unknown = StoredHistoryEntry::new(ResponseItemEnvelope::new(message("future_role", "yes")));
    assert!(unknown.is_user_authorization_message(authorized));
}
