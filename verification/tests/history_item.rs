use std::sync::Arc;

use tachyon::history::HistoryEnvelope;
use tachyon::history::HistoryImageDetail;
use tachyon::history::HistoryItem;
use tachyon::history::HistoryMediaSource;
use tachyon::history::HistoryMessage;
use tachyon::history::HistoryMessageContent;
use tachyon::history::HistoryMessageRole;
use tachyon::history::HistoryReasoning;
use tachyon::history::HistoryToolCall;
use tachyon::history::HistoryToolCallId;
use tachyon::history::HistoryToolInput;
use tachyon::history::HistoryToolResult;
use tachyon::history::HistoryToolResultContent;

#[test]
fn top_level_history_categories_are_distinct() {
    let items = [
        HistoryItem::Message(HistoryMessage {
            role: HistoryMessageRole::User,
            phase: None,
            content: vec![HistoryMessageContent::Text("hello".to_string())],
        }),
        HistoryItem::Reasoning(HistoryReasoning {
            summary: vec!["summary".to_string()],
            content: vec!["plain".to_string()],
        }),
        HistoryItem::ToolCall(HistoryToolCall {
            call_id: HistoryToolCallId("call-1".to_string()),
            namespace: Some("shell".to_string()),
            name: "run".to_string(),
            input: HistoryToolInput::Text("pwd".to_string()),
        }),
        HistoryItem::ToolResult(HistoryToolResult {
            call_id: HistoryToolCallId("call-1".to_string()),
            content: vec![HistoryToolResultContent::Text("/tmp".to_string())],
            is_error: Some(false),
        }),
    ];

    assert!(matches!(items[0], HistoryItem::Message(_)));
    assert!(matches!(items[1], HistoryItem::Reasoning(_)));
    assert!(matches!(items[2], HistoryItem::ToolCall(_)));
    assert!(matches!(items[3], HistoryItem::ToolResult(_)));
}

#[test]
fn tool_input_keeps_json_and_text_distinct() {
    let json = HistoryToolInput::Json(serde_json::from_str(r#"{"command": "pwd"}"#).unwrap());
    let text = HistoryToolInput::Text("{\"command\":\"pwd\"}".to_string());

    assert_ne!(json, text);
    assert!(matches!(json, HistoryToolInput::Json(serde_json::Value::Object(_))));
    assert!(matches!(text, HistoryToolInput::Text(_)));
}

#[test]
fn tool_result_preserves_tri_state_error_status() {
    let result = |is_error| HistoryToolResult {
        call_id: HistoryToolCallId("call-1".to_string()),
        content: Vec::new(),
        is_error,
    };

    assert_eq!(result(Some(true)).is_error, Some(true));
    assert_eq!(result(Some(false)).is_error, Some(false));
    assert_eq!(result(None).is_error, None);
}

#[test]
fn media_supports_uri_and_bytes_sources() {
    let uri = HistoryMediaSource::Uri("https://example.test/image.png".to_string());
    let bytes = HistoryMediaSource::Bytes {
        media_type: "image/png".to_string(),
        data: Arc::from([0_u8, 1, 2, 3]),
    };

    let image = HistoryMessageContent::Image {
        source: uri.clone(),
        detail: Some(HistoryImageDetail::High),
    };
    let audio = HistoryMessageContent::Audio {
        source: bytes.clone(),
    };

    assert!(matches!(uri, HistoryMediaSource::Uri(_)));
    assert!(matches!(bytes, HistoryMediaSource::Bytes { .. }));
    assert!(matches!(image, HistoryMessageContent::Image { .. }));
    assert!(matches!(audio, HistoryMessageContent::Audio { .. }));
}

#[derive(Debug, Clone, PartialEq, Eq)]
struct TestMetadata {
    budget: usize,
}

#[test]
fn generic_history_envelope_preserves_non_provider_item_and_metadata() {
    let mut envelope =
        HistoryEnvelope::with_metadata(String::from("first"), TestMetadata { budget: 2048 });

    assert_eq!(envelope.as_str(), "first");
    *envelope = String::from("second");
    assert_eq!(envelope.metadata.as_ref().unwrap().budget, 2048);
    assert_eq!(envelope.into_item(), "second");
}
