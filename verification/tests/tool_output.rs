use tachyon::responses::ContentItem;
use tachyon::responses::FunctionCallOutputBody;
use tachyon::responses::FunctionCallOutputContentItem;
use tachyon::responses::FunctionCallOutputPayload;
use tachyon::responses::ImageDetail;
use tachyon::responses::ResponseInputItem;
use tachyon::tools::content_items_to_code_mode_result;
use tachyon::tools::response_input_to_code_mode_result;
use tachyon::tools::JsonToolOutput;
use tachyon::tools::ToolOutput;
use tachyon::tools::ToolPayload;
use tachyon::tools::ToolResult;
use tachyon::tools::ToolResultContent;
use tachyon::tools::ToolResultImageDetail;

const IMAGE: &str = "https://example.test/image.png";
const AUDIO: &str = "https://example.test/audio.wav";

fn json(text: &str) -> serde_json::Value {
    serde_json::from_str(text).unwrap()
}

fn result(content: Vec<ToolResultContent>, is_error: Option<bool>) -> ToolResult {
    ToolResult { content, is_error }
}

fn text_result(text: &str, is_error: Option<bool>) -> ToolResult {
    result(vec![ToolResultContent::Text(text.into())], is_error)
}

fn json_result(value: serde_json::Value, is_error: Option<bool>) -> ToolResult {
    result(vec![ToolResultContent::Json(value)], is_error)
}

fn payload(body: FunctionCallOutputBody, success: Option<bool>) -> FunctionCallOutputPayload {
    FunctionCallOutputPayload { body, success }
}

fn text_item(text: &str) -> FunctionCallOutputContentItem {
    FunctionCallOutputContentItem::InputText { text: text.to_string() }
}

#[test]
fn constructors_and_json_outputs() {
    assert_eq!(ToolResult::success_text("ok"), text_result("ok", Some(false)));
    assert_eq!(ToolResult::error_text("failed"), text_result("failed", Some(true)));
    let ok = json(r#"{"answer": 42}"#);
    let error = json(r#"{"error": "failed"}"#);
    assert_eq!(ToolResult::success_json(ok.clone()), json_result(ok.clone(), Some(false)));
    assert_eq!(ToolResult::error_json(error.clone()), json_result(error.clone(), Some(true)));
    assert_eq!(
        JsonToolOutput::with_success(ok.clone(), Some(true)).to_tool_result(),
        Some(json_result(ok, Some(false)))
    );
    assert_eq!(
        JsonToolOutput::with_success(error.clone(), Some(false)).to_tool_result(),
        Some(json_result(error, Some(true)))
    );
    assert_eq!(
        JsonToolOutput::with_success(json(r#""unknown""#), None).to_tool_result(),
        Some(json_result(json(r#""unknown""#), None))
    );
}

#[test]
fn function_call_output_projects_content_or_falls_back() {
    for success in [Some(true), Some(false), None] {
        assert_eq!(
            ToolResult::from_function_call_output(&payload(
                FunctionCallOutputBody::Text("output".into()),
                success,
            )),
            Some(text_result("output", success.map(|success| !success)))
        );
    }

    let media_payload = payload(
        FunctionCallOutputBody::ContentItems(vec![
            text_item("before"),
            FunctionCallOutputContentItem::InputImage {
                image_url: IMAGE.to_string(),
                detail: Some(ImageDetail::Original),
            },
            FunctionCallOutputContentItem::InputAudio { audio_url: AUDIO.to_string() },
            text_item("after"),
        ]),
        Some(false),
    );
    let actual = ToolResult::from_function_call_output(&media_payload).unwrap();
    assert_eq!(actual.is_error, Some(true));
    assert!(matches!(
        actual.content.as_slice(),
        [
            ToolResultContent::Text(before),
            ToolResultContent::Image {
                uri: image,
                detail: Some(ToolResultImageDetail::Original)
            },
            ToolResultContent::Audio { uri: audio },
            ToolResultContent::Text(after),
        ] if before == "before" && image == IMAGE && audio == AUDIO && after == "after"
    ));

    let encrypted = payload(
        FunctionCallOutputBody::ContentItems(vec![
            text_item("visible"),
            FunctionCallOutputContentItem::EncryptedContent { encrypted_content: "opaque".to_string() },
        ]),
        Some(true),
    );
    let singleton = payload(FunctionCallOutputBody::ContentItems(vec![text_item("one")]), Some(true));
    for payload in [encrypted, singleton] {
        assert_eq!(ToolResult::from_function_call_output(&payload), None);
    }
}

#[test]
fn unknown_constructors_keep_unknown_status() {
    assert_eq!(ToolResult::unknown_text("maybe"), text_result("maybe", None));
    assert_eq!(ToolResult::unknown_json(json("[1,2]")), json_result(json("[1,2]"), None));
    let discovered = ToolResult::success_discovered_tools(Vec::new());
    assert_eq!(discovered.is_error, Some(false));
    assert_eq!(discovered.content, vec![ToolResultContent::DiscoveredTools(Vec::new())]);
}

#[test]
fn json_output_logs_compact_text_and_encodes_by_payload_kind() {
    let value = json(r#"{ "answer" : 42 }"#);
    let output = JsonToolOutput::with_success(value.clone(), Some(false));
    assert_eq!(output.log_output(), r#"{"answer":42}"#);
    assert!(!output.success_for_logging());
    assert!(JsonToolOutput::with_success(value.clone(), None).success_for_logging());
    assert!(!output.contains_external_context());
    assert!(JsonToolOutput::new(value.clone()).with_external_context().contains_external_context());

    let function = ToolPayload::Function { arguments: "{}".to_string() };
    let custom = ToolPayload::Custom { input: "patch".to_string() };
    let expected_output = payload(FunctionCallOutputBody::Text(r#"{"answer":42}"#.to_string()), Some(false));
    assert_eq!(
        output.to_response_item("call-7", &function),
        ResponseInputItem::FunctionCallOutput { call_id: "call-7".to_string(), output: expected_output.clone() }
    );
    assert_eq!(
        output.to_response_item("call-7", &custom),
        ResponseInputItem::CustomToolCallOutput { call_id: "call-7".to_string(), name: None, output: expected_output }
    );
    assert_eq!(output.post_tool_use_response("call-7", &function), Some(value.clone()));
    assert_eq!(output.post_tool_use_id("call-7"), "call-7");
    assert_eq!(output.post_tool_use_input(&function), None);
    assert_eq!(output.code_mode_result(&function), value);
}

#[test]
fn code_mode_joins_visible_parts_with_newlines() {
    let items = vec![
        text_item("first"),
        text_item("   "),
        FunctionCallOutputContentItem::InputImage { image_url: IMAGE.to_string(), detail: None },
        FunctionCallOutputContentItem::EncryptedContent { encrypted_content: "secret".to_string() },
        FunctionCallOutputContentItem::InputAudio { audio_url: "\t\n".to_string() },
        text_item("last"),
    ];
    assert_eq!(
        content_items_to_code_mode_result(&items),
        serde_json::Value::String(format!("first\n{IMAGE}\nlast"))
    );
    assert_eq!(content_items_to_code_mode_result(&Vec::new()), serde_json::Value::String(String::new()));
    assert_eq!(
        content_items_to_code_mode_result(&vec![text_item(" "), text_item("only")]),
        serde_json::Value::String("only".to_string())
    );
}

#[test]
fn code_mode_reads_messages_outputs_and_discovery_results() {
    let message = ResponseInputItem::Message {
        role: "user".to_string(),
        content: vec![
            ContentItem::InputText { text: "hello".to_string() },
            ContentItem::OutputText { text: "world".to_string() },
            ContentItem::InputImage { image_url: IMAGE.to_string(), detail: None },
        ],
    };
    assert_eq!(
        response_input_to_code_mode_result(message),
        serde_json::Value::String(format!("hello\nworld\n{IMAGE}"))
    );
    let text_output = ResponseInputItem::FunctionCallOutput {
        call_id: "c".to_string(),
        output: payload(FunctionCallOutputBody::Text("  raw  ".to_string()), None),
    };
    assert_eq!(response_input_to_code_mode_result(text_output), serde_json::Value::String("  raw  ".to_string()));
    let tools = vec![json(r#"{"name":"a"}"#)];
    let search = ResponseInputItem::ToolSearchOutput {
        call_id: "c".to_string(),
        status: "completed".to_string(),
        execution: "client".to_string(),
        tools: tools.clone(),
    };
    assert_eq!(response_input_to_code_mode_result(search), serde_json::Value::Array(tools));
}
