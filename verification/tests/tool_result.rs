use std::sync::Arc;

use tachyon::ir::ModelMediaSource;
use tachyon::ir::ModelToolCallId;
use tachyon::ir::ModelToolResult;
use tachyon::ir::ModelToolResultContent;
use tachyon::responses::FunctionCallOutputBody;
use tachyon::responses::FunctionCallOutputContentItem;
use tachyon::responses::FunctionCallOutputPayload;
use tachyon::responses::ImageDetail;
use tachyon::responses::ResponseInputItem;
use tachyon::tool_result::function_call_output_payload;
use tachyon::tool_result::model_tool_result;
use tachyon::tool_result::response_item_from_model_tool_result;
use tachyon::tool_result::response_media_uri;
use tachyon::tool_result::to_response_item;
use tachyon::tools::DiscoveredFreeformInputFormat;
use tachyon::tools::DiscoveredToolAvailability;
use tachyon::tools::DiscoveredToolSpec;
use tachyon::tools::ToolPayload;
use tachyon::tools::ToolResult;
use tachyon::tools::ToolResultContent;

fn media_items(detail: ImageDetail) -> Vec<FunctionCallOutputContentItem> {
    vec![
        FunctionCallOutputContentItem::InputText { text: "before".to_string() },
        FunctionCallOutputContentItem::InputImage { image_url: "image".to_string(), detail: Some(detail) },
        FunctionCallOutputContentItem::InputAudio { audio_url: "audio".to_string() },
        FunctionCallOutputContentItem::InputText { text: "after".to_string() },
    ]
}

fn response_output(actual: ResponseInputItem) -> (String, FunctionCallOutputPayload) {
    match actual {
        ResponseInputItem::FunctionCallOutput { call_id, output }
        | ResponseInputItem::CustomToolCallOutput { call_id, output, .. } => (call_id, output),
        actual => panic!("unexpected tool output: {actual:?}"),
    }
}

fn function_output(body: FunctionCallOutputBody, success: Option<bool>) -> ToolResult {
    ToolResult::from_function_call_output(&FunctionCallOutputPayload { body, success })
        .expect("known function output should project")
}

#[test]
fn neutral_json_result_stays_structured_until_the_adapter_boundary() {
    let value: serde_json::Value = serde_json::from_str(r#"{"answer": 42}"#).unwrap();
    let result = ToolResult {
        content: vec![ToolResultContent::Json(value.clone())],
        is_error: Some(true),
    };
    let expected = ModelToolResult {
        call_id: ModelToolCallId("json-call".to_string()),
        content: vec![ModelToolResultContent::Json(value)],
        is_error: Some(true),
    };
    assert_eq!(model_tool_result(result.clone(), "json-call"), Some(expected));
    let payload = ToolPayload::Function { arguments: "{}".into() };
    let (call_id, output) = response_output(to_response_item(result, "json-call", &payload).unwrap());
    assert_eq!(call_id, "json-call");
    assert_eq!(output.body, FunctionCallOutputBody::Text(r#"{"answer":42}"#.into()));
    assert_eq!(output.success, Some(false));
}

#[test]
fn function_and_custom_results_encode_exact_body_and_success() {
    for payload in [
        ToolPayload::Function { arguments: "{}".into() },
        ToolPayload::Custom { input: "custom".into() },
    ] {
        for success in [true, false] {
            let text = if success { "success" } else { "error" };
            let result = function_output(FunctionCallOutputBody::Text(text.into()), Some(success));
            let (call_id, output) = response_output(to_response_item(result, "call-1", &payload).unwrap());
            assert_eq!(call_id, "call-1");
            assert_eq!(output.body, FunctionCallOutputBody::Text(text.into()));
            assert_eq!(output.success, Some(success));
        }
    }
}

#[test]
fn mixed_text_image_audio_output_preserves_order_and_image_detail() {
    for detail in [ImageDetail::Auto, ImageDetail::Low, ImageDetail::High, ImageDetail::Original] {
        let items = media_items(detail);
        let result = function_output(FunctionCallOutputBody::ContentItems(items.clone()), Some(false));
        let payload = ToolPayload::Function { arguments: "{}".into() };
        let (call_id, output) = response_output(to_response_item(result, "media-call", &payload).unwrap());
        assert_eq!(call_id, "media-call");
        assert_eq!(output.body, FunctionCallOutputBody::ContentItems(items));
        assert_eq!(output.success, Some(false));
    }
}

#[test]
fn unknown_status_stays_unknown_on_egress() {
    let result = ToolResult { content: vec![ToolResultContent::Text("?".to_string())], is_error: None };
    let payload = ToolPayload::Custom { input: "x".into() };
    let item = to_response_item(result, "call-u", &payload).unwrap();
    assert_eq!(
        item,
        ResponseInputItem::CustomToolCallOutput {
            call_id: "call-u".to_string(),
            name: None,
            output: FunctionCallOutputPayload { body: FunctionCallOutputBody::Text("?".to_string()), success: None },
        }
    );
}

#[test]
fn inline_bytes_and_discovery_results_have_no_responses_encoding() {
    let bytes = ModelToolResult {
        call_id: ModelToolCallId("b".to_string()),
        content: vec![ModelToolResultContent::Image {
            source: ModelMediaSource::Bytes { media_type: "image/png".to_string(), data: Arc::from([1_u8]) },
            detail: None,
        }],
        is_error: Some(false),
    };
    assert_eq!(function_call_output_payload(&bytes), None);
    assert_eq!(
        response_media_uri(&ModelMediaSource::Bytes { media_type: "a/b".to_string(), data: Arc::from([0_u8]) }),
        None
    );
    assert_eq!(response_media_uri(&ModelMediaSource::Uri("u".to_string())), Some("u".to_string()));

    let discovered = ToolResult::success_discovered_tools(vec![DiscoveredToolSpec::Function {
        namespace: None,
        name: "lookup".to_string(),
        description: "Look up".to_string(),
        input_schema: serde_json::from_str(r#"{"type":"object"}"#).unwrap(),
        strict: false,
        availability: DiscoveredToolAvailability::Deferred,
    }]);
    let canonical = model_tool_result(discovered.clone(), "d").expect("function declarations project");
    let search = ToolPayload::ToolSearch { arguments: serde_json::Value::Null };
    assert_eq!(response_item_from_model_tool_result(&canonical, &search), None);
    let function = ToolPayload::Function { arguments: "{}".into() };
    assert_eq!(to_response_item(discovered, "d", &function), None);
}

#[test]
fn freeform_discovered_tool_outside_a_namespace_has_no_canonical_form() {
    let freeform = |namespace: Option<&str>| DiscoveredToolSpec::Freeform {
        namespace: namespace.map(str::to_string),
        name: "apply_patch".to_string(),
        description: "Apply".to_string(),
        input_format: DiscoveredFreeformInputFormat::Grammar {
            syntax: "lark".to_string(),
            definition: "start: x".to_string(),
        },
        availability: DiscoveredToolAvailability::Immediate,
    };
    assert!(model_tool_result(ToolResult::success_discovered_tools(vec![freeform(None)]), "c").is_none());
    assert!(model_tool_result(ToolResult::success_discovered_tools(vec![freeform(Some("ns"))]), "c").is_some());
}
