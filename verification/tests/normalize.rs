use tachyon::history::HistoryEnvelope;
use tachyon::normalize::ensure_call_outputs_present;
use tachyon::normalize::remove_corresponding_for;
use tachyon::normalize::remove_orphan_outputs;
use tachyon::normalize::tool_correlation;
use tachyon::normalize::HistoryToolSide;
use tachyon::normalize::ResponsesToolPairingClass;
use tachyon::responses::FunctionCallOutputBody;
use tachyon::responses::FunctionCallOutputPayload;
use tachyon::responses::LocalShellAction;
use tachyon::responses::LocalShellExecAction;
use tachyon::responses::LocalShellStatus;
use tachyon::responses::ResponseItem;
use tachyon::responses::ResponseItemEnvelope;

fn function_call(call_id: &str) -> ResponseItem {
    ResponseItem::FunctionCall {
        id: None,
        name: "shell".to_string(),
        namespace: None,
        arguments: "{}".to_string(),
        encrypted_function_args: None,
        call_id: call_id.to_string(),
        internal_chat_message_metadata_passthrough: None,
    }
}

fn function_output(call_id: &str, text: &str) -> ResponseItem {
    ResponseItem::FunctionCallOutput {
        id: None,
        call_id: Some(call_id.to_string()),
        name: None,
        namespace: None,
        output: FunctionCallOutputPayload::from_text(text.to_string()),
        internal_chat_message_metadata_passthrough: None,
    }
}

#[test]
fn function_call_and_output_share_responses_pairing_class() {
    let call = function_call("call-1");
    let output = function_output("call-1", "ok");

    let call = tool_correlation(&call).expect("call correlation");
    let output = tool_correlation(&output).expect("output correlation");
    assert_eq!(call.compatibility_pairing_class, ResponsesToolPairingClass::FunctionCallOutput);
    assert_eq!(output.compatibility_pairing_class, ResponsesToolPairingClass::FunctionCallOutput);
    assert_eq!(call.call_id, output.call_id);
    assert_eq!(call.side, HistoryToolSide::Call);
    assert_eq!(output.side, HistoryToolSide::Output);
    assert!(output.local_counterpart_required);
}

#[test]
fn server_tool_search_output_does_not_require_local_call() {
    let output = ResponseItem::ToolSearchOutput {
        id: None,
        call_id: Some("search-1".to_string()),
        status: "completed".to_string(),
        execution: "server".to_string(),
        tools: Vec::new(),
        internal_chat_message_metadata_passthrough: None,
    };

    let correlation = tool_correlation(&output).expect("tool search correlation");
    assert_eq!(correlation.compatibility_pairing_class, ResponsesToolPairingClass::ToolSearchOutput);
    assert_eq!(correlation.side, HistoryToolSide::Output);
    assert!(!correlation.local_counterpart_required);
}

#[test]
fn missing_optional_call_ids_do_not_create_false_correlations() {
    let output = ResponseItem::FunctionCallOutput {
        id: None,
        call_id: None,
        name: None,
        namespace: None,
        output: FunctionCallOutputPayload::from_text("legacy".to_string()),
        internal_chat_message_metadata_passthrough: None,
    };

    assert_eq!(tool_correlation(&output), None);
}

#[test]
fn function_output_removal_prefers_function_call_over_local_shell_call() {
    let call_id = "shared-call";
    let mut items = vec![
        ResponseItemEnvelope::new(ResponseItem::LocalShellCall {
            id: None,
            call_id: Some(call_id.to_string()),
            status: LocalShellStatus::Completed,
            action: LocalShellAction::Exec(LocalShellExecAction {
                command: vec!["echo".to_string(), "local".to_string()],
                timeout_ms: None,
                working_directory: None,
                env: None,
                user: None,
            }),
            internal_chat_message_metadata_passthrough: None,
        }),
        ResponseItemEnvelope::new(ResponseItem::FunctionCall {
            id: None,
            name: "do_it".to_string(),
            namespace: None,
            arguments: "{}".to_string(),
            call_id: call_id.to_string(),
            encrypted_function_args: None,
            internal_chat_message_metadata_passthrough: None,
        }),
    ];
    let output = function_output(call_id, "ok");

    remove_corresponding_for(&mut items, &output);

    assert_eq!(items.len(), 1);
    assert!(matches!(
        &items[0].item,
        ResponseItem::LocalShellCall { call_id: Some(remaining_call_id), .. } if remaining_call_id.as_str() == call_id
    ));
}

#[test]
fn missing_outputs_are_inserted_right_after_their_calls() {
    let mut items: Vec<ResponseItemEnvelope> = vec![
        HistoryEnvelope::new(function_call("a")),
        HistoryEnvelope::new(function_call("b")),
        HistoryEnvelope::new(function_output("b", "done")),
    ];
    ensure_call_outputs_present(&mut items);
    assert_eq!(items.len(), 4);
    assert_eq!(items[0].item, function_call("a"));
    match &items[1].item {
        ResponseItem::FunctionCallOutput { call_id, output, .. } => {
            assert_eq!(call_id.as_deref(), Some("a"));
            assert_eq!(output.body, FunctionCallOutputBody::Text("aborted".to_string()));
        },
        other => panic!("expected a synthetic output, got {other:?}"),
    }
    assert_eq!(items[2].item, function_call("b"));
    assert_eq!(items[3].item, function_output("b", "done"));

    let before = items.clone();
    ensure_call_outputs_present(&mut items);
    assert_eq!(items, before);
}

#[test]
fn orphan_outputs_are_removed_and_answered_calls_kept() {
    let mut items: Vec<ResponseItemEnvelope> = vec![
        HistoryEnvelope::new(function_output("ghost", "lost")),
        HistoryEnvelope::new(function_call("real")),
        HistoryEnvelope::new(function_output("real", "ok")),
    ];
    remove_orphan_outputs(&mut items);
    assert_eq!(items.len(), 2);
    assert_eq!(items[0].item, function_call("real"));
    assert_eq!(items[1].item, function_output("real", "ok"));
}
