use std::sync::Arc;

use tachyon::codex_request::codex_media_source;
use tachyon::codex_request::codex_tools_from_model;
use tachyon::codex_request::model_input_item_from_response;
use tachyon::codex_request::model_message_role;
use tachyon::codex_request::prompt_from_model_request;
use tachyon::codex_request::response_item_from_model_input;
use tachyon::codex_request::response_message_role;
use tachyon::codex_request::try_model_request_from_prompt;
use tachyon::codex_request::BaseInstructions;
use tachyon::codex_request::Prompt;
use tachyon::codex_request::RequestConversionError;
use tachyon::ir::ModelContent;
use tachyon::ir::ModelFreeformInputFormat;
use tachyon::ir::ModelInputItem;
use tachyon::ir::ModelMediaSource;
use tachyon::ir::ModelMessage;
use tachyon::ir::ModelMessageRole;
use tachyon::ir::ModelOutputFormat;
use tachyon::ir::ModelReasoning;
use tachyon::ir::ModelRequest;
use tachyon::ir::ModelToolAvailability;
use tachyon::ir::ModelToolCall;
use tachyon::ir::ModelToolCallId;
use tachyon::ir::ModelToolInput;
use tachyon::ir::ModelToolPurpose;
use tachyon::ir::ModelToolSpec;
use tachyon::projection::TOOL_SEARCH_CLIENT_EXECUTION;
use tachyon::projection::TOOL_SEARCH_NAME;
use tachyon::codex_request::FREEFORM_GRAMMAR_FORMAT;
use tachyon::tool_schema::schema_has_responses_encrypted_marker;
use tachyon::tool_spec::FreeformTool;
use tachyon::tool_spec::FreeformToolFormat;
use tachyon::tool_spec::NamespaceDescription;
use tachyon::tool_spec::ResponsesApiNamespace;
use tachyon::tool_spec::ResponsesApiTool;
use tachyon::tool_spec::ResponsesApiNamespaceTool;
use tachyon::tool_spec::ToolSpec;
use tachyon::responses::ChatMessageMetadata;
use tachyon::responses::ContentItem;
use tachyon::responses::FunctionCallOutputBody;
use tachyon::responses::FunctionCallOutputContentItem;
use tachyon::responses::FunctionCallOutputPayload;
use tachyon::responses::ImageDetail;
use tachyon::responses::ReasoningItemContent;
use tachyon::responses::ReasoningItemReasoningSummary;
use tachyon::responses::ResponseItem;

fn json(text: &str) -> serde_json::Value {
    serde_json::from_str(text).unwrap()
}

fn prompt_with(input: Vec<ResponseItem>, tools: Vec<ToolSpec>) -> Prompt {
    Prompt {
        input,
        tools,
        parallel_tool_calls: true,
        base_instructions: BaseInstructions { text: "base instructions".to_string(), provenance: None },
        output_schema: Some(json(
            r#"{"type": "object", "properties": {"answer": {"type": "string"}}, "required": ["answer"], "additionalProperties": false}"#,
        )),
        output_schema_strict: true,
        cyber_access_program: None,
    }
}

fn assert_prompt_request_semantics_round_trip(prompt: &Prompt) -> ModelRequest {
    let request = try_model_request_from_prompt(prompt).expect("prompt should be canonicalizable");
    let rebuilt = prompt_from_model_request(&request, prompt).expect("request should rebuild");

    assert_eq!(rebuilt.input, prompt.input);
    assert_eq!(rebuilt.tools, prompt.tools);
    assert_eq!(rebuilt.parallel_tool_calls, prompt.parallel_tool_calls);
    assert_eq!(rebuilt.base_instructions, prompt.base_instructions);
    assert_eq!(rebuilt.output_schema, prompt.output_schema);
    assert_eq!(rebuilt.output_schema_strict, prompt.output_schema_strict);
    assert_eq!(rebuilt.cyber_access_program, prompt.cyber_access_program);

    request
}

fn invalid(message: &str) -> RequestConversionError {
    RequestConversionError::InvalidRequest(message.to_string())
}

#[test]
fn message_and_output_contract_round_trip_preserves_codex_decorations() {
    let metadata = ChatMessageMetadata { turn_id: Some("turn-1".to_string()) };
    let prompt = prompt_with(
        vec![ResponseItem::Message {
            id: Some("msg_request-bridge".to_string()),
            role: "user".to_string(),
            content: vec![
                ContentItem::InputText { text: "inspect this".to_string() },
                ContentItem::InputImage {
                    image_url: "data:image/png;base64,abc".to_string(),
                    detail: Some(ImageDetail::High),
                },
            ],
            phase: None,
            internal_chat_message_metadata_passthrough: Some(metadata),
        }],
        Vec::new(),
    );

    let request = assert_prompt_request_semantics_round_trip(&prompt);
    assert_eq!(request.instructions, "base instructions");
    assert!(matches!(request.output.format, ModelOutputFormat::JsonSchema { strict: true, .. }));
    assert!(matches!(
        request.input.as_slice(),
        [ModelInputItem::Message(ModelMessage { role: ModelMessageRole::User, .. })]
    ));
}

#[test]
fn reasoning_round_trip_preserves_provider_private_continuation() {
    let metadata = ChatMessageMetadata { turn_id: Some("turn-reasoning".to_string()) };
    let reasoning = ResponseItem::Reasoning {
        id: Some("rs_request-bridge".to_string()),
        summary: vec![
            ReasoningItemReasoningSummary::SummaryText { text: "first summary".to_string() },
            ReasoningItemReasoningSummary::SummaryText { text: "second summary".to_string() },
        ],
        content: Some(vec![
            ReasoningItemContent::ReasoningText { text: "internal reasoning".to_string() },
            ReasoningItemContent::Text { text: "exposed reasoning".to_string() },
        ]),
        encrypted_content: Some("opaque-provider-continuation".to_string()),
        internal_chat_message_metadata_passthrough: Some(metadata),
    };
    let prompt = prompt_with(vec![reasoning.clone()], Vec::new());

    let request = assert_prompt_request_semantics_round_trip(&prompt);
    assert_eq!(
        request.input,
        vec![ModelInputItem::Reasoning(ModelReasoning {
            summary: vec!["first summary".to_string(), "second summary".to_string()],
            content: vec!["internal reasoning".to_string(), "exposed reasoning".to_string()],
        })]
    );

    let rebuilt = prompt_from_model_request(&request, &prompt).expect("round trip");
    assert_eq!(rebuilt.input, vec![reasoning]);
}

#[test]
fn grammar_and_deferred_freeform_tool_round_trip() {
    let prompt = prompt_with(
        Vec::new(),
        vec![ToolSpec::Freeform(FreeformTool {
            name: "apply_patch".to_string(),
            description: "Apply a patch".to_string(),
            defer_loading: Some(true),
            format: FreeformToolFormat {
                format_type: FREEFORM_GRAMMAR_FORMAT.to_string(),
                syntax: "lark".to_string(),
                definition: "start: patch".to_string(),
            },
        })],
    );

    let request = assert_prompt_request_semantics_round_trip(&prompt);
    assert!(matches!(
        request.tools.as_slice(),
        [ModelToolSpec::Freeform {
            input_format: ModelFreeformInputFormat::Grammar { .. },
            availability: ModelToolAvailability::Deferred,
            purpose: ModelToolPurpose::Invocation,
            ..
        }]
    ));
}

#[test]
fn client_tool_search_maps_to_discovery_semantics_without_wire_variant() {
    let prompt = prompt_with(
        Vec::new(),
        vec![ToolSpec::ToolSearch {
            execution: TOOL_SEARCH_CLIENT_EXECUTION.to_string(),
            description: "Find additional tools".to_string(),
            parameters: json(
                r#"{"type": "object", "properties": {"query": {"type": "string"}}, "required": ["query"], "additionalProperties": false}"#,
            ),
        }],
    );

    let request = assert_prompt_request_semantics_round_trip(&prompt);
    assert!(matches!(
        request.tools.as_slice(),
        [ModelToolSpec::Function {
            name,
            purpose: ModelToolPurpose::Discovery,
            availability: ModelToolAvailability::Immediate,
            ..
        }] if name == TOOL_SEARCH_NAME
    ));
}

#[test]
fn tool_search_output_stays_on_legacy_path_until_discovery_result_ir_exists() {
    let prompt = prompt_with(
        vec![ResponseItem::ToolSearchOutput {
            id: None,
            call_id: Some("call-search-1".to_string()),
            status: "completed".to_string(),
            execution: TOOL_SEARCH_CLIENT_EXECUTION.to_string(),
            tools: vec![json(
                r#"{"type": "function", "name": "discovered_tool", "description": "A Responses-shaped discovered tool", "parameters": {"type": "object", "properties": {}, "additionalProperties": false}, "strict": false}"#,
            )],
            internal_chat_message_metadata_passthrough: None,
        }],
        Vec::new(),
    );

    assert_eq!(try_model_request_from_prompt(&prompt), None);
}

#[test]
fn function_call_and_text_result_round_trip_preserves_argument_bytes_and_metadata() {
    let metadata = ChatMessageMetadata { turn_id: Some("turn-tool".to_string()) };
    let arguments = "{ \"path\" : \"README.md\" }".to_string();
    let prompt = prompt_with(
        vec![
            ResponseItem::FunctionCall {
                id: Some("fc_request-bridge".to_string()),
                name: "read_file".to_string(),
                namespace: Some("workspace".to_string()),
                arguments: arguments.clone(),
                encrypted_function_args: Some(vec!["private-continuation".to_string()]),
                call_id: "call-1".to_string(),
                internal_chat_message_metadata_passthrough: Some(metadata.clone()),
            },
            ResponseItem::FunctionCallOutput {
                id: Some("fco_request-bridge".to_string()),
                call_id: Some("call-1".to_string()),
                name: Some("read_file".to_string()),
                namespace: Some("workspace".to_string()),
                output: FunctionCallOutputPayload {
                    body: FunctionCallOutputBody::Text("contents".to_string()),
                    success: Some(true),
                },
                internal_chat_message_metadata_passthrough: Some(metadata),
            },
        ],
        Vec::new(),
    );

    let request = assert_prompt_request_semantics_round_trip(&prompt);
    let ModelInputItem::ToolCall(call) = &request.input[0] else {
        panic!("expected canonical tool call");
    };
    assert_eq!(call.call_id.0, "call-1");
    assert_eq!(call.input, ModelToolInput::Json(json(r#"{"path": "README.md"}"#)));

    let rebuilt = prompt_from_model_request(&request, &prompt).expect("round trip");
    let ResponseItem::FunctionCall { arguments: rebuilt_arguments, encrypted_function_args, .. } = &rebuilt.input[0] else {
        panic!("expected function call");
    };
    assert_eq!(rebuilt_arguments, &arguments);
    assert_eq!(encrypted_function_args.as_deref(), Some(["private-continuation".to_string()].as_slice()));
}

#[test]
fn encrypted_tool_result_content_stays_on_legacy_path() {
    let prompt = prompt_with(
        vec![ResponseItem::FunctionCallOutput {
            id: None,
            call_id: Some("call-1".to_string()),
            name: None,
            namespace: None,
            output: FunctionCallOutputPayload::from_content_items(vec![FunctionCallOutputContentItem::EncryptedContent {
                encrypted_content: "opaque".to_string(),
            }]),
            internal_chat_message_metadata_passthrough: None,
        }],
        Vec::new(),
    );

    assert_eq!(try_model_request_from_prompt(&prompt), None);
}

#[test]
fn unconstrained_freeform_input_is_rejected_by_current_codex_adapter() {
    let prompt = prompt_with(Vec::new(), Vec::new());
    let mut request = try_model_request_from_prompt(&prompt).expect("empty prompt is canonical");
    request.tools.push(ModelToolSpec::Freeform {
        namespace: None,
        name: "raw".to_string(),
        description: "Raw input".to_string(),
        input_format: ModelFreeformInputFormat::Text,
        availability: ModelToolAvailability::Immediate,
        purpose: ModelToolPurpose::Invocation,
    });

    assert_eq!(
        prompt_from_model_request(&request, &prompt),
        Err(invalid("the current Codex adapter cannot represent unconstrained free-form tool input"))
    );
}

#[test]
fn access_programs_and_unknown_roles_stay_on_legacy_path() {
    let mut prompt = prompt_with(Vec::new(), Vec::new());
    prompt.cyber_access_program = Some("program".to_string());
    assert_eq!(try_model_request_from_prompt(&prompt), None);
    let request = ModelRequest::default();
    assert_eq!(
        prompt_from_model_request(&request, &prompt),
        Err(invalid("canonical request conversion does not support Codex access programs"))
    );

    let unknown = prompt_with(
        vec![ResponseItem::Message {
            id: None,
            role: "future_role".to_string(),
            content: Vec::new(),
            phase: None,
            internal_chat_message_metadata_passthrough: None,
        }],
        Vec::new(),
    );
    assert_eq!(try_model_request_from_prompt(&unknown), None);
}

#[test]
fn output_text_in_a_user_message_has_no_canonical_form() {
    let item = ResponseItem::Message {
        id: None,
        role: "user".to_string(),
        content: vec![ContentItem::OutputText { text: "odd".to_string() }],
        phase: None,
        internal_chat_message_metadata_passthrough: None,
    };
    assert_eq!(model_input_item_from_response(&item), None);
    assert_eq!(model_message_role("assistant"), Some(ModelMessageRole::Assistant));
    assert_eq!(model_message_role("Assistant"), None);
    assert_eq!(response_message_role(ModelMessageRole::Developer), "developer");
}

#[test]
fn rebuilding_against_a_mismatched_template_reports_each_mismatch() {
    let user = ResponseItem::Message {
        id: None,
        role: "user".to_string(),
        content: vec![ContentItem::InputText { text: "hi".to_string() }],
        phase: None,
        internal_chat_message_metadata_passthrough: None,
    };
    let prompt = prompt_with(vec![user.clone()], Vec::new());
    let mut request = try_model_request_from_prompt(&prompt).unwrap();

    request.input.push(ModelInputItem::Message(ModelMessage { role: ModelMessageRole::User, phase: None, content: Vec::new() }));
    assert_eq!(
        prompt_from_model_request(&request, &prompt),
        Err(invalid("canonical request input no longer matches the migration template"))
    );
    request.input.pop();

    let extra = ModelInputItem::Message(ModelMessage {
        role: ModelMessageRole::User,
        phase: None,
        content: vec![ModelContent::Text("a".to_string()), ModelContent::Text("b".to_string())],
    });
    assert_eq!(
        response_item_from_model_input(&extra, &user),
        Err(invalid("canonical message content no longer matches the migration template"))
    );
    let wrong_kind = ModelInputItem::Message(ModelMessage {
        role: ModelMessageRole::User,
        phase: None,
        content: vec![ModelContent::Audio { source: ModelMediaSource::Uri("a".to_string()) }],
    });
    assert_eq!(
        response_item_from_model_input(&wrong_kind, &user),
        Err(invalid("canonical content no longer matches the migration template"))
    );
    let call = ModelInputItem::ToolCall(ModelToolCall {
        call_id: ModelToolCallId("c".to_string()),
        namespace: None,
        name: "x".to_string(),
        input: ModelToolInput::Text("t".to_string()),
    });
    assert_eq!(
        response_item_from_model_input(&call, &user),
        Err(invalid("canonical request item no longer matches the migration template"))
    );
}

#[test]
fn function_call_arguments_are_reencoded_when_the_input_changed() {
    let legacy = ResponseItem::FunctionCall {
        id: None,
        name: "f".to_string(),
        namespace: None,
        arguments: "{ \"a\" : 1 }".to_string(),
        encrypted_function_args: None,
        call_id: "c".to_string(),
        internal_chat_message_metadata_passthrough: None,
    };
    let changed = ModelInputItem::ToolCall(ModelToolCall {
        call_id: ModelToolCallId("c".to_string()),
        namespace: None,
        name: "f".to_string(),
        input: ModelToolInput::Json(json(r#"{"a": 2}"#)),
    });
    let Ok(ResponseItem::FunctionCall { arguments, .. }) = response_item_from_model_input(&changed, &legacy) else {
        panic!("expected a function call");
    };
    assert_eq!(arguments, r#"{"a":2}"#);
    let text_input = ModelInputItem::ToolCall(ModelToolCall {
        call_id: ModelToolCallId("c".to_string()),
        namespace: None,
        name: "f".to_string(),
        input: ModelToolInput::Text("x".to_string()),
    });
    assert_eq!(
        response_item_from_model_input(&text_input, &legacy),
        Err(invalid("function-call migration template requires structured JSON input"))
    );
}

#[test]
fn inline_media_bytes_become_data_urls() {
    let source = ModelMediaSource::Bytes { media_type: "image/png".to_string(), data: Arc::from([0xfb_u8, 0xff, 0x00, 0x41]) };
    assert_eq!(codex_media_source(&source), "data:image/png;base64,+/8AQQ==");
    let two = ModelMediaSource::Bytes { media_type: "audio/wav".to_string(), data: Arc::from([0x4d_u8, 0x61]) };
    assert_eq!(codex_media_source(&two), "data:audio/wav;base64,TWE=");
    let three = ModelMediaSource::Bytes { media_type: "text/plain".to_string(), data: Arc::from(*b"Man") };
    assert_eq!(codex_media_source(&three), "data:text/plain;base64,TWFu");
    let none = ModelMediaSource::Bytes { media_type: "a/b".to_string(), data: Arc::from([] as [u8; 0]) };
    assert_eq!(codex_media_source(&none), "data:a/b;base64,");
    assert_eq!(codex_media_source(&ModelMediaSource::Uri("https://x".to_string())), "https://x");
}

#[test]
fn discovery_tools_must_be_the_root_client_search_tool() {
    let nested = ModelToolSpec::Function {
        namespace: Some("ns".to_string()),
        name: TOOL_SEARCH_NAME.to_string(),
        description: String::new(),
        input_schema: json("{}"),
        strict: false,
        availability: ModelToolAvailability::Immediate,
        purpose: ModelToolPurpose::Discovery,
    };
    assert_eq!(
        codex_tools_from_model(&vec![nested]),
        Err(invalid("discovery tools cannot be nested in a Codex tool namespace"))
    );
    let strict_search = ModelToolSpec::Function {
        namespace: None,
        name: TOOL_SEARCH_NAME.to_string(),
        description: String::new(),
        input_schema: json("{}"),
        strict: true,
        availability: ModelToolAvailability::Immediate,
        purpose: ModelToolPurpose::Discovery,
    };
    assert_eq!(
        codex_tools_from_model(&vec![strict_search]),
        Err(invalid("canonical discovery tool cannot be represented by the Codex adapter"))
    );
}

fn namespaced_function(namespace: Option<&str>, name: &str) -> ModelToolSpec {
    ModelToolSpec::Function {
        namespace: namespace.map(str::to_string),
        name: name.to_string(),
        description: format!("{name} tool"),
        input_schema: json("{\"type\":\"object\"}"),
        strict: false,
        availability: ModelToolAvailability::Deferred,
        purpose: ModelToolPurpose::Invocation,
    }
}

#[test]
fn consecutive_tools_of_one_namespace_are_grouped_with_the_default_description() {
    let tools = vec![
        namespaced_function(Some("workspace"), "read_file"),
        namespaced_function(Some("workspace"), "write_file"),
        namespaced_function(None, "shell"),
        namespaced_function(Some("workspace"), "list_dir"),
    ];
    let out = codex_tools_from_model(&tools).expect("encodable tools");
    assert_eq!(out.len(), 3);
    match &out[0] {
        ToolSpec::Namespace(ns) => {
            assert_eq!(ns.name, "workspace");
            assert_eq!(ns.description, NamespaceDescription::Default);
            let names: Vec<&str> = ns
                .tools
                .iter()
                .map(|t| match t {
                    ResponsesApiNamespaceTool::Function(f) => f.name.as_str(),
                    ResponsesApiNamespaceTool::Custom(f) => f.name.as_str(),
                })
                .collect();
            assert_eq!(names, vec!["read_file", "write_file"]);
            match &ns.tools[0] {
                ResponsesApiNamespaceTool::Function(f) => {
                    assert_eq!(f.description, "read_file tool");
                    assert_eq!(f.defer_loading, Some(true));
                    assert_eq!(f.parameters, json("{\"type\":\"object\"}"));
                    assert_eq!(f.output_schema, None);
                },
                other => panic!("expected a function member, got {other:?}"),
            }
        },
        other => panic!("expected a namespace, got {other:?}"),
    }
    match &out[1] {
        ToolSpec::Function(f) => assert_eq!(f.name, "shell"),
        other => panic!("expected a root function, got {other:?}"),
    }
    match &out[2] {
        ToolSpec::Namespace(ns) => {
            assert_eq!(ns.name, "workspace");
            assert_eq!(ns.tools.len(), 1);
        },
        other => panic!("expected a namespace, got {other:?}"),
    }
}

#[test]
fn client_tool_search_becomes_the_tool_search_declaration() {
    let search = ModelToolSpec::Function {
        namespace: None,
        name: TOOL_SEARCH_NAME.to_string(),
        description: "Find tools".to_string(),
        input_schema: json("{}"),
        strict: false,
        availability: ModelToolAvailability::Immediate,
        purpose: ModelToolPurpose::Discovery,
    };
    assert_eq!(
        codex_tools_from_model(&vec![search]),
        Ok(vec![ToolSpec::ToolSearch {
            execution: TOOL_SEARCH_CLIENT_EXECUTION.to_string(),
            description: "Find tools".to_string(),
            parameters: json("{}"),
        }])
    );
}

#[test]
fn default_namespace_description_round_trips_as_namespace_semantics() {
    let parameters = json(r#"{"type": "object", "properties": {}, "additionalProperties": false}"#);
    let prompt = prompt_with(
        Vec::new(),
        vec![ToolSpec::Namespace(ResponsesApiNamespace {
            name: "workspace".to_string(),
            description: NamespaceDescription::Default,
            tools: vec![ResponsesApiNamespaceTool::Function(ResponsesApiTool {
                name: "read_file".to_string(),
                description: "Read a file".to_string(),
                strict: false,
                defer_loading: None,
                parameters,
                output_schema: None,
            })],
        })],
    );

    let request = assert_prompt_request_semantics_round_trip(&prompt);
    assert!(matches!(
        request.tools.as_slice(),
        [ModelToolSpec::Function {
            namespace: Some(namespace),
            name,
            ..
        }] if namespace == "workspace" && name == "read_file"
    ));
}

#[test]
fn custom_namespace_description_stays_on_legacy_path() {
    let prompt = prompt_with(
        Vec::new(),
        vec![ToolSpec::Namespace(ResponsesApiNamespace {
            name: "workspace".to_string(),
            description: NamespaceDescription::Custom(
                "Custom namespace guidance that the canonical IR cannot preserve".to_string(),
            ),
            tools: Vec::new(),
        })],
    );

    assert_eq!(try_model_request_from_prompt(&prompt), None);
}

#[test]
fn provider_web_search_tool_stays_on_legacy_path() {
    let prompt = prompt_with(Vec::new(), vec![ToolSpec::WebSearch]);

    assert_eq!(try_model_request_from_prompt(&prompt), None);
}

#[test]
fn responses_encrypted_tool_schema_stays_on_legacy_path() {
    let parameters = json(
        r#"{"type": "object", "properties": {"secret": {"type": "string", "encrypted": true}}, "required": ["secret"], "additionalProperties": false}"#,
    );

    let prompt = prompt_with(
        Vec::new(),
        vec![ToolSpec::Function(ResponsesApiTool {
            name: "reviewed_secret_tool".to_string(),
            description: "Uses a provider-private reviewed parameter".to_string(),
            strict: false,
            defer_loading: None,
            parameters,
            output_schema: None,
        })],
    );

    assert_eq!(try_model_request_from_prompt(&prompt), None);
}

#[test]
fn function_tool_output_schema_stays_on_legacy_path_until_ir_supports_it() {
    let parameters = json(r#"{"type": "object", "properties": {}, "additionalProperties": false}"#);

    let prompt = prompt_with(
        Vec::new(),
        vec![ToolSpec::Function(ResponsesApiTool {
            name: "structured_result_tool".to_string(),
            description: "Has a harness-owned output contract".to_string(),
            strict: false,
            defer_loading: None,
            parameters,
            output_schema: Some(json(
                r#"{"type": "object", "properties": {"result": {"type": "string"}}, "required": ["result"], "additionalProperties": false}"#,
            )),
        })],
    );

    assert_eq!(try_model_request_from_prompt(&prompt), None);
}

#[test]
fn encrypted_markers_are_found_in_every_nested_schema_position() {
    for text in [
        r#"{"encrypted": true}"#,
        r#"{"items": {"encrypted": "aes"}}"#,
        r#"{"additionalProperties": {"encrypted": true}}"#,
        r#"{"anyOf": [{"type": "string"}, {"encrypted": true}]}"#,
        r#"{"oneOf": [{"encrypted": true}]}"#,
        r#"{"allOf": [{"properties": {"x": {"encrypted": true}}}]}"#,
        r#"{"$defs": {"a": {"encrypted": true}}}"#,
        r#"{"definitions": {"a": {"items": {"encrypted": true}}}}"#,
    ] {
        assert!(schema_has_responses_encrypted_marker(&json(text)), "{text}");
    }
    for text in [
        r#"{"encrypted": null}"#,
        r#"{"type": "object", "properties": {"encrypted": {"type": "string"}}}"#,
        r#"{"additionalProperties": false}"#,
        r#"{"required": ["encrypted"]}"#,
    ] {
        assert!(!schema_has_responses_encrypted_marker(&json(text)), "{text}");
    }
}

fn workspace_namespace(members: &[&str]) -> ToolSpec {
    ToolSpec::Namespace(ResponsesApiNamespace {
        name: "workspace".to_string(),
        description: NamespaceDescription::Default,
        tools: members
            .iter()
            .map(|name| {
                ResponsesApiNamespaceTool::Function(ResponsesApiTool {
                    name: name.to_string(),
                    description: format!("{name} tool"),
                    strict: false,
                    defer_loading: Some(true),
                    parameters: json(r#"{"type": "object"}"#),
                    output_schema: None,
                })
            })
            .collect(),
    })
}

#[test]
fn regroupable_tool_lists_round_trip_through_canonical_declarations() {
    let prompt = prompt_with(
        Vec::new(),
        vec![
            workspace_namespace(&["read_file", "list_dir"]),
            ToolSpec::Function(ResponsesApiTool {
                name: "shell".to_string(),
                description: "Run a command".to_string(),
                strict: true,
                defer_loading: None,
                parameters: json(r#"{"type": "object"}"#),
                output_schema: None,
            }),
            workspace_namespace(&["write_file"]),
        ],
    );
    let request = assert_prompt_request_semantics_round_trip(&prompt);
    assert_eq!(request.tools.len(), 4);
}

#[test]
fn tool_lists_that_regroup_differently_stay_on_legacy_path() {
    let merged = prompt_with(Vec::new(), vec![workspace_namespace(&["read_file"]), workspace_namespace(&["write_file"])]);
    assert_eq!(try_model_request_from_prompt(&merged), None);

    let empty = prompt_with(Vec::new(), vec![workspace_namespace(&[])]);
    assert_eq!(try_model_request_from_prompt(&empty), None);

    let refused = prompt_with(
        Vec::new(),
        vec![ToolSpec::Function(ResponsesApiTool {
            name: "eager".to_string(),
            description: "Never deferred".to_string(),
            strict: false,
            defer_loading: Some(false),
            parameters: json(r#"{"type": "object"}"#),
            output_schema: None,
        })],
    );
    assert_eq!(try_model_request_from_prompt(&refused), None);
}
