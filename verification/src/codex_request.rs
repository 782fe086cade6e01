//! Conversion between the Codex adapter's Responses-shaped prompt and the canonical model
//! request.
//!
//! A prompt is taken onto the canonical path only when converting it back through the adapter
//! reproduces it; provider-private decorations (item ids, passthrough metadata, encrypted
//! arguments, reasoning continuations, exact output encodings) are never copied into the
//! canonical request and are restored from the incoming prompt, used as a template.

use crate::data_url::data_url_from_bytes;
use crate::data_url::spec_data_url;
use crate::ir::ModelContent;
use crate::ir::ModelFreeformInputFormat;
use crate::ir::ModelImageDetail;
use crate::ir::ModelInputItem;
use crate::ir::ModelMediaSource;
use crate::ir::ModelMessage;
use crate::ir::ModelMessagePhase;
use crate::ir::ModelMessageRole;
use crate::ir::ModelOutputConfig;
use crate::ir::ModelOutputFormat;
use crate::ir::ModelReasoning;
use crate::ir::ModelRequest;
use crate::ir::ModelToolCall;
use crate::ir::ModelToolCallId;
use crate::ir::ModelToolInput;
use crate::ir::ModelToolResult;
use crate::ir::ModelToolResultContent;
use crate::ir::ModelToolSpec;
use crate::ir::ModelToolAvailability;
use crate::ir::ModelToolPurpose;
use crate::json::json_compact_text;
use crate::json::json_equal;
use crate::json::json_parse;
use crate::json::json_to_text;
use crate::json::json_values_equal;
use crate::json::parse_json;
use crate::projection::spec_is_error;
use crate::projection::spec_reasoning_contents;
use crate::projection::spec_reasoning_text;
use crate::projection::spec_summary_text;
use crate::projection::TOOL_SEARCH_CLIENT_EXECUTION;
use crate::projection::TOOL_SEARCH_NAME;
use crate::responses::ChatMessageMetadata;
use crate::responses::ContentItem;
use crate::responses::FunctionCallOutputBody;
use crate::responses::FunctionCallOutputContentItem;
use crate::responses::FunctionCallOutputPayload;
use crate::responses::ImageDetail;
use crate::responses::MessagePhase;
use crate::responses::ReasoningItemContent;
use crate::responses::ReasoningItemReasoningSummary;
use crate::responses::ResponseItem;
use crate::text::copy_strings;
use crate::text::str_eq;
use crate::ids::opt_view;
use crate::tool_schema::schema_has_marker;
use crate::tool_schema::schema_has_responses_encrypted_marker;
use crate::tool_spec::FreeformTool;
use crate::tool_spec::FreeformToolFormat;
use crate::tool_spec::NamespaceDescription;
use crate::tool_spec::ResponsesApiNamespace;
use crate::tool_spec::ResponsesApiNamespaceTool;
use crate::tool_spec::ResponsesApiTool;
use crate::tool_spec::ToolSpec;
use crate::tool_spec::same_tools;
use crate::tool_spec::tools_equal;
use crate::tool_spec::identical_member_tool;
use crate::tool_spec::identical_tool;
use crate::tool_spec::identical_tools;
use vstd::prelude::*;

verus! {

/// Error of a request conversion that cannot be carried out.
#[derive(Debug, Clone, PartialEq)]
pub enum RequestConversionError {
    /// The canonical request is not a valid request for this adapter.
    InvalidRequest(String),
}

/// Base instructions of a prompt, with where they came from.
#[derive(Debug, Clone, PartialEq)]
pub struct BaseInstructions {
    pub text: String,
    pub provenance: Option<String>,
}

/// The Responses-shaped prompt of one sampling request.
#[derive(Debug, Clone, PartialEq)]
pub struct Prompt {
    pub input: Vec<ResponseItem>,
    pub tools: Vec<ToolSpec>,
    pub parallel_tool_calls: bool,
    pub base_instructions: BaseInstructions,
    pub output_schema: Option<serde_json::Value>,
    pub output_schema_strict: bool,
    /// Request-authorization program of the Codex backend, when one applies.
    pub cyber_access_program: Option<String>,
}

// ---------------------------------------------------------------------------------------------
// Responses item -> canonical input item
// ---------------------------------------------------------------------------------------------

pub open spec fn spec_model_role(role: Seq<char>) -> Option<ModelMessageRole> {
    if role == "system"@ {
        Some(ModelMessageRole::System)
    } else if role == "developer"@ {
        Some(ModelMessageRole::Developer)
    } else if role == "user"@ {
        Some(ModelMessageRole::User)
    } else if role == "assistant"@ {
        Some(ModelMessageRole::Assistant)
    } else {
        None
    }
}

pub open spec fn spec_response_role(role: ModelMessageRole) -> Seq<char> {
    match role {
        ModelMessageRole::System => "system"@,
        ModelMessageRole::Developer => "developer"@,
        ModelMessageRole::User => "user"@,
        ModelMessageRole::Assistant => "assistant"@,
    }
}

pub open spec fn spec_model_phase(phase: MessagePhase) -> ModelMessagePhase {
    match phase {
        MessagePhase::Commentary => ModelMessagePhase::Commentary,
        MessagePhase::FinalAnswer => ModelMessagePhase::Final,
    }
}

pub open spec fn spec_response_phase(phase: ModelMessagePhase) -> MessagePhase {
    match phase {
        ModelMessagePhase::Commentary => MessagePhase::Commentary,
        ModelMessagePhase::Final => MessagePhase::FinalAnswer,
    }
}

pub open spec fn spec_model_detail(detail: ImageDetail) -> ModelImageDetail {
    match detail {
        ImageDetail::Auto => ModelImageDetail::Auto,
        ImageDetail::Low => ModelImageDetail::Low,
        ImageDetail::High => ModelImageDetail::High,
        ImageDetail::Original => ModelImageDetail::Original,
    }
}

pub open spec fn spec_response_detail(detail: ModelImageDetail) -> ImageDetail {
    match detail {
        ModelImageDetail::Auto => ImageDetail::Auto,
        ModelImageDetail::Low => ImageDetail::Low,
        ModelImageDetail::High => ImageDetail::High,
        ModelImageDetail::Original => ImageDetail::Original,
    }
}

pub open spec fn spec_opt_model_detail(detail: Option<ImageDetail>) -> Option<ModelImageDetail> {
    match detail {
        Some(d) => Some(spec_model_detail(d)),
        None => None,
    }
}

pub open spec fn spec_opt_response_detail(detail: Option<ModelImageDetail>) -> Option<ImageDetail> {
    match detail {
        Some(d) => Some(spec_response_detail(d)),
        None => None,
    }
}

/// The canonical content of one message part of a message with role `role`: input text belongs
/// to non-assistant roles and output text to the assistant.
pub open spec fn spec_model_content(content: ContentItem, role: Seq<char>) -> Option<ModelContent> {
    match content {
        ContentItem::InputText { text } => if role != "assistant"@ { Some(ModelContent::Text(text)) } else { None },
        ContentItem::OutputText { text } => if role == "assistant"@ { Some(ModelContent::Text(text)) } else { None },
        ContentItem::InputImage { image_url, detail } => Some(ModelContent::Image {
            source: ModelMediaSource::Uri(image_url),
            detail: spec_opt_model_detail(detail),
        }),
        ContentItem::InputAudio { audio_url } => Some(ModelContent::Audio { source: ModelMediaSource::Uri(audio_url) }),
    }
}

/// The canonical content of one function-output part; encrypted parts have none.
pub open spec fn spec_model_result_part(item: FunctionCallOutputContentItem) -> Option<ModelToolResultContent> {
    match item {
        FunctionCallOutputContentItem::InputText { text } => Some(ModelToolResultContent::Text(text)),
        FunctionCallOutputContentItem::InputImage { image_url, detail } => Some(ModelToolResultContent::Image {
            source: ModelMediaSource::Uri(image_url),
            detail: spec_opt_model_detail(detail),
        }),
        FunctionCallOutputContentItem::InputAudio { audio_url } =>
            Some(ModelToolResultContent::Audio { source: ModelMediaSource::Uri(audio_url) }),
        FunctionCallOutputContentItem::EncryptedContent { .. } => None,
    }
}

/// Whether a function output has a canonical content list.
pub open spec fn result_content_convertible(output: FunctionCallOutputPayload) -> bool {
    match output.body {
        FunctionCallOutputBody::Text(_) => true,
        FunctionCallOutputBody::ContentItems(items) =>
            forall|i: int| 0 <= i < items@.len() ==> (#[trigger] spec_model_result_part(items@[i])) is Some,
    }
}

/// `out` is the canonical content list of a function output.
pub open spec fn result_content_converted(output: FunctionCallOutputPayload, out: Seq<ModelToolResultContent>) -> bool {
    match output.body {
        FunctionCallOutputBody::Text(text) => out == seq![ModelToolResultContent::Text(text)],
        FunctionCallOutputBody::ContentItems(items) => {
            &&& out.len() == items@.len()
            &&& forall|i: int| 0 <= i < items@.len() ==> #[trigger] spec_model_result_part(items@[i]) == Some(out[i])
        },
    }
}

/// Whether a Responses item has a canonical request-side form. Discovery-result payloads,
/// local shell, provider-hosted tools, compaction, agent messaging and provider compatibility
/// items stay on the legacy path.
pub open spec fn input_item_convertible(item: ResponseItem) -> bool {
    match item {
        ResponseItem::Message { role, content, .. } => {
            &&& spec_model_role(role@) is Some
            &&& forall|i: int| 0 <= i < content@.len() ==> (#[trigger] spec_model_content(content@[i], role@)) is Some
        },
        ResponseItem::Reasoning { .. } => true,
        ResponseItem::FunctionCall { arguments, .. } => json_parse(arguments@) is Some,
        ResponseItem::CustomToolCall { .. } => true,
        ResponseItem::ToolSearchCall { call_id, execution, .. } =>
            call_id is Some && execution@ == TOOL_SEARCH_CLIENT_EXECUTION@,
        ResponseItem::FunctionCallOutput { call_id, output, .. } => call_id is Some && result_content_convertible(output),
        ResponseItem::CustomToolCallOutput { output, .. } => result_content_convertible(output),
        _ => false,
    }
}

/// `out` is the canonical request-side form of the Responses item `item`.
pub open spec fn input_item_converted(item: ResponseItem, out: ModelInputItem) -> bool {
    match item {
        ResponseItem::Message { role, content, phase, .. } => out matches ModelInputItem::Message(m) && {
            &&& spec_model_role(role@) == Some(m.role)
            &&& m.phase == match phase {
                Some(p) => Some(spec_model_phase(p)),
                None => None,
            }
            &&& m.content@.len() == content@.len()
            &&& forall|i: int| 0 <= i < content@.len() ==> #[trigger] spec_model_content(content@[i], role@) == Some(m.content@[i])
        },
        ResponseItem::Reasoning { summary, content, .. } => out matches ModelInputItem::Reasoning(r) && {
            &&& r.summary@.len() == summary@.len()
            &&& forall|i: int| 0 <= i < summary@.len() ==> r.summary@[i] == spec_summary_text(#[trigger] summary@[i])
            &&& r.content@.len() == spec_reasoning_contents(content).len()
            &&& forall|i: int| 0 <= i < spec_reasoning_contents(content).len()
                ==> r.content@[i] == spec_reasoning_text(#[trigger] spec_reasoning_contents(content)[i])
        },
        ResponseItem::FunctionCall { name, namespace, arguments, call_id, .. } => out == ModelInputItem::ToolCall(ModelToolCall {
            call_id: ModelToolCallId(call_id),
            namespace,
            name,
            input: ModelToolInput::Json(json_parse(arguments@).unwrap()),
        }),
        ResponseItem::CustomToolCall { call_id, name, namespace, input, .. } => out == ModelInputItem::ToolCall(ModelToolCall {
            call_id: ModelToolCallId(call_id),
            namespace,
            name,
            input: ModelToolInput::Text(input),
        }),
        ResponseItem::ToolSearchCall { call_id, arguments, .. } => out matches ModelInputItem::ToolCall(c) && {
            &&& c.call_id.0 == call_id.unwrap()
            &&& c.namespace is None
            &&& c.name@ == TOOL_SEARCH_NAME@
            &&& c.input == ModelToolInput::Json(arguments)
        },
        ResponseItem::FunctionCallOutput { call_id, output, .. } => out matches ModelInputItem::ToolResult(r) && {
            &&& r.call_id.0 == call_id.unwrap()
            &&& result_content_converted(output, r.content@)
            &&& r.is_error == spec_is_error(output.success)
        },
        ResponseItem::CustomToolCallOutput { call_id, output, .. } => out matches ModelInputItem::ToolResult(r) && {
            &&& r.call_id.0 == call_id
            &&& result_content_converted(output, r.content@)
            &&& r.is_error == spec_is_error(output.success)
        },
        _ => false,
    }
}

pub fn model_message_role(role: &str) -> (r: Option<ModelMessageRole>)
    ensures
        r == spec_model_role(role@),
{
    if str_eq(role, "system") {
        Some(ModelMessageRole::System)
    } else if str_eq(role, "developer") {
        Some(ModelMessageRole::Developer)
    } else if str_eq(role, "user") {
        Some(ModelMessageRole::User)
    } else if str_eq(role, "assistant") {
        Some(ModelMessageRole::Assistant)
    } else {
        None
    }
}

pub fn response_message_role(role: ModelMessageRole) -> (r: String)
    ensures
        r@ == spec_response_role(role),
{
    match role {
        ModelMessageRole::System => "system".to_owned(),
        ModelMessageRole::Developer => "developer".to_owned(),
        ModelMessageRole::User => "user".to_owned(),
        ModelMessageRole::Assistant => "assistant".to_owned(),
    }
}

fn model_message_phase(phase: &MessagePhase) -> (r: ModelMessagePhase)
    ensures
        r == spec_model_phase(*phase),
{
    match phase {
        MessagePhase::Commentary => ModelMessagePhase::Commentary,
        MessagePhase::FinalAnswer => ModelMessagePhase::Final,
    }
}

fn response_message_phase(phase: ModelMessagePhase) -> (r: MessagePhase)
    ensures
        r == spec_response_phase(phase),
{
    match phase {
        ModelMessagePhase::Commentary => MessagePhase::Commentary,
        ModelMessagePhase::Final => MessagePhase::FinalAnswer,
    }
}

fn model_image_detail(detail: &Option<ImageDetail>) -> (r: Option<ModelImageDetail>)
    ensures
        r == spec_opt_model_detail(*detail),
{
    match detail {
        Some(ImageDetail::Auto) => Some(ModelImageDetail::Auto),
        Some(ImageDetail::Low) => Some(ModelImageDetail::Low),
        Some(ImageDetail::High) => Some(ModelImageDetail::High),
        Some(ImageDetail::Original) => Some(ModelImageDetail::Original),
        None => None,
    }
}

fn response_image_detail(detail: &Option<ModelImageDetail>) -> (r: Option<ImageDetail>)
    ensures
        r == spec_opt_response_detail(*detail),
{
    match detail {
        Some(ModelImageDetail::Auto) => Some(ImageDetail::Auto),
        Some(ModelImageDetail::Low) => Some(ImageDetail::Low),
        Some(ModelImageDetail::High) => Some(ImageDetail::High),
        Some(ModelImageDetail::Original) => Some(ImageDetail::Original),
        None => None,
    }
}

fn model_content_from_response(content: &ContentItem, role: &str) -> (r: Option<ModelContent>)
    ensures
        r == spec_model_content(*content, role@),
{
    match content {
        ContentItem::InputText { text } => if !str_eq(role, "assistant") {
            Some(ModelContent::Text(text.clone()))
        } else {
            None
        },
        ContentItem::OutputText { text } => if str_eq(role, "assistant") {
            Some(ModelContent::Text(text.clone()))
        } else {
            None
        },
        ContentItem::InputImage { image_url, detail } => Some(ModelContent::Image {
            source: ModelMediaSource::Uri(image_url.clone()),
            detail: model_image_detail(detail),
        }),
        ContentItem::InputAudio { audio_url } => Some(ModelContent::Audio { source: ModelMediaSource::Uri(audio_url.clone()) }),
    }
}

fn model_result_part(item: &FunctionCallOutputContentItem) -> (r: Option<ModelToolResultContent>)
    ensures
        r == spec_model_result_part(*item),
{
    match item {
        FunctionCallOutputContentItem::InputText { text } => Some(ModelToolResultContent::Text(text.clone())),
        FunctionCallOutputContentItem::InputImage { image_url, detail } => Some(ModelToolResultContent::Image {
            source: ModelMediaSource::Uri(image_url.clone()),
            detail: model_image_detail(detail),
        }),
        FunctionCallOutputContentItem::InputAudio { audio_url } =>
            Some(ModelToolResultContent::Audio { source: ModelMediaSource::Uri(audio_url.clone()) }),
        FunctionCallOutputContentItem::EncryptedContent { .. } => None,
    }
}

fn model_tool_result_content(output: &FunctionCallOutputPayload) -> (r: Option<Vec<ModelToolResultContent>>)
    ensures
        r is Some <==> result_content_convertible(*output),
        r matches Some(out) ==> result_content_converted(*output, out@),
{
    match &output.body {
        FunctionCallOutputBody::Text(text) => {
            let mut out: Vec<ModelToolResultContent> = Vec::new();
            out.push(ModelToolResultContent::Text(text.clone()));
            assert(out@ =~= seq![ModelToolResultContent::Text(*text)]);
            Some(out)
        },
        FunctionCallOutputBody::ContentItems(items) => {
            let mut out: Vec<ModelToolResultContent> = Vec::new();
            let mut i: usize = 0;
            while i < items.len()
                invariant
                    output.body == FunctionCallOutputBody::ContentItems(*items),
                    i <= items@.len(),
                    out@.len() == i,
                    forall|j: int| 0 <= j < i ==> #[trigger] spec_model_result_part(items@[j]) == Some(out@[j]),
                decreases items.len() - i,
            {
                match model_result_part(&items[i]) {
                    Some(part) => out.push(part),
                    None => {
                        assert(spec_model_result_part(items@[i as int]) is None);
                        assert(output.body == FunctionCallOutputBody::ContentItems(*items));
                        assert(!result_content_convertible(*output));
                        return None;
                    },
                }
                i += 1;
            }
            Some(out)
        },
    }
}

fn model_message_content(content: &Vec<ContentItem>, role: &str) -> (r: Option<Vec<ModelContent>>)
    ensures
        r is Some <==> forall|i: int| 0 <= i < content@.len() ==> (#[trigger] spec_model_content(content@[i], role@)) is Some,
        r matches Some(out) ==> out@.len() == content@.len()
            && forall|i: int| 0 <= i < content@.len() ==> #[trigger] spec_model_content(content@[i], role@) == Some(out@[i]),
{
    let mut out: Vec<ModelContent> = Vec::new();
    let mut i: usize = 0;
    while i < content.len()
        invariant
            i <= content@.len(),
            out@.len() == i,
            forall|j: int| 0 <= j < i ==> #[trigger] spec_model_content(content@[j], role@) == Some(out@[j]),
        decreases content.len() - i,
    {
        match model_content_from_response(&content[i], role) {
            Some(c) => out.push(c),
            None => {
                assert(spec_model_content(content@[i as int], role@) is None);
                return None;
            },
        }
        i += 1;
    }
    Some(out)
}

fn reasoning_summary_texts(summary: &Vec<ReasoningItemReasoningSummary>) -> (r: Vec<String>)
    ensures
        r@.len() == summary@.len(),
        forall|i: int| 0 <= i < summary@.len() ==> r@[i] == spec_summary_text(#[trigger] summary@[i]),
{
    let mut out: Vec<String> = Vec::new();
    let mut i: usize = 0;
    while i < summary.len()
        invariant
            i <= summary@.len(),
            out@.len() == i,
            forall|j: int| 0 <= j < i ==> out@[j] == spec_summary_text(#[trigger] summary@[j]),
        decreases summary.len() - i,
    {
        match &summary[i] {
            ReasoningItemReasoningSummary::SummaryText { text } => out.push(text.clone()),
        }
        i += 1;
    }
    out
}

fn reasoning_content_texts(content: &Option<Vec<ReasoningItemContent>>) -> (r: Vec<String>)
    ensures
        r@.len() == spec_reasoning_contents(*content).len(),
        forall|i: int| 0 <= i < spec_reasoning_contents(*content).len()
            ==> r@[i] == spec_reasoning_text(#[trigger] spec_reasoning_contents(*content)[i]),
{
    let mut out: Vec<String> = Vec::new();
    if let Some(parts) = content {
        let mut i: usize = 0;
        while i < parts.len()
            invariant
                i <= parts@.len(),
                out@.len() == i,
                forall|j: int| 0 <= j < i ==> out@[j] == spec_reasoning_text(#[trigger] parts@[j]),
            decreases parts.len() - i,
        {
            match &parts[i] {
                ReasoningItemContent::ReasoningText { text } => out.push(text.clone()),
                ReasoningItemContent::Text { text } => out.push(text.clone()),
            }
            i += 1;
        }
    }
    out
}

/// The canonical request-side form of a Responses item, when it has one.
pub fn model_input_item_from_response(item: &ResponseItem) -> (r: Option<ModelInputItem>)
    ensures
        r is Some <==> input_item_convertible(*item),
        r matches Some(out) ==> input_item_converted(*item, out),
{
    match item {
        ResponseItem::Message { role, content, phase, .. } => {
            let role_kind = match model_message_role(role.as_str()) {
                Some(r) => r,
                None => return None,
            };
            let content = match model_message_content(content, role.as_str()) {
                Some(c) => c,
                None => return None,
            };
            let phase = match phase {
                Some(p) => Some(model_message_phase(p)),
                None => None,
            };
            Some(ModelInputItem::Message(ModelMessage { role: role_kind, phase, content }))
        },
        ResponseItem::Reasoning { summary, content, .. } => Some(ModelInputItem::Reasoning(ModelReasoning {
            summary: reasoning_summary_texts(summary),
            content: reasoning_content_texts(content),
        })),
        ResponseItem::FunctionCall { name, namespace, arguments, call_id, .. } => {
            let value = match parse_json(arguments.as_str()) {
                Some(v) => v,
                None => return None,
            };
            Some(ModelInputItem::ToolCall(ModelToolCall {
                call_id: ModelToolCallId(call_id.clone()),
                namespace: namespace.clone(),
                name: name.clone(),
                input: ModelToolInput::Json(value),
            }))
        },
        ResponseItem::CustomToolCall { call_id, name, namespace, input, .. } => Some(ModelInputItem::ToolCall(ModelToolCall {
            call_id: ModelToolCallId(call_id.clone()),
            namespace: namespace.clone(),
            name: name.clone(),
            input: ModelToolInput::Text(input.clone()),
        })),
        ResponseItem::ToolSearchCall { call_id, execution, arguments, .. } => {
            match call_id {
                Some(call_id) => if str_eq(execution.as_str(), TOOL_SEARCH_CLIENT_EXECUTION) {
                    Some(ModelInputItem::ToolCall(ModelToolCall {
                        call_id: ModelToolCallId(call_id.clone()),
                        namespace: None,
                        name: TOOL_SEARCH_NAME.to_owned(),
                        input: ModelToolInput::Json(arguments.clone()),
                    }))
                } else {
                    None
                },
                None => None,
            }
        },
        ResponseItem::FunctionCallOutput { call_id, output, .. } => match call_id {
            Some(call_id) => match model_tool_result_content(output) {
                Some(content) => Some(ModelInputItem::ToolResult(ModelToolResult {
                    call_id: ModelToolCallId(call_id.clone()),
                    content,
                    is_error: match output.success {
                        Some(s) => Some(!s),
                        None => None,
                    },
                })),
                None => None,
            },
            None => None,
        },
        ResponseItem::CustomToolCallOutput { call_id, output, .. } => match model_tool_result_content(output) {
            Some(content) => Some(ModelInputItem::ToolResult(ModelToolResult {
                call_id: ModelToolCallId(call_id.clone()),
                content,
                is_error: match output.success {
                    Some(s) => Some(!s),
                    None => None,
                },
            })),
            None => None,
        },
        _ => None,
    }
}

// ---------------------------------------------------------------------------------------------
// Canonical input item -> Responses item, against the source item as a template
// ---------------------------------------------------------------------------------------------

/// The error a conversion reports, with its message.
pub open spec fn is_invalid_request<T>(r: Result<T, RequestConversionError>, message: Seq<char>) -> bool {
    r matches Err(RequestConversionError::InvalidRequest(m)) && m@ == message
}

/// The text a media source is handed to the backend as: its URI, or the `data:` URL of inline
/// bytes.
pub open spec fn spec_media_uri(source: ModelMediaSource) -> Seq<char> {
    match source {
        ModelMediaSource::Uri(uri) => uri@,
        ModelMediaSource::Bytes { media_type, data } => spec_data_url(media_type@, data@),
    }
}

/// Whether a canonical content part has the kind of its template part.
pub open spec fn content_kinds_match(content: ModelContent, legacy: ContentItem) -> bool {
    match (content, legacy) {
        (ModelContent::Text(_), ContentItem::InputText { .. }) => true,
        (ModelContent::Text(_), ContentItem::OutputText { .. }) => true,
        (ModelContent::Image { .. }, ContentItem::InputImage { .. }) => true,
        (ModelContent::Audio { .. }, ContentItem::InputAudio { .. }) => true,
        _ => false,
    }
}

/// `out` is the message part rebuilt from canonical content with the template part's kind.
pub open spec fn content_rebuilt(content: ModelContent, legacy: ContentItem, out: ContentItem) -> bool {
    match (content, legacy) {
        (ModelContent::Text(t), ContentItem::InputText { .. }) => out == ContentItem::InputText { text: t },
        (ModelContent::Text(t), ContentItem::OutputText { .. }) => out == ContentItem::OutputText { text: t },
        (ModelContent::Image { source, detail }, ContentItem::InputImage { .. }) =>
            out matches ContentItem::InputImage { image_url, detail: d }
                && image_url@ == spec_media_uri(source) && d == spec_opt_response_detail(detail),
        (ModelContent::Audio { source }, ContentItem::InputAudio { .. }) =>
            out matches ContentItem::InputAudio { audio_url } && audio_url@ == spec_media_uri(source),
        _ => false,
    }
}

/// The canonical tool result equals the one its template item converts to.
pub open spec fn result_part_matches(item: FunctionCallOutputContentItem, content: ModelToolResultContent) -> bool {
    match (item, content) {
        (FunctionCallOutputContentItem::InputText { text: a }, ModelToolResultContent::Text(b)) => a@ == b@,
        (FunctionCallOutputContentItem::InputImage { image_url, detail }, ModelToolResultContent::Image { source, detail: d }) =>
            source matches ModelMediaSource::Uri(u) && u@ == image_url@ && d == spec_opt_model_detail(detail),
        (FunctionCallOutputContentItem::InputAudio { audio_url }, ModelToolResultContent::Audio { source }) =>
            source matches ModelMediaSource::Uri(u) && u@ == audio_url@,
        _ => false,
    }
}

/// The canonical tool result equals the one its template output converts to.
pub open spec fn result_matches_output(result: ModelToolResult, call_id: String, output: FunctionCallOutputPayload) -> bool {
    &&& result.call_id.0@ == call_id@
    &&& result.is_error == spec_is_error(output.success)
    &&& match output.body {
        FunctionCallOutputBody::Text(t) => result.content@.len() == 1
            && (result.content@[0] matches ModelToolResultContent::Text(x) && x@ == t@),
        FunctionCallOutputBody::ContentItems(items) => result.content@.len() == items@.len()
            && forall|i: int| 0 <= i < items@.len() ==> #[trigger] result_part_matches(items@[i], result.content@[i]),
    }
}

/// The canonical tool result equals the one the template item converts to.
pub open spec fn result_matches_template(result: ModelToolResult, legacy: ResponseItem) -> bool {
    match legacy {
        ResponseItem::FunctionCallOutput { call_id: Some(c), output, .. } => result_matches_output(result, c, output),
        ResponseItem::CustomToolCallOutput { call_id, output, .. } => result_matches_output(result, call_id, output),
        _ => false,
    }
}

/// The canonical reasoning equals the one the template item converts to.
pub open spec fn reasoning_matches_template(reasoning: ModelReasoning, legacy: ResponseItem) -> bool {
    match legacy {
        ResponseItem::Reasoning { summary, content, .. } => {
            &&& reasoning.summary@.len() == summary@.len()
            &&& forall|i: int| 0 <= i < summary@.len() ==> reasoning.summary@[i]@ == (#[trigger] spec_summary_text(summary@[i]))@
            &&& reasoning.content@.len() == spec_reasoning_contents(content).len()
            &&& forall|i: int| 0 <= i < spec_reasoning_contents(content).len()
                ==> reasoning.content@[i]@ == (#[trigger] spec_reasoning_text(spec_reasoning_contents(content)[i]))@
        },
        _ => false,
    }
}

/// Whether a tool call is the client-side tool discovery call its template is.
pub open spec fn is_tool_search_call(call: ModelToolCall, execution: Seq<char>) -> bool {
    call.name@ == TOOL_SEARCH_NAME@ && call.namespace is None && execution == TOOL_SEARCH_CLIENT_EXECUTION@
}

/// The message with which rebuilding a canonical item against its template fails, if it does.
pub open spec fn item_rebuild_error(item: ModelInputItem, legacy: ResponseItem) -> Option<Seq<char>> {
    match (item, legacy) {
        (ModelInputItem::Message(m), ResponseItem::Message { content, .. }) =>
            if m.content@.len() != content@.len() {
                Some("canonical message content no longer matches the migration template"@)
            } else if exists|i: int| 0 <= i < content@.len() && !content_kinds_match(#[trigger] m.content@[i], content@[i]) {
                Some("canonical content no longer matches the migration template"@)
            } else {
                None
            },
        (ModelInputItem::Reasoning(r), ResponseItem::Reasoning { .. }) =>
            if reasoning_matches_template(r, legacy) {
                None
            } else {
                Some("canonical reasoning no longer matches the migration template"@)
            },
        (ModelInputItem::ToolCall(call), ResponseItem::FunctionCall { .. }) =>
            if call.input is Json {
                None
            } else {
                Some("function-call migration template requires structured JSON input"@)
            },
        (ModelInputItem::ToolCall(call), ResponseItem::CustomToolCall { .. }) =>
            if call.input is Text {
                None
            } else {
                Some("custom-tool migration template requires textual input"@)
            },
        (ModelInputItem::ToolCall(call), ResponseItem::ToolSearchCall { execution, .. }) =>
            if !is_tool_search_call(call, execution@) {
                Some("canonical request item no longer matches the migration template"@)
            } else if call.input is Json {
                None
            } else {
                Some("tool-discovery migration template requires structured JSON input"@)
            },
        (ModelInputItem::ToolResult(result), ResponseItem::FunctionCallOutput { .. })
        | (ModelInputItem::ToolResult(result), ResponseItem::CustomToolCallOutput { .. })
        | (ModelInputItem::ToolResult(result), ResponseItem::ToolSearchOutput { .. }) =>
            if !input_item_convertible(legacy) {
                Some("tool-result migration template is no longer canonicalizable"@)
            } else if !result_matches_template(result, legacy) {
                Some("canonical tool result no longer matches the migration template"@)
            } else {
                None
            },
        _ => Some("canonical request item no longer matches the migration template"@),
    }
}

/// The arguments text of a rebuilt function call: the template's text when it parses to a value
/// equal to the canonical input, else the compact text of the canonical input.
pub open spec fn arguments_rebuilt(arguments: String, value: serde_json::Value, out: String) -> bool {
    match json_parse(arguments@) {
        Some(original) => if original == value || json_values_equal(original, value) {
            out == arguments
        } else {
            out@ == json_compact_text(value)
        },
        None => out@ == json_compact_text(value),
    }
}

/// `out` is the item rebuilt from a canonical item whose rebuild does not fail: canonical
/// semantics with the template's provider-private decorations.
pub open spec fn item_rebuilt(item: ModelInputItem, legacy: ResponseItem, out: ResponseItem) -> bool {
    match (item, legacy) {
        (ModelInputItem::Message(m), ResponseItem::Message { id, content, internal_chat_message_metadata_passthrough: meta, .. }) =>
            out matches ResponseItem::Message { id: id2, role, content: c2, phase, internal_chat_message_metadata_passthrough: meta2 } && {
                &&& id2 == id
                &&& role@ == spec_response_role(m.role)
                &&& c2@.len() == content@.len()
                &&& forall|i: int| 0 <= i < content@.len() ==> #[trigger] content_rebuilt(m.content@[i], content@[i], c2@[i])
                &&& phase == match m.phase {
                    Some(p) => Some(spec_response_phase(p)),
                    None => None,
                }
                &&& meta2 == meta
            },
        (ModelInputItem::ToolCall(call), ResponseItem::FunctionCall { id, arguments, encrypted_function_args, internal_chat_message_metadata_passthrough: meta, .. }) =>
            out matches ResponseItem::FunctionCall { id: id2, name, namespace, arguments: a2, encrypted_function_args: e2, call_id, internal_chat_message_metadata_passthrough: meta2 } && {
                &&& id2 == id
                &&& name == call.name
                &&& namespace == call.namespace
                &&& arguments_rebuilt(arguments, call.input->Json_0, a2)
                &&& opt_texts(e2) == opt_texts(encrypted_function_args)
                &&& call_id == call.call_id.0
                &&& meta2 == meta
            },
        (ModelInputItem::ToolCall(call), ResponseItem::CustomToolCall { id, status, internal_chat_message_metadata_passthrough: meta, .. }) =>
            out == ResponseItem::CustomToolCall {
                id,
                status,
                call_id: call.call_id.0,
                name: call.name,
                namespace: call.namespace,
                input: call.input->Text_0,
                internal_chat_message_metadata_passthrough: meta,
            },
        (ModelInputItem::ToolCall(call), ResponseItem::ToolSearchCall { id, status, execution, internal_chat_message_metadata_passthrough: meta, .. }) =>
            out == ResponseItem::ToolSearchCall {
                id,
                call_id: Some(call.call_id.0),
                status,
                execution,
                arguments: call.input->Json_0,
                internal_chat_message_metadata_passthrough: meta,
            },
        _ => same_template_item(out, legacy),
    }
}

/// Two function outputs are the same: equal status and equal body, a part list by its view.
pub open spec fn payload_same(a: FunctionCallOutputPayload, b: FunctionCallOutputPayload) -> bool {
    &&& a.success == b.success
    &&& match (a.body, b.body) {
        (FunctionCallOutputBody::Text(x), FunctionCallOutputBody::Text(y)) => x == y,
        (FunctionCallOutputBody::ContentItems(x), FunctionCallOutputBody::ContentItems(y)) => x@ == y@,
        _ => false,
    }
}

/// Reasoning sections, by their view, when there are some.
pub open spec fn opt_reasoning(v: Option<Vec<ReasoningItemContent>>) -> Option<Seq<ReasoningItemContent>> {
    match v {
        Some(x) => Some(x@),
        None => None,
    }
}

/// `out` is a copy of the template item `legacy`, its lists taken by their views.
pub open spec fn same_template_item(out: ResponseItem, legacy: ResponseItem) -> bool {
    match legacy {
        ResponseItem::Reasoning { id, summary, content, encrypted_content, internal_chat_message_metadata_passthrough: meta } =>
            out matches ResponseItem::Reasoning { id: id2, summary: s2, content: c2, encrypted_content: e2, internal_chat_message_metadata_passthrough: meta2 }
                && id2 == id && s2@ == summary@ && opt_reasoning(c2) == opt_reasoning(content) && e2 == encrypted_content && meta2 == meta,
        ResponseItem::FunctionCallOutput { id, call_id, name, namespace, output, internal_chat_message_metadata_passthrough: meta } =>
            out matches ResponseItem::FunctionCallOutput { id: id2, call_id: c2, name: n2, namespace: ns2, output: o2, internal_chat_message_metadata_passthrough: meta2 }
                && id2 == id && c2 == call_id && n2 == name && ns2 == namespace && payload_same(o2, output) && meta2 == meta,
        ResponseItem::CustomToolCallOutput { id, call_id, name, output, internal_chat_message_metadata_passthrough: meta } =>
            out matches ResponseItem::CustomToolCallOutput { id: id2, call_id: c2, name: n2, output: o2, internal_chat_message_metadata_passthrough: meta2 }
                && id2 == id && c2 == call_id && n2 == name && payload_same(o2, output) && meta2 == meta,
        _ => false,
    }
}

/// Rebuilding a canonical item against its template: the failure message, or the item.
pub open spec fn item_rebuild_outcome(item: ModelInputItem, legacy: ResponseItem, r: Result<ResponseItem, RequestConversionError>) -> bool {
    match item_rebuild_error(item, legacy) {
        Some(message) => is_invalid_request(r, message),
        None => r matches Ok(out) && item_rebuilt(item, legacy, out),
    }
}

/// The text a media source is handed to the backend as.
pub fn codex_media_source(source: &ModelMediaSource) -> (r: String)
    ensures
        r@ == spec_media_uri(*source),
{
    match source {
        ModelMediaSource::Uri(uri) => uri.clone(),
        ModelMediaSource::Bytes { media_type, data } => data_url_from_bytes(media_type.as_str(), &**data),
    }
}

/// A list of texts, by its view, when there is one.
pub open spec fn opt_texts(v: Option<Vec<String>>) -> Option<Seq<String>> {
    match v {
        Some(x) => Some(x@),
        None => None,
    }
}

fn copy_metadata(meta: &Option<ChatMessageMetadata>) -> (r: Option<ChatMessageMetadata>)
    ensures
        r == *meta,
{
    match meta {
        Some(m) => Some(ChatMessageMetadata { turn_id: m.turn_id.clone() }),
        None => None,
    }
}

fn copy_texts(v: &Option<Vec<String>>) -> (r: Option<Vec<String>>)
    ensures
        opt_texts(r) == opt_texts(*v),
{
    match v {
        Some(x) => Some(copy_strings(x)),
        None => None,
    }
}

fn copy_output_part(item: &FunctionCallOutputContentItem) -> (r: FunctionCallOutputContentItem)
    ensures
        r == *item,
{
    match item {
        FunctionCallOutputContentItem::InputText { text } => FunctionCallOutputContentItem::InputText { text: text.clone() },
        FunctionCallOutputContentItem::InputImage { image_url, detail } =>
            FunctionCallOutputContentItem::InputImage { image_url: image_url.clone(), detail: *detail },
        FunctionCallOutputContentItem::InputAudio { audio_url } => FunctionCallOutputContentItem::InputAudio { audio_url: audio_url.clone() },
        FunctionCallOutputContentItem::EncryptedContent { encrypted_content } =>
            FunctionCallOutputContentItem::EncryptedContent { encrypted_content: encrypted_content.clone() },
    }
}

fn copy_payload(output: &FunctionCallOutputPayload) -> (r: FunctionCallOutputPayload)
    ensures
        payload_same(r, *output),
{
    let body = match &output.body {
        FunctionCallOutputBody::Text(t) => FunctionCallOutputBody::Text(t.clone()),
        FunctionCallOutputBody::ContentItems(items) => {
            let mut out: Vec<FunctionCallOutputContentItem> = Vec::new();
            let mut i: usize = 0;
            while i < items.len()
                invariant
                    i <= items@.len(),
                    out@ == items@.subrange(0, i as int),
                decreases items.len() - i,
            {
                out.push(copy_output_part(&items[i]));
                i += 1;
            }
            assert(out@ =~= items@);
            FunctionCallOutputBody::ContentItems(out)
        },
    };
    FunctionCallOutputPayload { body, success: output.success }
}

fn copy_reasoning_parts(content: &Option<Vec<ReasoningItemContent>>) -> (r: Option<Vec<ReasoningItemContent>>)
    ensures
        opt_reasoning(r) == opt_reasoning(*content),
{
    match content {
        Some(parts) => {
            let mut out: Vec<ReasoningItemContent> = Vec::new();
            let mut i: usize = 0;
            while i < parts.len()
                invariant
                    i <= parts@.len(),
                    out@ == parts@.subrange(0, i as int),
                decreases parts.len() - i,
            {
                let part = match &parts[i] {
                    ReasoningItemContent::ReasoningText { text } => ReasoningItemContent::ReasoningText { text: text.clone() },
                    ReasoningItemContent::Text { text } => ReasoningItemContent::Text { text: text.clone() },
                };
                out.push(part);
                i += 1;
            }
            assert(out@ =~= parts@);
            Some(out)
        },
        None => None,
    }
}

fn copy_summaries(summary: &Vec<ReasoningItemReasoningSummary>) -> (r: Vec<ReasoningItemReasoningSummary>)
    ensures
        r@ == summary@,
{
    let mut out: Vec<ReasoningItemReasoningSummary> = Vec::new();
    let mut i: usize = 0;
    while i < summary.len()
        invariant
            i <= summary@.len(),
            out@ == summary@.subrange(0, i as int),
        decreases summary.len() - i,
    {
        let part = match &summary[i] {
            ReasoningItemReasoningSummary::SummaryText { text } => ReasoningItemReasoningSummary::SummaryText { text: text.clone() },
        };
        out.push(part);
        i += 1;
    }
    assert(out@ =~= summary@);
    out
}

/// Copies a reasoning or tool-output template item.
fn copy_template_item(legacy: &ResponseItem) -> (r: ResponseItem)
    requires
        legacy is Reasoning || legacy is FunctionCallOutput || legacy is CustomToolCallOutput,
    ensures
        same_template_item(r, *legacy),
{
    match legacy {
        ResponseItem::Reasoning { id, summary, content, encrypted_content, internal_chat_message_metadata_passthrough } =>
            ResponseItem::Reasoning {
                id: id.clone(),
                summary: copy_summaries(summary),
                content: copy_reasoning_parts(content),
                encrypted_content: encrypted_content.clone(),
                internal_chat_message_metadata_passthrough: copy_metadata(internal_chat_message_metadata_passthrough),
            },
        ResponseItem::FunctionCallOutput { id, call_id, name, namespace, output, internal_chat_message_metadata_passthrough } =>
            ResponseItem::FunctionCallOutput {
                id: id.clone(),
                call_id: call_id.clone(),
                name: name.clone(),
                namespace: namespace.clone(),
                output: copy_payload(output),
                internal_chat_message_metadata_passthrough: copy_metadata(internal_chat_message_metadata_passthrough),
            },
        ResponseItem::CustomToolCallOutput { id, call_id, name, output, internal_chat_message_metadata_passthrough } =>
            ResponseItem::CustomToolCallOutput {
                id: id.clone(),
                call_id: call_id.clone(),
                name: name.clone(),
                output: copy_payload(output),
                internal_chat_message_metadata_passthrough: copy_metadata(internal_chat_message_metadata_passthrough),
            },
        _ => {
            assert(false);
            ResponseItem::Other
        },
    }
}

fn invalid_request(message: &str) -> (r: RequestConversionError)
    ensures
        r matches RequestConversionError::InvalidRequest(m) && m@ == message@,
{
    RequestConversionError::InvalidRequest(message.to_owned())
}

fn response_content_from_model(content: &ModelContent, legacy: &ContentItem) -> (r: Result<ContentItem, RequestConversionError>)
    ensures
        content_kinds_match(*content, *legacy) ==> (r matches Ok(out) && content_rebuilt(*content, *legacy, out)),
        !content_kinds_match(*content, *legacy) ==> is_invalid_request(r, "canonical content no longer matches the migration template"@),
{
    match (content, legacy) {
        (ModelContent::Text(text), ContentItem::InputText { .. }) => Ok(ContentItem::InputText { text: text.clone() }),
        (ModelContent::Text(text), ContentItem::OutputText { .. }) => Ok(ContentItem::OutputText { text: text.clone() }),
        (ModelContent::Image { source, detail }, ContentItem::InputImage { .. }) => Ok(ContentItem::InputImage {
            image_url: codex_media_source(source),
            detail: response_image_detail(detail),
        }),
        (ModelContent::Audio { source }, ContentItem::InputAudio { .. }) => Ok(ContentItem::InputAudio {
            audio_url: codex_media_source(source),
        }),
        _ => Err(invalid_request("canonical content no longer matches the migration template")),
    }
}

fn strings_match(a: &Vec<String>, b: &Vec<String>) -> (r: bool)
    ensures
        r == (a@.len() == b@.len() && forall|i: int| 0 <= i < a@.len() ==> (#[trigger] a@[i])@ == b@[i]@),
{
    if a.len() != b.len() {
        return false;
    }
    let mut i: usize = 0;
    while i < a.len()
        invariant
            a@.len() == b@.len(),
            i <= a@.len(),
            forall|j: int| 0 <= j < i ==> (#[trigger] a@[j])@ == b@[j]@,
        decreases a.len() - i,
    {
        if !str_eq(a[i].as_str(), b[i].as_str()) {
            return false;
        }
        i += 1;
    }
    true
}

fn media_uri_matches(source: &ModelMediaSource, uri: &String) -> (r: bool)
    ensures
        r == (source matches ModelMediaSource::Uri(u) && u@ == uri@),
{
    match source {
        ModelMediaSource::Uri(u) => str_eq(u.as_str(), uri.as_str()),
        ModelMediaSource::Bytes { .. } => false,
    }
}

fn result_part_matches_exec(item: &FunctionCallOutputContentItem, content: &ModelToolResultContent) -> (r: bool)
    ensures
        r == result_part_matches(*item, *content),
{
    match (item, content) {
        (FunctionCallOutputContentItem::InputText { text: a }, ModelToolResultContent::Text(b)) => str_eq(a.as_str(), b.as_str()),
        (FunctionCallOutputContentItem::InputImage { image_url, detail }, ModelToolResultContent::Image { source, detail: d }) =>
            media_uri_matches(source, image_url) && model_image_detail(detail) == *d,
        (FunctionCallOutputContentItem::InputAudio { audio_url }, ModelToolResultContent::Audio { source }) =>
            media_uri_matches(source, audio_url),
        _ => false,
    }
}

fn result_matches_output_exec(result: &ModelToolResult, call_id: &String, output: &FunctionCallOutputPayload) -> (r: bool)
    ensures
        r == result_matches_output(*result, *call_id, *output),
{
    if !str_eq(result.call_id.0.as_str(), call_id.as_str()) {
        return false;
    }
    let expected_error = match output.success {
        Some(s) => Some(!s),
        None => None,
    };
    if result.is_error != expected_error {
        return false;
    }
    match &output.body {
        FunctionCallOutputBody::Text(t) => {
            if result.content.len() != 1 {
                return false;
            }
            match &result.content[0] {
                ModelToolResultContent::Text(x) => str_eq(x.as_str(), t.as_str()),
                _ => false,
            }
        },
        FunctionCallOutputBody::ContentItems(items) => {
            if result.content.len() != items.len() {
                return false;
            }
            let mut i: usize = 0;
            while i < items.len()
                invariant
                    output.body == FunctionCallOutputBody::ContentItems(*items),
                    result.content@.len() == items@.len(),
                    i <= items@.len(),
                    forall|j: int| 0 <= j < i ==> #[trigger] result_part_matches(items@[j], result.content@[j]),
                decreases items.len() - i,
            {
                if !result_part_matches_exec(&items[i], &result.content[i]) {
                    return false;
                }
                i += 1;
            }
            true
        },
    }
}

fn result_matches_template_exec(result: &ModelToolResult, legacy: &ResponseItem) -> (r: bool)
    ensures
        r == result_matches_template(*result, *legacy),
{
    match legacy {
        ResponseItem::FunctionCallOutput { call_id: Some(c), output, .. } => result_matches_output_exec(result, c, output),
        ResponseItem::CustomToolCallOutput { call_id, output, .. } => result_matches_output_exec(result, call_id, output),
        _ => false,
    }
}

fn reasoning_matches_template_exec(reasoning: &ModelReasoning, legacy: &ResponseItem) -> (r: bool)
    ensures
        r == reasoning_matches_template(*reasoning, *legacy),
{
    match legacy {
        ResponseItem::Reasoning { summary, content, .. } => {
            let expected_summary = reasoning_summary_texts(summary);
            let expected_content = reasoning_content_texts(content);
            let r = strings_match(&reasoning.summary, &expected_summary) && strings_match(&reasoning.content, &expected_content);
            proof {
                if r {
                    assert forall|i: int| 0 <= i < summary@.len() implies reasoning.summary@[i]@ == (#[trigger] spec_summary_text(summary@[i]))@ by {
                        assert(reasoning.summary@[i]@ == expected_summary@[i]@);
                    }
                    assert forall|i: int| 0 <= i < spec_reasoning_contents(*content).len()
                        implies reasoning.content@[i]@ == (#[trigger] spec_reasoning_text(spec_reasoning_contents(*content)[i]))@ by {
                        assert(reasoning.content@[i]@ == expected_content@[i]@);
                    }
                } else if reasoning_matches_template(*reasoning, *legacy) {
                    assert(reasoning.summary@.len() == expected_summary@.len());
                    assert forall|i: int| 0 <= i < reasoning.summary@.len() implies (#[trigger] reasoning.summary@[i])@ == expected_summary@[i]@ by {
                        assert(spec_summary_text(summary@[i]) == expected_summary@[i]);
                    }
                    assert forall|i: int| 0 <= i < reasoning.content@.len() implies (#[trigger] reasoning.content@[i])@ == expected_content@[i]@ by {
                        assert(spec_reasoning_text(spec_reasoning_contents(*content)[i]) == expected_content@[i]);
                    }
                }
            }
            r
        },
        _ => false,
    }
}

fn rebuild_arguments(arguments: &String, value: &serde_json::Value) -> (r: String)
    ensures
        arguments_rebuilt(*arguments, *value, r),
{
    match parse_json(arguments.as_str()) {
        Some(original) => if json_equal(&original, value) {
            arguments.clone()
        } else {
            json_to_text(value)
        },
        None => json_to_text(value),
    }
}

fn rebuild_message_content(content: &Vec<ModelContent>, legacy: &Vec<ContentItem>) -> (r: Result<Vec<ContentItem>, RequestConversionError>)
    requires
        content@.len() == legacy@.len(),
    ensures
        (forall|i: int| 0 <= i < legacy@.len() ==> #[trigger] content_kinds_match(content@[i], legacy@[i])) ==> (r matches Ok(out)
            && out@.len() == legacy@.len()
            && forall|i: int| 0 <= i < legacy@.len() ==> #[trigger] content_rebuilt(content@[i], legacy@[i], out@[i])),
        !(forall|i: int| 0 <= i < legacy@.len() ==> #[trigger] content_kinds_match(content@[i], legacy@[i]))
            ==> is_invalid_request(r, "canonical content no longer matches the migration template"@),
{
    let mut out: Vec<ContentItem> = Vec::new();
    let mut i: usize = 0;
    while i < content.len()
        invariant
            content@.len() == legacy@.len(),
            i <= content@.len(),
            out@.len() == i,
            forall|j: int| 0 <= j < i ==> #[trigger] content_kinds_match(content@[j], legacy@[j]),
            forall|j: int| 0 <= j < i ==> #[trigger] content_rebuilt(content@[j], legacy@[j], out@[j]),
        decreases content.len() - i,
    {
        match response_content_from_model(&content[i], &legacy[i]) {
            Ok(c) => out.push(c),
            Err(e) => return Err(e),
        }
        i += 1;
    }
    Ok(out)
}

/// Rebuilds the Responses item of a canonical item, using the source item as the template
/// of its provider-private decorations.
pub fn response_item_from_model_input(item: &ModelInputItem, legacy: &ResponseItem) -> (r: Result<ResponseItem, RequestConversionError>)
    ensures
        item_rebuild_outcome(*item, *legacy, r),
{
    match (item, legacy) {
        (ModelInputItem::Message(message), ResponseItem::Message { id, content: legacy_content, internal_chat_message_metadata_passthrough, .. }) => {
            if message.content.len() != legacy_content.len() {
                return Err(invalid_request("canonical message content no longer matches the migration template"));
            }
            let role = response_message_role(message.role);
            let content = match rebuild_message_content(&message.content, legacy_content) {
                Ok(c) => c,
                Err(e) => return Err(e),
            };
            let phase = match message.phase {
                Some(p) => Some(response_message_phase(p)),
                None => None,
            };
            { let out = ResponseItem::Message {
                id: id.clone(),
                role,
                content,
                phase,
                internal_chat_message_metadata_passthrough: copy_metadata(internal_chat_message_metadata_passthrough),
            }; assert(item_rebuilt(*item, *legacy, out)); assert(item_rebuild_error(*item, *legacy) is None); Ok(out) }
        },
        (ModelInputItem::Reasoning(reasoning), ResponseItem::Reasoning { .. }) => {
            if !reasoning_matches_template_exec(reasoning, legacy) {
                return Err(invalid_request("canonical reasoning no longer matches the migration template"));
            }
            Ok(copy_template_item(legacy))
        },
        (ModelInputItem::ToolCall(call), ResponseItem::FunctionCall { id, arguments, encrypted_function_args, internal_chat_message_metadata_passthrough, .. }) => {
            let value = match &call.input {
                ModelToolInput::Json(v) => v,
                ModelToolInput::Text(_) => return Err(invalid_request("function-call migration template requires structured JSON input")),
            };
            let arguments = rebuild_arguments(arguments, value);
            { let out = ResponseItem::FunctionCall {
                id: id.clone(),
                name: call.name.clone(),
                namespace: call.namespace.clone(),
                arguments,
                encrypted_function_args: copy_texts(encrypted_function_args),
                call_id: call.call_id.0.clone(),
                internal_chat_message_metadata_passthrough: copy_metadata(internal_chat_message_metadata_passthrough),
            }; assert(item_rebuilt(*item, *legacy, out)); assert(item_rebuild_error(*item, *legacy) is None); Ok(out) }
        },
        (ModelInputItem::ToolCall(call), ResponseItem::CustomToolCall { id, status, internal_chat_message_metadata_passthrough, .. }) => {
            let input = match &call.input {
                ModelToolInput::Text(t) => t,
                ModelToolInput::Json(_) => return Err(invalid_request("custom-tool migration template requires textual input")),
            };
            { let out = ResponseItem::CustomToolCall {
                id: id.clone(),
                status: status.clone(),
                call_id: call.call_id.0.clone(),
                name: call.name.clone(),
                namespace: call.namespace.clone(),
                input: input.clone(),
                internal_chat_message_metadata_passthrough: copy_metadata(internal_chat_message_metadata_passthrough),
            }; assert(item_rebuilt(*item, *legacy, out)); assert(item_rebuild_error(*item, *legacy) is None); Ok(out) }
        },
        (ModelInputItem::ToolCall(call), ResponseItem::ToolSearchCall { id, status, execution, internal_chat_message_metadata_passthrough, .. }) => {
            if !(str_eq(call.name.as_str(), TOOL_SEARCH_NAME) && call.namespace.is_none()
                && str_eq(execution.as_str(), TOOL_SEARCH_CLIENT_EXECUTION)) {
                return Err(invalid_request("canonical request item no longer matches the migration template"));
            }
            let arguments = match &call.input {
                ModelToolInput::Json(v) => v,
                ModelToolInput::Text(_) => return Err(invalid_request("tool-discovery migration template requires structured JSON input")),
            };
            { let out = ResponseItem::ToolSearchCall {
                id: id.clone(),
                call_id: Some(call.call_id.0.clone()),
                status: status.clone(),
                execution: execution.clone(),
                arguments: arguments.clone(),
                internal_chat_message_metadata_passthrough: copy_metadata(internal_chat_message_metadata_passthrough),
            }; assert(item_rebuilt(*item, *legacy, out)); assert(item_rebuild_error(*item, *legacy) is None); Ok(out) }
        },
        (ModelInputItem::ToolResult(result), ResponseItem::FunctionCallOutput { .. })
        | (ModelInputItem::ToolResult(result), ResponseItem::CustomToolCallOutput { .. })
        | (ModelInputItem::ToolResult(result), ResponseItem::ToolSearchOutput { .. }) => {
            match model_input_item_from_response(legacy) {
                Some(ModelInputItem::ToolResult(_)) => {},
                _ => return Err(invalid_request("tool-result migration template is no longer canonicalizable")),
            }
            if !result_matches_template_exec(result, legacy) {
                return Err(invalid_request("canonical tool result no longer matches the migration template"));
            }
            Ok(copy_template_item(legacy))
        },
        _ => Err(invalid_request("canonical request item no longer matches the migration template")),
    }
}

// ---------------------------------------------------------------------------------------------
// Round trip of one item
// ---------------------------------------------------------------------------------------------

/// Two message parts are the same, their texts taken by view.
pub open spec fn content_same(a: ContentItem, b: ContentItem) -> bool {
    match (a, b) {
        (ContentItem::InputText { text: x }, ContentItem::InputText { text: y }) => x@ == y@,
        (ContentItem::OutputText { text: x }, ContentItem::OutputText { text: y }) => x@ == y@,
        (ContentItem::InputImage { image_url: x, detail: d }, ContentItem::InputImage { image_url: y, detail: e }) => x@ == y@ && d == e,
        (ContentItem::InputAudio { audio_url: x }, ContentItem::InputAudio { audio_url: y }) => x@ == y@,
        _ => false,
    }
}

/// `out` is the same Responses item as `legacy`: texts taken by view, lists by their views.
pub open spec fn same_response_item(out: ResponseItem, legacy: ResponseItem) -> bool {
    match legacy {
        ResponseItem::Message { id, role, content, phase, internal_chat_message_metadata_passthrough: meta } =>
            out matches ResponseItem::Message { id: id2, role: role2, content: c2, phase: phase2, internal_chat_message_metadata_passthrough: meta2 } && {
                &&& id2 == id
                &&& role2@ == role@
                &&& c2@.len() == content@.len()
                &&& forall|i: int| 0 <= i < content@.len() ==> #[trigger] content_same(c2@[i], content@[i])
                &&& phase2 == phase
                &&& meta2 == meta
            },
        ResponseItem::FunctionCall { id, name, namespace, arguments, encrypted_function_args, call_id, internal_chat_message_metadata_passthrough: meta } =>
            out matches ResponseItem::FunctionCall { id: id2, name: n2, namespace: ns2, arguments: a2, encrypted_function_args: e2, call_id: c2, internal_chat_message_metadata_passthrough: meta2 }
                && id2 == id && n2 == name && ns2 == namespace && a2 == arguments
                && opt_texts(e2) == opt_texts(encrypted_function_args) && c2 == call_id && meta2 == meta,
        ResponseItem::CustomToolCall { .. } => out == legacy,
        ResponseItem::ToolSearchCall { .. } => out == legacy,
        _ => same_template_item(out, legacy),
    }
}

/// Rebuilding the canonical form of an item against the item itself succeeds, and gives the
/// item back: converting a convertible Responses item to the canonical request vocabulary and
/// back through the adapter loses nothing.
pub proof fn lemma_request_item_round_trip(legacy: ResponseItem, item: ModelInputItem, out: ResponseItem)
    requires
        input_item_convertible(legacy),
        input_item_converted(legacy, item),
    ensures
        item_rebuild_error(item, legacy) is None,
        item_rebuilt(item, legacy, out) ==> same_response_item(out, legacy),
{
    match legacy {
        ResponseItem::Message { role, content, .. } => {
            let m = item->Message_0;
            assert forall|i: int| 0 <= i < content@.len() implies content_kinds_match(#[trigger] m.content@[i], content@[i]) by {
                assert(spec_model_content(content@[i], role@) == Some(m.content@[i]));
            }
            assert(spec_response_role(m.role) == role@);
            if item_rebuilt(item, legacy, out) {
                let c2 = out->Message_content;
                assert forall|i: int| 0 <= i < content@.len() implies #[trigger] content_same(c2@[i], content@[i]) by {
                    assert(spec_model_content(content@[i], role@) == Some(m.content@[i]));
                    assert(content_rebuilt(m.content@[i], content@[i], c2@[i]));
                }
            }
        },
        ResponseItem::Reasoning { summary, content, .. } => {
            let r = item->Reasoning_0;
            assert forall|i: int| 0 <= i < summary@.len() implies r.summary@[i]@ == (#[trigger] spec_summary_text(summary@[i]))@ by {
                assert(r.summary@[i] == spec_summary_text(summary@[i]));
            }
            assert forall|i: int| 0 <= i < spec_reasoning_contents(content).len()
                implies r.content@[i]@ == (#[trigger] spec_reasoning_text(spec_reasoning_contents(content)[i]))@ by {
                assert(r.content@[i] == spec_reasoning_text(spec_reasoning_contents(content)[i]));
            }
        },
        ResponseItem::FunctionCallOutput { call_id, output, .. } => {
            let r = item->ToolResult_0;
            match output.body {
                FunctionCallOutputBody::Text(_) => {},
                FunctionCallOutputBody::ContentItems(items) => {
                    assert forall|i: int| 0 <= i < items@.len() implies #[trigger] result_part_matches(items@[i], r.content@[i]) by {
                        assert(spec_model_result_part(items@[i]) == Some(r.content@[i]));
                    }
                },
            }
        },
        ResponseItem::CustomToolCallOutput { call_id, output, .. } => {
            let r = item->ToolResult_0;
            match output.body {
                FunctionCallOutputBody::Text(_) => {},
                FunctionCallOutputBody::ContentItems(items) => {
                    assert forall|i: int| 0 <= i < items@.len() implies #[trigger] result_part_matches(items@[i], r.content@[i]) by {
                        assert(spec_model_result_part(items@[i]) == Some(r.content@[i]));
                    }
                },
            }
        },
        _ => {},
    }
}

// ---------------------------------------------------------------------------------------------
// Prompts and requests
// ---------------------------------------------------------------------------------------------

/// `out` holds the canonical request-side forms of `input`, in order.
pub open spec fn input_converted(input: Seq<ResponseItem>, out: Seq<ModelInputItem>) -> bool {
    &&& out.len() == input.len()
    &&& forall|i: int| 0 <= i < input.len() ==> #[trigger] input_item_converted(input[i], out[i])
}

/// Whether a prompt has a canonical request: no access program, every tool declaration and
/// every input item has a canonical form.
pub open spec fn prompt_convertible(prompt: Prompt) -> bool {
    &&& prompt.cyber_access_program is None
    &&& tools_flattenable(prompt.tools@)
    &&& forall|i: int| 0 <= i < prompt.input@.len() ==> #[trigger] input_item_convertible(prompt.input@[i])
}

/// The output contract a prompt asks for.
pub open spec fn spec_output_config(prompt: Prompt) -> ModelOutputConfig {
    match prompt.output_schema {
        Some(schema) => ModelOutputConfig { format: ModelOutputFormat::JsonSchema { schema, strict: prompt.output_schema_strict } },
        None => ModelOutputConfig { format: ModelOutputFormat::Text },
    }
}

/// `request` is the canonical request of `prompt`.
pub open spec fn request_from_prompt(prompt: Prompt, request: ModelRequest) -> bool {
    &&& request.instructions == prompt.base_instructions.text
    &&& input_converted(prompt.input@, request.input@)
    &&& tools_flattened(prompt.tools@, request.tools@)
    &&& request.parallel_tool_calls == prompt.parallel_tool_calls
    &&& request.output == spec_output_config(prompt)
}

/// Whether the message with which rebuilding fails at item `k` is the first failure.
pub open spec fn first_item_error_at(request: ModelRequest, legacy: Prompt, k: int) -> bool {
    &&& 0 <= k < request.input@.len()
    &&& item_rebuild_error(request.input@[k], legacy.input@[k]) is Some
    &&& forall|j: int| 0 <= j < k ==> (#[trigger] item_rebuild_error(request.input@[j], legacy.input@[j])) is None
}

/// Whether every canonical item rebuilds against its template.
pub open spec fn all_items_rebuild(request: ModelRequest, legacy: Prompt) -> bool {
    forall|i: int| 0 <= i < request.input@.len() ==> (#[trigger] item_rebuild_error(request.input@[i], legacy.input@[i])) is None
}

/// `out` is the prompt rebuilt from `request` with `legacy` as the decoration template.
pub open spec fn prompt_rebuilt(request: ModelRequest, legacy: Prompt, out: Prompt) -> bool {
    &&& out.input@.len() == legacy.input@.len()
    &&& forall|i: int| 0 <= i < legacy.input@.len() ==> #[trigger] item_rebuilt(request.input@[i], legacy.input@[i], out.input@[i])
    &&& tools_converted(request.tools@, out.tools@)
    &&& out.parallel_tool_calls == request.parallel_tool_calls
    &&& out.base_instructions.text == request.instructions
    &&& out.base_instructions.provenance == legacy.base_instructions.provenance
    &&& match request.output.format {
        ModelOutputFormat::Text => out.output_schema is None && out.output_schema_strict == legacy.output_schema_strict,
        ModelOutputFormat::JsonSchema { schema, strict } => out.output_schema == Some(schema) && out.output_schema_strict == strict,
    }
    &&& out.cyber_access_program is None
}

/// `out` is the same prompt as `legacy` apart from its tool declarations: the same items and
/// every other field equal.
pub open spec fn same_prompt_apart_from_tools(out: Prompt, legacy: Prompt) -> bool {
    &&& out.input@.len() == legacy.input@.len()
    &&& forall|i: int| 0 <= i < legacy.input@.len() ==> #[trigger] same_response_item(out.input@[i], legacy.input@[i])
    &&& out.parallel_tool_calls == legacy.parallel_tool_calls
    &&& out.base_instructions == legacy.base_instructions
    &&& out.output_schema == legacy.output_schema
    &&& out.output_schema_strict == legacy.output_schema_strict
    &&& out.cyber_access_program == legacy.cyber_access_program
}

fn copy_tool_spec(tool: &ModelToolSpec) -> (r: ModelToolSpec)
    ensures
        r == *tool,
{
    match tool {
        ModelToolSpec::Function { namespace, name, description, input_schema, strict, availability, purpose } =>
            ModelToolSpec::Function {
                namespace: namespace.clone(),
                name: name.clone(),
                description: description.clone(),
                input_schema: input_schema.clone(),
                strict: *strict,
                availability: *availability,
                purpose: *purpose,
            },
        ModelToolSpec::Freeform { namespace, name, description, input_format, availability, purpose } =>
            ModelToolSpec::Freeform {
                namespace: namespace.clone(),
                name: name.clone(),
                description: description.clone(),
                input_format: match input_format {
                    ModelFreeformInputFormat::Text => ModelFreeformInputFormat::Text,
                    ModelFreeformInputFormat::Grammar { syntax, definition } =>
                        ModelFreeformInputFormat::Grammar { syntax: syntax.clone(), definition: definition.clone() },
                },
                availability: *availability,
                purpose: *purpose,
            },
    }
}

/// The message with which the adapter refuses a canonical tool declaration, if it does:
/// namespaced tools must be invoked tools, discovery must be the client tool-discovery tool, and
/// free-form input must be grammar-constrained.
pub open spec fn tool_encode_error(tool: ModelToolSpec) -> Option<Seq<char>> {
    match tool {
        ModelToolSpec::Function { namespace, name, strict, availability, purpose, .. } => match purpose {
            ModelToolPurpose::Invocation => None,
            ModelToolPurpose::Discovery => if namespace is Some {
                Some("discovery tools cannot be nested in a Codex tool namespace"@)
            } else if name@ == TOOL_SEARCH_NAME@ && !strict && availability == ModelToolAvailability::Immediate {
                None
            } else {
                Some("canonical discovery tool cannot be represented by the Codex adapter"@)
            },
        },
        ModelToolSpec::Freeform { namespace, input_format, purpose, .. } => match purpose {
            ModelToolPurpose::Invocation => if input_format is Grammar {
                None
            } else {
                Some("the current Codex adapter cannot represent unconstrained free-form tool input"@)
            },
            ModelToolPurpose::Discovery => if namespace is Some {
                Some("discovery tools cannot be nested in a Codex tool namespace"@)
            } else {
                Some("canonical discovery tool cannot be represented by the Codex adapter"@)
            },
        },
    }
}

/// Whether every tool declaration can be encoded by the adapter.
pub open spec fn tools_encodable(tools: Seq<ModelToolSpec>) -> bool {
    forall|i: int| 0 <= i < tools.len() ==> (#[trigger] tool_encode_error(tools[i])) is None
}

/// Whether `k` is the first tool the adapter refuses.
pub open spec fn first_tool_error_at(tools: Seq<ModelToolSpec>, k: int) -> bool {
    &&& 0 <= k < tools.len()
    &&& tool_encode_error(tools[k]) is Some
    &&& forall|j: int| 0 <= j < k ==> (#[trigger] tool_encode_error(tools[j])) is None
}

fn tool_error(tool: &ModelToolSpec) -> (r: Option<&'static str>)
    ensures
        match (r, tool_encode_error(*tool)) {
            (Some(m), Some(e)) => m@ == e,
            (None, None) => true,
            _ => false,
        },
{
    match tool {
        ModelToolSpec::Function { namespace, name, strict, availability, purpose, .. } => match purpose {
            ModelToolPurpose::Invocation => None,
            ModelToolPurpose::Discovery => if namespace.is_some() {
                Some("discovery tools cannot be nested in a Codex tool namespace")
            } else if str_eq(name.as_str(), TOOL_SEARCH_NAME) && !*strict && *availability == ModelToolAvailability::Immediate {
                None
            } else {
                Some("canonical discovery tool cannot be represented by the Codex adapter")
            },
        },
        ModelToolSpec::Freeform { namespace, input_format, purpose, .. } => match purpose {
            ModelToolPurpose::Invocation => match input_format {
                ModelFreeformInputFormat::Grammar { .. } => None,
                ModelFreeformInputFormat::Text =>
                    Some("the current Codex adapter cannot represent unconstrained free-form tool input"),
            },
            ModelToolPurpose::Discovery => if namespace.is_some() {
                Some("discovery tools cannot be nested in a Codex tool namespace")
            } else {
                Some("canonical discovery tool cannot be represented by the Codex adapter")
            },
        },
    }
}

/// The availability a Codex `defer_loading` flag declares: absent means immediate, `true`
/// deferred, and `false` has no canonical form.
pub open spec fn spec_availability(defer_loading: Option<bool>) -> Option<ModelToolAvailability> {
    match defer_loading {
        None => Some(ModelToolAvailability::Immediate),
        Some(true) => Some(ModelToolAvailability::Deferred),
        Some(false) => None,
    }
}

/// Whether a Codex function tool has a canonical form: its schema carries no Responses-only
/// encrypted marker and its availability is representable.
pub open spec fn function_flattenable(tool: ResponsesApiTool) -> bool {
    !schema_has_marker(tool.parameters) && spec_availability(tool.defer_loading) is Some
}

/// Whether a Codex free-form tool has a canonical form: it is grammar-constrained and its
/// availability is representable.
pub open spec fn freeform_flattenable(tool: FreeformTool) -> bool {
    tool.format.format_type@ == FREEFORM_GRAMMAR_FORMAT@ && spec_availability(tool.defer_loading) is Some
}

/// Whether a namespace member has a canonical form.
pub open spec fn member_flattenable(tool: ResponsesApiNamespaceTool) -> bool {
    match tool {
        ResponsesApiNamespaceTool::Function(f) => function_flattenable(f),
        ResponsesApiNamespaceTool::Custom(f) => freeform_flattenable(f),
    }
}

/// Whether a Codex tool declaration has canonical forms: a namespace must carry the default
/// description and only representable members, the discovery tool must be the client one, and
/// the hosted web search tool has none.
pub open spec fn tool_flattenable(tool: ToolSpec) -> bool {
    match tool {
        ToolSpec::Function(f) => function_flattenable(f),
        ToolSpec::Freeform(f) => freeform_flattenable(f),
        ToolSpec::Namespace(ns) => ns.description is Default
            && forall|j: int| 0 <= j < ns.tools@.len() ==> #[trigger] member_flattenable(ns.tools@[j]),
        ToolSpec::ToolSearch { execution, parameters, .. } => execution@ == TOOL_SEARCH_CLIENT_EXECUTION@ && !schema_has_marker(parameters),
        ToolSpec::WebSearch => false,
    }
}

/// Whether every tool declaration of a list has canonical forms.
pub open spec fn tools_flattenable(tools: Seq<ToolSpec>) -> bool {
    forall|i: int| 0 <= i < tools.len() ==> #[trigger] tool_flattenable(tools[i])
}

/// `out` is the canonical invoked function for the Codex function tool `tool` in `namespace`.
pub open spec fn function_flattened(namespace: Option<Seq<char>>, tool: ResponsesApiTool, out: ModelToolSpec) -> bool {
    out matches ModelToolSpec::Function { namespace: n, name, description, input_schema, strict, availability, purpose }
        && opt_view(n) == namespace && name@ == tool.name@ && description@ == tool.description@
        && input_schema == tool.parameters && strict == tool.strict
        && spec_availability(tool.defer_loading) == Some(availability) && purpose == ModelToolPurpose::Invocation
}

/// `out` is the canonical invoked free-form tool for the Codex free-form tool `tool` in
/// `namespace`.
pub open spec fn freeform_flattened(namespace: Option<Seq<char>>, tool: FreeformTool, out: ModelToolSpec) -> bool {
    out matches ModelToolSpec::Freeform {
        namespace: n,
        name,
        description,
        input_format: ModelFreeformInputFormat::Grammar { syntax, definition },
        availability,
        purpose,
    } && opt_view(n) == namespace && name@ == tool.name@ && description@ == tool.description@
        && syntax@ == tool.format.syntax@ && definition@ == tool.format.definition@
        && spec_availability(tool.defer_loading) == Some(availability) && purpose == ModelToolPurpose::Invocation
}

/// `out` is the canonical form of a namespace member of `namespace`.
pub open spec fn member_flattened(namespace: Seq<char>, tool: ResponsesApiNamespaceTool, out: ModelToolSpec) -> bool {
    match tool {
        ResponsesApiNamespaceTool::Function(f) => function_flattened(Some(namespace), f, out),
        ResponsesApiNamespaceTool::Custom(f) => freeform_flattened(Some(namespace), f, out),
    }
}

/// How many canonical declarations a Codex declaration stands for.
pub open spec fn flat_count(tool: ToolSpec) -> nat {
    match tool {
        ToolSpec::Namespace(ns) => ns.tools@.len(),
        _ => 1,
    }
}

/// `out` is the canonical form of the Codex declaration `tool`: one declaration for a root tool,
/// and for a namespace its members in order, each carrying the namespace's name.
pub open spec fn tool_flattened(tool: ToolSpec, out: Seq<ModelToolSpec>) -> bool {
    match tool {
        ToolSpec::Function(f) => out.len() == 1 && function_flattened(None, f, out[0]),
        ToolSpec::Freeform(f) => out.len() == 1 && freeform_flattened(None, f, out[0]),
        ToolSpec::Namespace(ns) => out.len() == ns.tools@.len()
            && forall|j: int| 0 <= j < out.len() ==> #[trigger] member_flattened(ns.name@, ns.tools@[j], out[j]),
        ToolSpec::ToolSearch { description, parameters, .. } => out.len() == 1 && (out[0] matches ModelToolSpec::Function {
            namespace: None,
            name,
            description: d,
            input_schema,
            strict,
            availability,
            purpose,
        } && name@ == TOOL_SEARCH_NAME@ && d@ == description@ && input_schema == parameters && !strict
            && availability == ModelToolAvailability::Immediate && purpose == ModelToolPurpose::Discovery),
        ToolSpec::WebSearch => false,
    }
}

/// `out` is the canonical form of the Codex tool list `tools`: the forms of its declarations,
/// concatenated in order.
pub open spec fn tools_flattened(tools: Seq<ToolSpec>, out: Seq<ModelToolSpec>) -> bool
    decreases tools.len(),
{
    if tools.len() == 0 {
        out.len() == 0
    } else {
        let n = flat_count(tools.last());
        &&& out.len() >= n
        &&& tools_flattened(tools.drop_last(), out.subrange(0, out.len() - n))
        &&& tool_flattened(tools.last(), out.subrange(out.len() - n, out.len() as int))
    }
}

fn model_availability(defer_loading: Option<bool>) -> (r: Option<ModelToolAvailability>)
    ensures
        r == spec_availability(defer_loading),
{
    match defer_loading {
        None => Some(ModelToolAvailability::Immediate),
        Some(true) => Some(ModelToolAvailability::Deferred),
        Some(false) => None,
    }
}

fn copy_namespace(namespace: Option<&String>) -> (r: Option<String>)
    ensures
        opt_view(r) == match namespace {
            Some(n) => Some(n@),
            None => None::<Seq<char>>,
        },
{
    match namespace {
        Some(n) => Some(n.clone()),
        None => None,
    }
}

/// The canonical invoked function for a Codex function tool, if it has one.
fn model_function_tool(namespace: Option<&String>, tool: &ResponsesApiTool) -> (r: Option<ModelToolSpec>)
    ensures
        match r {
            Some(out) => function_flattenable(*tool) && function_flattened(match namespace {
                Some(n) => Some(n@),
                None => None::<Seq<char>>,
            }, *tool, out),
            None => !function_flattenable(*tool),
        },
{
    if schema_has_responses_encrypted_marker(&tool.parameters) {
        return None;
    }
    let availability = match model_availability(tool.defer_loading) {
        Some(a) => a,
        None => return None,
    };
    Some(ModelToolSpec::Function {
        namespace: copy_namespace(namespace),
        name: tool.name.clone(),
        description: tool.description.clone(),
        input_schema: tool.parameters.clone(),
        strict: tool.strict,
        availability,
        purpose: ModelToolPurpose::Invocation,
    })
}

/// The canonical invoked free-form tool for a Codex free-form tool, if it has one.
fn model_freeform_tool(namespace: Option<&String>, tool: &FreeformTool) -> (r: Option<ModelToolSpec>)
    ensures
        match r {
            Some(out) => freeform_flattenable(*tool) && freeform_flattened(match namespace {
                Some(n) => Some(n@),
                None => None::<Seq<char>>,
            }, *tool, out),
            None => !freeform_flattenable(*tool),
        },
{
    if !str_eq(tool.format.format_type.as_str(), FREEFORM_GRAMMAR_FORMAT) {
        return None;
    }
    let availability = match model_availability(tool.defer_loading) {
        Some(a) => a,
        None => return None,
    };
    Some(ModelToolSpec::Freeform {
        namespace: copy_namespace(namespace),
        name: tool.name.clone(),
        description: tool.description.clone(),
        input_format: ModelFreeformInputFormat::Grammar {
            syntax: tool.format.syntax.clone(),
            definition: tool.format.definition.clone(),
        },
        availability,
        purpose: ModelToolPurpose::Invocation,
    })
}

/// Appends the canonical forms of one Codex declaration, or reports that it has none.
fn push_model_tools(tool: &ToolSpec, out: &mut Vec<ModelToolSpec>) -> (r: bool)
    ensures
        r == tool_flattenable(*tool),
        r ==> final(out)@.len() == old(out)@.len() + flat_count(*tool)
            && final(out)@.subrange(0, old(out)@.len() as int) == old(out)@
            && tool_flattened(*tool, final(out)@.subrange(old(out)@.len() as int, final(out)@.len() as int)),
{
    let ghost start = out@;
    match tool {
        ToolSpec::Function(f) => match model_function_tool(None, f) {
            Some(m) => {
                out.push(m);
                assert(out@.subrange(0, start.len() as int) =~= start);
                assert(out@.subrange(start.len() as int, out@.len() as int) =~= seq![m]);
                true
            },
            None => false,
        },
        ToolSpec::Freeform(f) => match model_freeform_tool(None, f) {
            Some(m) => {
                out.push(m);
                assert(out@.subrange(0, start.len() as int) =~= start);
                assert(out@.subrange(start.len() as int, out@.len() as int) =~= seq![m]);
                true
            },
            None => false,
        },
        ToolSpec::Namespace(ns) => {
            match &ns.description {
                NamespaceDescription::Default => {},
                NamespaceDescription::Custom(_) => return false,
            }
            let mut converted: Vec<ModelToolSpec> = Vec::new();
            let mut j: usize = 0;
            while j < ns.tools.len()
                invariant
                    *tool == ToolSpec::Namespace(*ns),
                    j <= ns.tools@.len(),
                    converted@.len() == j,
                    forall|k: int| 0 <= k < j ==> #[trigger] member_flattenable(ns.tools@[k]),
                    forall|k: int| 0 <= k < j ==> #[trigger] member_flattened(ns.name@, ns.tools@[k], converted@[k]),
                decreases ns.tools.len() - j,
            {
                let m = match &ns.tools[j] {
                    ResponsesApiNamespaceTool::Function(f) => model_function_tool(Some(&ns.name), f),
                    ResponsesApiNamespaceTool::Custom(f) => model_freeform_tool(Some(&ns.name), f),
                };
                match m {
                    Some(m) => converted.push(m),
                    None => {
                        assert(!member_flattenable(ns.tools@[j as int]));
                        return false;
                    },
                }
                j += 1;
            }
            let ghost members = converted@;
            let mut k: usize = 0;
            while k < converted.len()
                invariant
                    k <= members.len(),
                    converted@ == members,
                    out@.len() == start.len() + k,
                    out@.subrange(0, start.len() as int) == start,
                    forall|i: int| 0 <= i < k ==> #[trigger] out@[start.len() + i] == members[i],
                decreases converted.len() - k,
            {
                out.push(copy_tool_spec(&converted[k]));
                proof {
                    assert(out@.subrange(0, start.len() as int) =~= start);
                }
                k += 1;
            }
            proof {
                assert forall|i: int| 0 <= i < members.len() implies #[trigger] out@.subrange(start.len() as int, out@.len() as int)[i] == members[i] by {
                    assert(out@[start.len() + i] == members[i]);
                }
                assert(out@.subrange(start.len() as int, out@.len() as int) =~= members);
                assert(out@.subrange(0, start.len() as int) =~= start);
            }
            true
        },
        ToolSpec::ToolSearch { execution, description, parameters } => {
            if !str_eq(execution.as_str(), TOOL_SEARCH_CLIENT_EXECUTION) || schema_has_responses_encrypted_marker(parameters) {
                return false;
            }
            let m = ModelToolSpec::Function {
                namespace: None,
                name: TOOL_SEARCH_NAME.to_owned(),
                description: description.clone(),
                input_schema: parameters.clone(),
                strict: false,
                availability: ModelToolAvailability::Immediate,
                purpose: ModelToolPurpose::Discovery,
            };
            out.push(m);
            assert(out@.subrange(0, start.len() as int) =~= start);
            assert(out@.subrange(start.len() as int, out@.len() as int) =~= seq![m]);
            true
        },
        ToolSpec::WebSearch => false,
    }
}

/// The canonical declarations of a Codex tool list, when every declaration has them: root tools
/// become root canonical tools, each namespace member a tool carrying the namespace's name, and
/// the client discovery tool the canonical discovery tool.
pub fn model_tools_from_codex(tools: &Vec<ToolSpec>) -> (r: Option<Vec<ModelToolSpec>>)
    ensures
        match r {
            Some(out) => tools_flattenable(tools@) && tools_flattened(tools@, out@),
            None => !tools_flattenable(tools@),
        },
{
    let mut out: Vec<ModelToolSpec> = Vec::new();
    let mut i: usize = 0;
    while i < tools.len()
        invariant
            i <= tools@.len(),
            forall|j: int| 0 <= j < i ==> #[trigger] tool_flattenable(tools@[j]),
            tools_flattened(tools@.subrange(0, i as int), out@),
        decreases tools.len() - i,
    {
        let ghost before = out@;
        if !push_model_tools(&tools[i], &mut out) {
            return None;
        }
        proof {
            let next = tools@.subrange(0, i + 1);
            assert(next.drop_last() =~= tools@.subrange(0, i as int));
            assert(next.last() == tools@[i as int]);
            let n = flat_count(tools@[i as int]);
            assert(out@.subrange(0, out@.len() - n) =~= before);
        }
        i += 1;
    }
    assert(tools@.subrange(0, tools@.len() as int) =~= tools@);
    Some(out)
}

/// The grammar constraint kind of Codex free-form tools.
pub const FREEFORM_GRAMMAR_FORMAT: &'static str = "grammar";

/// The namespace a canonical tool declaration belongs to, if any.
pub open spec fn spec_tool_namespace(tool: ModelToolSpec) -> Option<String> {
    match tool {
        ModelToolSpec::Function { namespace, .. } => namespace,
        ModelToolSpec::Freeform { namespace, .. } => namespace,
    }
}

/// The `defer_loading` flag Codex declares for a tool's availability.
pub open spec fn spec_defer_loading(availability: ModelToolAvailability) -> Option<bool> {
    match availability {
        ModelToolAvailability::Immediate => None,
        ModelToolAvailability::Deferred => Some(true),
    }
}

/// Whether `out` is the Codex function tool for the canonical function `tool`.
pub open spec fn function_tool_converted(tool: ModelToolSpec, out: ResponsesApiTool) -> bool {
    match tool {
        ModelToolSpec::Function { name, description, input_schema, strict, availability, .. } => {
            &&& out.name@ == name@
            &&& out.description@ == description@
            &&& out.strict == strict
            &&& out.defer_loading == spec_defer_loading(availability)
            &&& out.parameters == input_schema
            &&& out.output_schema is None
        },
        _ => false,
    }
}

/// Whether `out` is the Codex free-form tool for the grammar-constrained canonical tool `tool`.
pub open spec fn freeform_tool_converted(tool: ModelToolSpec, out: FreeformTool) -> bool {
    match tool {
        ModelToolSpec::Freeform { name, description, input_format: ModelFreeformInputFormat::Grammar { syntax, definition }, availability, .. } => {
            &&& out.name@ == name@
            &&& out.description@ == description@
            &&& out.defer_loading == spec_defer_loading(availability)
            &&& out.format.format_type@ == FREEFORM_GRAMMAR_FORMAT@
            &&& out.format.syntax@ == syntax@
            &&& out.format.definition@ == definition@
        },
        _ => false,
    }
}

/// Whether `out` is the top-level Codex declaration of the encodable canonical tool `tool`.
pub open spec fn root_tool_converted(tool: ModelToolSpec, out: ToolSpec) -> bool {
    match tool {
        ModelToolSpec::Function { description, input_schema, purpose: ModelToolPurpose::Discovery, .. } =>
            out matches ToolSpec::ToolSearch { execution, description: d, parameters }
                && execution@ == TOOL_SEARCH_CLIENT_EXECUTION@ && d@ == description@ && parameters == input_schema,
        ModelToolSpec::Function { .. } => out matches ToolSpec::Function(f) && function_tool_converted(tool, f),
        ModelToolSpec::Freeform { .. } => out matches ToolSpec::Freeform(f) && freeform_tool_converted(tool, f),
    }
}

/// Whether `out` is the namespace member declaring the encodable canonical tool `tool`.
pub open spec fn member_tool_converted(tool: ModelToolSpec, out: ResponsesApiNamespaceTool) -> bool {
    match tool {
        ModelToolSpec::Function { .. } => out matches ResponsesApiNamespaceTool::Function(f) && function_tool_converted(tool, f),
        ModelToolSpec::Freeform { .. } => out matches ResponsesApiNamespaceTool::Custom(f) && freeform_tool_converted(tool, f),
    }
}

/// One top-level entry of the Codex tool list: a tool of its own, or a namespace with its
/// members in order.
pub enum ToolGroup {
    Root(ModelToolSpec),
    Namespace(Seq<char>, Seq<ModelToolSpec>),
}

/// Whether the last entry of `groups` is a namespace named `name`.
pub open spec fn extends_last_namespace(groups: Seq<ToolGroup>, name: Seq<char>) -> bool {
    groups.len() > 0 && (groups.last() matches ToolGroup::Namespace(m, _) && m == name)
}

/// How canonical tools are grouped into Codex entries: a tool without namespace is an entry of
/// its own, and each run of consecutive tools in the same namespace forms one namespace entry.
pub open spec fn spec_tool_groups(tools: Seq<ModelToolSpec>) -> Seq<ToolGroup>
    decreases tools.len(),
{
    if tools.len() == 0 {
        Seq::empty()
    } else {
        let groups = spec_tool_groups(tools.drop_last());
        let tool = tools.last();
        match spec_tool_namespace(tool) {
            None => groups.push(ToolGroup::Root(tool)),
            Some(n) => if extends_last_namespace(groups, n@) {
                groups.update(groups.len() - 1, ToolGroup::Namespace(n@, groups.last()->Namespace_1.push(tool)))
            } else {
                groups.push(ToolGroup::Namespace(n@, seq![tool]))
            },
        }
    }
}

/// Whether the Codex entry `out` declares the group `group`; a namespace built here carries the
/// default description of its name.
pub open spec fn group_converted(group: ToolGroup, out: ToolSpec) -> bool {
    match group {
        ToolGroup::Root(tool) => root_tool_converted(tool, out),
        ToolGroup::Namespace(name, members) => out matches ToolSpec::Namespace(ns) && {
            &&& ns.name@ == name
            &&& ns.description == NamespaceDescription::Default
            &&& ns.tools@.len() == members.len()
            &&& forall|j: int| 0 <= j < members.len() ==> #[trigger] member_tool_converted(members[j], ns.tools@[j])
        },
    }
}

/// Whether `out` is the Codex tool list for the canonical tools `tools`.
pub open spec fn tools_converted(tools: Seq<ModelToolSpec>, out: Seq<ToolSpec>) -> bool {
    let groups = spec_tool_groups(tools);
    &&& out.len() == groups.len()
    &&& forall|i: int| 0 <= i < groups.len() ==> #[trigger] group_converted(groups[i], out[i])
}

fn codex_defer_loading(availability: ModelToolAvailability) -> (r: Option<bool>)
    ensures
        r == spec_defer_loading(availability),
{
    match availability {
        ModelToolAvailability::Immediate => None,
        ModelToolAvailability::Deferred => Some(true),
    }
}

fn codex_function_tool(tool: &ModelToolSpec) -> (r: ResponsesApiTool)
    requires
        tool is Function,
    ensures
        function_tool_converted(*tool, r),
{
    match tool {
        ModelToolSpec::Function { name, description, input_schema, strict, availability, .. } => ResponsesApiTool {
            name: name.clone(),
            description: description.clone(),
            strict: *strict,
            defer_loading: codex_defer_loading(*availability),
            parameters: input_schema.clone(),
            output_schema: None,
        },
        ModelToolSpec::Freeform { .. } => {
            assert(false);
            ResponsesApiTool {
                name: String::new(),
                description: String::new(),
                strict: false,
                defer_loading: None,
                parameters: crate::json::json_from_text(String::new()),
                output_schema: None,
            }
        },
    }
}

fn codex_freeform_tool(tool: &ModelToolSpec) -> (r: FreeformTool)
    requires
        tool matches ModelToolSpec::Freeform { input_format: ModelFreeformInputFormat::Grammar { .. }, .. },
    ensures
        freeform_tool_converted(*tool, r),
{
    match tool {
        ModelToolSpec::Freeform { name, description, input_format: ModelFreeformInputFormat::Grammar { syntax, definition }, availability, .. } => FreeformTool {
            name: name.clone(),
            description: description.clone(),
            defer_loading: codex_defer_loading(*availability),
            format: FreeformToolFormat {
                format_type: FREEFORM_GRAMMAR_FORMAT.to_owned(),
                syntax: syntax.clone(),
                definition: definition.clone(),
            },
        },
        _ => {
            assert(false);
            FreeformTool {
                name: String::new(),
                description: String::new(),
                defer_loading: None,
                format: FreeformToolFormat { format_type: String::new(), syntax: String::new(), definition: String::new() },
            }
        },
    }
}

/// The Codex declaration of an encodable top-level tool.
fn codex_root_tool_from_model(tool: &ModelToolSpec) -> (r: ToolSpec)
    requires
        spec_tool_namespace(*tool) is None,
        tool_encode_error(*tool) is None,
    ensures
        root_tool_converted(*tool, r),
{
    match tool {
        ModelToolSpec::Function { description, input_schema, purpose: ModelToolPurpose::Discovery, .. } => ToolSpec::ToolSearch {
            execution: TOOL_SEARCH_CLIENT_EXECUTION.to_owned(),
            description: description.clone(),
            parameters: input_schema.clone(),
        },
        ModelToolSpec::Function { .. } => ToolSpec::Function(codex_function_tool(tool)),
        ModelToolSpec::Freeform { .. } => ToolSpec::Freeform(codex_freeform_tool(tool)),
    }
}

/// The namespace member declaring an encodable namespaced tool.
fn codex_namespace_tool_from_model(tool: &ModelToolSpec) -> (r: ResponsesApiNamespaceTool)
    requires
        spec_tool_namespace(*tool) is Some,
        tool_encode_error(*tool) is None,
    ensures
        member_tool_converted(*tool, r),
{
    match tool {
        ModelToolSpec::Function { .. } => ResponsesApiNamespaceTool::Function(codex_function_tool(tool)),
        ModelToolSpec::Freeform { .. } => ResponsesApiNamespaceTool::Custom(codex_freeform_tool(tool)),
    }
}

/// The tool declarations the adapter sends for a canonical request, or the error for the first
/// declaration it cannot encode. Top-level tools keep their order; each run of consecutive tools
/// in the same namespace becomes one namespace with the default description.
pub fn codex_tools_from_model(tools: &Vec<ModelToolSpec>) -> (r: Result<Vec<ToolSpec>, RequestConversionError>)
    ensures
        tools_encodable(tools@) ==> (r matches Ok(out) && tools_converted(tools@, out@)),
        forall|k: int| #[trigger] first_tool_error_at(tools@, k) ==> is_invalid_request(r, tool_encode_error(tools@[k]).unwrap()),
{
    let mut output: Vec<ToolSpec> = Vec::new();
    let mut i: usize = 0;
    while i < tools.len()
        invariant
            i <= tools@.len(),
            forall|j: int| 0 <= j < i ==> (#[trigger] tool_encode_error(tools@[j])) is None,
            tools_converted(tools@.subrange(0, i as int), output@),
        decreases tools.len() - i,
    {
        if let Some(message) = tool_error(&tools[i]) {
            let e = invalid_request(message);
            proof {
                assert forall|k: int| #[trigger] first_tool_error_at(tools@, k)
                    implies is_invalid_request(Err::<Vec<ToolSpec>, RequestConversionError>(e), tool_encode_error(tools@[k]).unwrap()) by {
                    if k < i {
                        assert(tool_encode_error(tools@[k]) is None);
                    } else if k > i {
                        assert(tool_encode_error(tools@[i as int]) is None);
                    }
                }
            }
            return Err(e);
        }
        let ghost prefix = tools@.subrange(0, i as int);
        let ghost next = tools@.subrange(0, i + 1);
        let ghost before = output@;
        proof {
            assert(next.drop_last() =~= prefix);
            assert(next.last() == tools@[i as int]);
        }
        let namespace = match &tools[i] {
            ModelToolSpec::Function { namespace, .. } => namespace,
            ModelToolSpec::Freeform { namespace, .. } => namespace,
        };
        match namespace {
            None => {
                output.push(codex_root_tool_from_model(&tools[i]));
                proof {
                    let groups = spec_tool_groups(next);
                    assert(groups =~= spec_tool_groups(prefix).push(ToolGroup::Root(tools@[i as int])));
                    assert forall|g: int| 0 <= g < groups.len() implies #[trigger] group_converted(groups[g], output@[g]) by {
                        if g < groups.len() - 1 {
                            assert(group_converted(spec_tool_groups(prefix)[g], before[g]));
                        }
                    }
                }
            },
            Some(name) => {
                let member = codex_namespace_tool_from_model(&tools[i]);
                let len = output.len();
                let extend = len > 0 && match &output[len - 1] {
                    ToolSpec::Namespace(existing) => str_eq(existing.name.as_str(), name.as_str()),
                    _ => false,
                };
                if extend {
                    let last = output.pop().unwrap();
                    proof {
                        assert(output@ =~= before.drop_last());
                        assert(last == before.last());
                    }
                    match last {
                        ToolSpec::Namespace(existing) => {
                            let ghost old_members = existing.tools@;
                            let ResponsesApiNamespace { name: ns_name, description, tools: mut members } = existing;
                            members.push(member);
                            output.push(ToolSpec::Namespace(ResponsesApiNamespace { name: ns_name, description, tools: members }));
                            proof {
                                let pgroups = spec_tool_groups(prefix);
                                let groups = spec_tool_groups(next);
                                assert(group_converted(pgroups[pgroups.len() - 1], before[pgroups.len() - 1]));
                                let ms = pgroups.last()->Namespace_1;
                                assert(groups =~= pgroups.update(pgroups.len() - 1, ToolGroup::Namespace(name@, ms.push(tools@[i as int]))));
                                assert forall|g: int| 0 <= g < groups.len() implies #[trigger] group_converted(groups[g], output@[g]) by {
                                    if g < groups.len() - 1 {
                                        assert(group_converted(pgroups[g], before[g]));
                                    } else {
                                        let out_ns = output@[g]->Namespace_0;
                                        assert forall|j: int| 0 <= j < ms.len() + 1 implies
                                            #[trigger] member_tool_converted(ms.push(tools@[i as int])[j], out_ns.tools@[j]) by {
                                            if j < ms.len() {
                                                assert(member_tool_converted(ms[j], old_members[j]));
                                            }
                                        }
                                    }
                                }
                            }
                        },
                        _ => {
                            assert(false);
                        },
                    }
                } else {
                    let mut members: Vec<ResponsesApiNamespaceTool> = Vec::new();
                    members.push(member);
                    output.push(ToolSpec::Namespace(ResponsesApiNamespace {
                        name: name.clone(),
                        description: NamespaceDescription::Default,
                        tools: members,
                    }));
                    proof {
                        let pgroups = spec_tool_groups(prefix);
                        let groups = spec_tool_groups(next);
                        if extends_last_namespace(pgroups, name@) {
                            assert(group_converted(pgroups[pgroups.len() - 1], before[pgroups.len() - 1]));
                            assert(false);
                        }
                        assert(groups =~= pgroups.push(ToolGroup::Namespace(name@, seq![tools@[i as int]])));
                        assert forall|g: int| 0 <= g < groups.len() implies #[trigger] group_converted(groups[g], output@[g]) by {
                            if g < groups.len() - 1 {
                                assert(group_converted(pgroups[g], before[g]));
                            } else {
                                let out_ns = output@[g]->Namespace_0;
                                assert(member_tool_converted(seq![tools@[i as int]][0], out_ns.tools@[0]));
                            }
                        }
                    }
                }
            },
        }
        i += 1;
    }
    proof {
        assert(tools@.subrange(0, tools@.len() as int) =~= tools@);
        assert forall|k: int| #[trigger] first_tool_error_at(tools@, k) implies false by {
            assert(tool_encode_error(tools@[k]) is None);
        }
    }
    Ok(output)
}

/// Rebuilds the Codex prompt of a canonical request, using the incoming prompt as the template
/// of its provider-private decorations.
pub fn prompt_from_model_request(request: &ModelRequest, legacy_prompt: &Prompt) -> (r: Result<Prompt, RequestConversionError>)
    ensures
        legacy_prompt.cyber_access_program is Some
            ==> is_invalid_request(r, "canonical request conversion does not support Codex access programs"@),
        legacy_prompt.cyber_access_program is None && request.input@.len() != legacy_prompt.input@.len()
            ==> is_invalid_request(r, "canonical request input no longer matches the migration template"@),
        legacy_prompt.cyber_access_program is None && request.input@.len() == legacy_prompt.input@.len() ==> {
            &&& all_items_rebuild(*request, *legacy_prompt) && tools_encodable(request.tools@)
                ==> (r matches Ok(p) && prompt_rebuilt(*request, *legacy_prompt, p))
            &&& all_items_rebuild(*request, *legacy_prompt) ==> forall|k: int| #[trigger] first_tool_error_at(request.tools@, k)
                ==> is_invalid_request(r, tool_encode_error(request.tools@[k]).unwrap())
            &&& forall|k: int| #[trigger] first_item_error_at(*request, *legacy_prompt, k)
                ==> is_invalid_request(r, item_rebuild_error(request.input@[k], legacy_prompt.input@[k]).unwrap())
        },
{
    if legacy_prompt.cyber_access_program.is_some() {
        return Err(invalid_request("canonical request conversion does not support Codex access programs"));
    }
    if request.input.len() != legacy_prompt.input.len() {
        return Err(invalid_request("canonical request input no longer matches the migration template"));
    }
    let mut input: Vec<ResponseItem> = Vec::new();
    let mut i: usize = 0;
    while i < request.input.len()
        invariant
            legacy_prompt.cyber_access_program is None,
            request.input@.len() == legacy_prompt.input@.len(),
            i <= request.input@.len(),
            input@.len() == i,
            forall|j: int| 0 <= j < i ==> (#[trigger] item_rebuild_error(request.input@[j], legacy_prompt.input@[j])) is None,
            forall|j: int| 0 <= j < i ==> #[trigger] item_rebuilt(request.input@[j], legacy_prompt.input@[j], input@[j]),
        decreases request.input.len() - i,
    {
        match response_item_from_model_input(&request.input[i], &legacy_prompt.input[i]) {
            Ok(item) => input.push(item),
            Err(e) => {
                proof {
                    assert forall|k: int| #[trigger] first_item_error_at(*request, *legacy_prompt, k)
                        implies is_invalid_request(Err::<Prompt, RequestConversionError>(e), item_rebuild_error(request.input@[k], legacy_prompt.input@[k]).unwrap()) by {
                        if k < i {
                            assert(item_rebuild_error(request.input@[k], legacy_prompt.input@[k]) is None);
                        } else if k > i {
                            assert(item_rebuild_error(request.input@[i as int], legacy_prompt.input@[i as int]) is None);
                        }
                    }
                }
                return Err(e);
            },
        }
        i += 1;
    }
    let tools = match codex_tools_from_model(&request.tools) {
        Ok(tools) => tools,
        Err(e) => {
            proof {
                assert forall|k: int| #[trigger] first_item_error_at(*request, *legacy_prompt, k) implies false by {
                    assert(item_rebuild_error(request.input@[k], legacy_prompt.input@[k]) is None);
                }
            }
            return Err(e);
        },
    };
    let (output_schema, output_schema_strict) = match &request.output.format {
        ModelOutputFormat::Text => (None, legacy_prompt.output_schema_strict),
        ModelOutputFormat::JsonSchema { schema, strict } => (Some(schema.clone()), *strict),
    };
    let out = Prompt {
        input,
        tools,
        parallel_tool_calls: request.parallel_tool_calls,
        base_instructions: BaseInstructions {
            text: request.instructions.clone(),
            provenance: legacy_prompt.base_instructions.provenance.clone(),
        },
        output_schema,
        output_schema_strict,
        cyber_access_program: None,
    };
    proof {
        assert forall|k: int| #[trigger] first_item_error_at(*request, *legacy_prompt, k) implies false by {
            assert(item_rebuild_error(request.input@[k], legacy_prompt.input@[k]) is None);
        }
    }
    Ok(out)
}

/// The canonical form of a Codex tool list can always be encoded back by the adapter.
proof fn lemma_flattened_tools_encodable(tools: Seq<ToolSpec>, out: Seq<ModelToolSpec>)
    requires
        tools_flattened(tools, out),
    ensures
        tools_encodable(out),
    decreases tools.len(),
{
    if tools.len() > 0 {
        let n = flat_count(tools.last());
        let prefix = out.subrange(0, out.len() - n);
        let tail = out.subrange(out.len() - n, out.len() as int);
        lemma_flattened_tools_encodable(tools.drop_last(), prefix);
        assert forall|i: int| 0 <= i < out.len() implies (#[trigger] tool_encode_error(out[i])) is None by {
            if i < out.len() - n {
                assert(out[i] == prefix[i]);
            } else {
                let j = i - (out.len() - n);
                assert(out[i] == tail[j]);
                match tools.last() {
                    ToolSpec::Namespace(ns) => {
                        assert(member_flattened(ns.name@, ns.tools@[j], tail[j]));
                    },
                    _ => {
                        assert(j == 0);
                    },
                }
            }
        }
    }
}

/// Converting a convertible prompt to its canonical request and rebuilding the prompt from that
/// request, with the prompt itself as the template, gives the prompt's items and settings back,
/// and its tool declarations can be encoded back.
pub proof fn lemma_prompt_round_trip(prompt: Prompt, request: ModelRequest, rebuilt: Prompt)
    requires
        prompt_convertible(prompt),
        request_from_prompt(prompt, request),
    ensures
        all_items_rebuild(request, prompt),
        tools_encodable(request.tools@),
        prompt_rebuilt(request, prompt, rebuilt) ==> same_prompt_apart_from_tools(rebuilt, prompt),
{
    lemma_flattened_tools_encodable(prompt.tools@, request.tools@);
    assert forall|i: int| 0 <= i < request.input@.len()
        implies (#[trigger] item_rebuild_error(request.input@[i], prompt.input@[i])) is None by {
        assert(input_item_convertible(prompt.input@[i]));
        assert(input_item_converted(prompt.input@[i], request.input@[i]));
        lemma_request_item_round_trip(prompt.input@[i], request.input@[i], prompt.input@[i]);
    }
    if prompt_rebuilt(request, prompt, rebuilt) {
        assert forall|i: int| 0 <= i < prompt.input@.len() implies #[trigger] same_response_item(rebuilt.input@[i], prompt.input@[i]) by {
            assert(input_item_convertible(prompt.input@[i]));
            assert(input_item_converted(prompt.input@[i], request.input@[i]));
            assert(item_rebuilt(request.input@[i], prompt.input@[i], rebuilt.input@[i]));
            lemma_request_item_round_trip(prompt.input@[i], request.input@[i], rebuilt.input@[i]);
        }
    }
}

/// Whether rebuilding the Codex tool list from the canonical declarations `model` reproduces
/// `tools`.
pub open spec fn tools_regroup_to(model: Seq<ModelToolSpec>, tools: Seq<ToolSpec>) -> bool {
    exists|out: Seq<ToolSpec>| tools_converted(model, out) && #[trigger] same_tools(out, tools)
}

/// Whether a Codex declaration keeps its shape through the canonical form: a namespace has
/// members, and no function tool declares an output schema (the canonical form has none).
pub open spec fn tool_regroupable(tool: ToolSpec) -> bool {
    match tool {
        ToolSpec::Function(f) => f.output_schema is None,
        ToolSpec::Namespace(ns) => ns.tools@.len() > 0 && forall|j: int| 0 <= j < ns.tools@.len()
            ==> (#[trigger] ns.tools@[j] matches ResponsesApiNamespaceTool::Function(f) ==> f.output_schema is None),
        _ => true,
    }
}

/// Whether two declarations are namespaces of the same name.
pub open spec fn same_namespace_name(a: ToolSpec, b: ToolSpec) -> bool {
    a matches ToolSpec::Namespace(x) && (b matches ToolSpec::Namespace(y) && x.name@ == y.name@)
}

/// Whether a Codex tool list keeps its shape through the canonical form: each declaration does,
/// and no two neighbouring namespaces share a name (regrouping would merge them).
pub open spec fn tools_regroupable(tools: Seq<ToolSpec>) -> bool {
    &&& forall|i: int| 0 <= i < tools.len() ==> #[trigger] tool_regroupable(tools[i])
    &&& forall|i: int| 1 <= i < tools.len() ==> !same_namespace_name(tools[i - 1], #[trigger] tools[i])
}

/// Whether the group `group` of canonical declarations stands for the Codex declaration `tool`.
pub open spec fn group_corresponds(group: ToolGroup, tool: ToolSpec) -> bool {
    match tool {
        ToolSpec::Namespace(ns) => group matches ToolGroup::Namespace(name, members) && {
            &&& name == ns.name@
            &&& members.len() == ns.tools@.len()
            &&& forall|j: int| 0 <= j < members.len() ==> #[trigger] member_flattened(ns.name@, ns.tools@[j], members[j])
        },
        _ => group matches ToolGroup::Root(x) && tool_flattened(tool, seq![x]),
    }
}

/// Appending a run of declarations of one namespace after groups that do not end in that
/// namespace adds one namespace group holding the run.
proof fn lemma_group_run(prefix: Seq<ModelToolSpec>, run: Seq<ModelToolSpec>, name: Seq<char>)
    requires
        run.len() > 0,
        forall|j: int| 0 <= j < run.len() ==> (#[trigger] spec_tool_namespace(run[j]) matches Some(n) && n@ == name),
        !extends_last_namespace(spec_tool_groups(prefix), name),
    ensures
        spec_tool_groups(prefix + run) == spec_tool_groups(prefix).push(ToolGroup::Namespace(name, run)),
    decreases run.len(),
{
    let all = prefix + run;
    assert(all.drop_last() =~= prefix + run.drop_last());
    assert(all.last() == run.last());
    assert(spec_tool_namespace(run[run.len() - 1]) matches Some(n) && n@ == name);
    if run.len() == 1 {
        assert(prefix + run.drop_last() =~= prefix);
        assert(seq![run.last()] =~= run);
    } else {
        lemma_group_run(prefix, run.drop_last(), name);
        assert(run.drop_last().push(run.last()) =~= run);
    }
}

/// The groups of a flattened, regroupable Codex tool list stand for its declarations, one for
/// one.
proof fn lemma_flattened_groups(tools: Seq<ToolSpec>, model: Seq<ModelToolSpec>)
    requires
        tools_flattenable(tools),
        tools_regroupable(tools),
        tools_flattened(tools, model),
    ensures
        spec_tool_groups(model).len() == tools.len(),
        forall|i: int| 0 <= i < tools.len() ==> #[trigger] group_corresponds(spec_tool_groups(model)[i], tools[i]),
    decreases tools.len(),
{
    if tools.len() > 0 {
        let last = tools.last();
        let n = flat_count(last);
        let prefix = model.subrange(0, model.len() - n);
        let tail = model.subrange(model.len() - n, model.len() as int);
        let rest = tools.drop_last();
        assert forall|i: int| 0 <= i < rest.len() implies #[trigger] tool_flattenable(rest[i]) by {
            assert(tool_flattenable(tools[i]));
        }
        assert forall|i: int| 0 <= i < rest.len() implies #[trigger] tool_regroupable(rest[i]) by {
            assert(tool_regroupable(tools[i]));
        }
        assert forall|i: int| 1 <= i < rest.len() implies !same_namespace_name(rest[i - 1], #[trigger] rest[i]) by {
            assert(!same_namespace_name(tools[i - 1], tools[i]));
        }
        lemma_flattened_groups(rest, prefix);
        assert(model =~= prefix + tail);
        let g = spec_tool_groups(prefix);
        assert(tool_flattenable(tools[tools.len() - 1]));
        assert(tool_regroupable(tools[tools.len() - 1]));
        match last {
            ToolSpec::Namespace(ns) => {
                assert forall|j: int| 0 <= j < tail.len() implies (#[trigger] spec_tool_namespace(tail[j]) matches Some(s) && s@ == ns.name@) by {
                    assert(member_flattened(ns.name@, ns.tools@[j], tail[j]));
                }
                if extends_last_namespace(g, ns.name@) {
                    let k = rest.len() - 1;
                    assert(group_corresponds(g[k], rest[k]));
                    assert(!same_namespace_name(tools[k], tools[k + 1]));
                    assert(false);
                }
                lemma_group_run(prefix, tail, ns.name@);
                assert(group_corresponds(spec_tool_groups(model)[tools.len() - 1], last)) by {
                    assert(spec_tool_groups(model)[tools.len() - 1] == ToolGroup::Namespace(ns.name@, tail));
                }
            },
            _ => {
                assert(tail.len() == 1);
                assert(tail =~= seq![tail[0]]);
                assert(spec_tool_namespace(tail[0]) is None);
                assert((prefix + tail).drop_last() =~= prefix);
                assert((prefix + tail).last() == tail[0]);
                assert(spec_tool_groups(model) == g.push(ToolGroup::Root(tail[0])));
            },
        }
        assert forall|i: int| 0 <= i < tools.len() implies #[trigger] group_corresponds(spec_tool_groups(model)[i], tools[i]) by {
            if i < tools.len() - 1 {
                assert(group_corresponds(g[i], rest[i]));
            }
        }
    }
}

/// A group converted back stands as the very declaration it came from.
proof fn lemma_converted_identical(group: ToolGroup, tool: ToolSpec, out: ToolSpec)
    requires
        tool_flattenable(tool),
        tool_regroupable(tool),
        group_corresponds(group, tool),
        group_converted(group, out),
    ensures
        identical_tool(out, tool),
{
    reveal_strlit("client");
    reveal_strlit("grammar");
    match tool {
        ToolSpec::Namespace(ns) => {
            let members = group->Namespace_1;
            let out_ns = out->Namespace_0;
            assert forall|j: int| 0 <= j < ns.tools@.len() implies #[trigger] identical_member_tool(out_ns.tools@[j], ns.tools@[j]) by {
                assert(member_flattened(ns.name@, ns.tools@[j], members[j]));
                assert(member_tool_converted(members[j], out_ns.tools@[j]));
                assert(ns.tools@[j] matches ResponsesApiNamespaceTool::Function(f) ==> f.output_schema is None);
                assert(member_flattenable(ns.tools@[j]));
                match ns.tools@[j] {
                    ResponsesApiNamespaceTool::Function(f) => {
                        assert(function_flattened(Some(ns.name@), f, members[j]));
                    },
                    ResponsesApiNamespaceTool::Custom(f) => {
                        assert(freeform_flattened(Some(ns.name@), f, members[j]));
                        assert(f.format.format_type@ == FREEFORM_GRAMMAR_FORMAT@);
                    },
                }
            }
        },
        _ => {},
    }
}

/// Regrouping restores a regroupable Codex tool list: converting its canonical declarations
/// back gives exactly the declarations it holds.
pub proof fn lemma_regrouping_restores_tools(tools: Seq<ToolSpec>, model: Seq<ModelToolSpec>, out: Seq<ToolSpec>)
    requires
        tools_flattenable(tools),
        tools_regroupable(tools),
        tools_flattened(tools, model),
        tools_converted(model, out),
    ensures
        identical_tools(out, tools),
{
    lemma_flattened_groups(tools, model);
    let groups = spec_tool_groups(model);
    assert forall|i: int| 0 <= i < out.len() implies #[trigger] identical_tool(out[i], tools[i]) by {
        assert(group_corresponds(groups[i], tools[i]));
        assert(group_converted(groups[i], out[i]));
        assert(tool_flattenable(tools[i]));
        assert(tool_regroupable(tools[i]));
        lemma_converted_identical(groups[i], tools[i], out[i]);
    }
}

/// The canonical request of a prompt, when the prompt can be represented without losing
/// model-visible semantics: it uses no access program, every tool declaration and input item
/// has a canonical form, and rebuilding the prompt from the request through the adapter
/// reproduces the prompt. Items and settings always come back (`lemma_prompt_round_trip`); the
/// tool declarations are compared, so the canonical path never changes what is sent.
pub fn try_model_request_from_prompt(prompt: &Prompt) -> (r: Option<ModelRequest>)
    ensures
        !prompt_convertible(*prompt) ==> r is None,
        prompt_convertible(*prompt) && tools_regroupable(prompt.tools@) ==> r is Some,
        r matches Some(request) ==> {
            &&& prompt_convertible(*prompt)
            &&& request_from_prompt(*prompt, request)
            &&& all_items_rebuild(request, *prompt)
            &&& tools_regroup_to(request.tools@, prompt.tools@)
        },
        r is None && prompt_convertible(*prompt) ==> exists|model: Seq<ModelToolSpec>, out: Seq<ToolSpec>|
            #![trigger tools_flattened(prompt.tools@, model), tools_converted(model, out)]
            tools_flattened(prompt.tools@, model) && tools_converted(model, out) && !same_tools(out, prompt.tools@),
{
    if prompt.cyber_access_program.is_some() {
        return None;
    }
    let mut input: Vec<ModelInputItem> = Vec::new();
    let mut i: usize = 0;
    while i < prompt.input.len()
        invariant
            prompt.cyber_access_program is None,
            i <= prompt.input@.len(),
            input@.len() == i,
            forall|j: int| 0 <= j < i ==> #[trigger] input_item_convertible(prompt.input@[j]),
            forall|j: int| 0 <= j < i ==> #[trigger] input_item_converted(prompt.input@[j], input@[j]),
        decreases prompt.input.len() - i,
    {
        match model_input_item_from_response(&prompt.input[i]) {
            Some(item) => input.push(item),
            None => return None,
        }
        i += 1;
    }
    let tools = match model_tools_from_codex(&prompt.tools) {
        Some(tools) => tools,
        None => return None,
    };
    let output = match &prompt.output_schema {
        Some(schema) => ModelOutputConfig {
            format: ModelOutputFormat::JsonSchema { schema: schema.clone(), strict: prompt.output_schema_strict },
        },
        None => ModelOutputConfig { format: ModelOutputFormat::Text },
    };
    let request = ModelRequest {
        instructions: prompt.base_instructions.text.clone(),
        input,
        tools,
        parallel_tool_calls: prompt.parallel_tool_calls,
        output,
    };
    proof {
        lemma_prompt_round_trip(*prompt, request, *prompt);
    }
    match prompt_from_model_request(&request, prompt) {
        Ok(rebuilt) => {
            proof {
                lemma_prompt_round_trip(*prompt, request, rebuilt);
                assert forall|k: int| #[trigger] first_tool_error_at(request.tools@, k) implies false by {
                    assert(tool_encode_error(request.tools@[k]) is None);
                }
                if tools_regroupable(prompt.tools@) {
                    lemma_regrouping_restores_tools(prompt.tools@, request.tools@, rebuilt.tools@);
                }
            }
            if tools_equal(&rebuilt.tools, &prompt.tools) {
                Some(request)
            } else {
                proof {
                    assert(tools_flattened(prompt.tools@, request.tools@) && tools_converted(request.tools@, rebuilt.tools@)
                        && !same_tools(rebuilt.tools@, prompt.tools@));
                }
                None
            }
        },
        Err(_) => {
            proof {
                assert(false);
            }
            None
        },
    }
}

// ---------------------------------------------------------------------------------------------
// What the conversions keep
// ---------------------------------------------------------------------------------------------

/// A message converted to its canonical form keeps its role, phase and image detail levels:
/// the role texts `system`, `developer`, `user` and `assistant` become the roles of those names,
/// commentary stays commentary and the final answer becomes the final phase, a missing phase
/// stays missing, and every image keeps its detail level.
pub proof fn lemma_request_message_keeps_role_phase_and_detail(item: ResponseItem, out: ModelInputItem)
    requires
        input_item_converted(item, out),
        item is Message,
    ensures
        out is Message,
        (item matches ResponseItem::Message { role, .. } && role@ == "system"@)
            ==> (out matches ModelInputItem::Message(m) && m.role == ModelMessageRole::System),
        (item matches ResponseItem::Message { role, .. } && role@ == "developer"@)
            ==> (out matches ModelInputItem::Message(m) && m.role == ModelMessageRole::Developer),
        (item matches ResponseItem::Message { role, .. } && role@ == "user"@)
            ==> (out matches ModelInputItem::Message(m) && m.role == ModelMessageRole::User),
        (item matches ResponseItem::Message { role, .. } && role@ == "assistant"@)
            ==> (out matches ModelInputItem::Message(m) && m.role == ModelMessageRole::Assistant),
        (item matches ResponseItem::Message { phase: Some(MessagePhase::Commentary), .. })
            ==> (out matches ModelInputItem::Message(m) && m.phase == Some(ModelMessagePhase::Commentary)),
        (item matches ResponseItem::Message { phase: Some(MessagePhase::FinalAnswer), .. })
            ==> (out matches ModelInputItem::Message(m) && m.phase == Some(ModelMessagePhase::Final)),
        (item matches ResponseItem::Message { phase: None, .. })
            ==> (out matches ModelInputItem::Message(m) && m.phase is None),
        forall|i: int| #![trigger item->Message_content@[i]]
            0 <= i < item->Message_content@.len() && item->Message_content@[i] is InputImage ==> {
                let d = item->Message_content@[i]->InputImage_detail;
                let e = out->Message_0.content@[i]->Image_detail;
                &&& out->Message_0.content@[i] is Image
                &&& d == Some(ImageDetail::Auto) ==> e == Some(ModelImageDetail::Auto)
                &&& d == Some(ImageDetail::Low) ==> e == Some(ModelImageDetail::Low)
                &&& d == Some(ImageDetail::High) ==> e == Some(ModelImageDetail::High)
                &&& d == Some(ImageDetail::Original) ==> e == Some(ModelImageDetail::Original)
                &&& d is None ==> e is None
            },
{
    reveal_strlit("system");
    reveal_strlit("developer");
    reveal_strlit("user");
    reveal_strlit("assistant");
    assert("developer"@.len() != "system"@.len());
    assert("user"@.len() != "system"@.len());
    assert("user"@.len() != "developer"@.len());
    assert("assistant"@.len() != "system"@.len());
    assert("assistant"@[0] != "developer"@[0]);
    assert("assistant"@.len() != "user"@.len());
    let content = item->Message_content;
    assert forall|i: int| #![trigger item->Message_content@[i]]
        0 <= i < item->Message_content@.len() && item->Message_content@[i] is InputImage implies {
            let d = item->Message_content@[i]->InputImage_detail;
            let e = out->Message_0.content@[i]->Image_detail;
            &&& out->Message_0.content@[i] is Image
            &&& d == Some(ImageDetail::Auto) ==> e == Some(ModelImageDetail::Auto)
            &&& d == Some(ImageDetail::Low) ==> e == Some(ModelImageDetail::Low)
            &&& d == Some(ImageDetail::High) ==> e == Some(ModelImageDetail::High)
            &&& d == Some(ImageDetail::Original) ==> e == Some(ModelImageDetail::Original)
            &&& d is None ==> e is None
        } by {
        assert(spec_model_content(content@[i], item->Message_role@) == Some(out->Message_0.content@[i]));
    }
}

/// A tool output converted to its canonical result keeps its status, inverted: a successful
/// output is not an error, a failed one is an error, and an output of unknown status has an
/// unknown error state.
pub proof fn lemma_request_result_keeps_status(item: ResponseItem, out: ModelInputItem)
    requires
        input_item_converted(item, out),
        item is FunctionCallOutput || item is CustomToolCallOutput,
    ensures
        out is ToolResult,
        (item matches ResponseItem::FunctionCallOutput { output, .. } && output.success == Some(true))
            ==> out->ToolResult_0.is_error == Some(false),
        (item matches ResponseItem::FunctionCallOutput { output, .. } && output.success == Some(false))
            ==> out->ToolResult_0.is_error == Some(true),
        (item matches ResponseItem::FunctionCallOutput { output, .. } && output.success is None)
            ==> out->ToolResult_0.is_error is None,
        (item matches ResponseItem::CustomToolCallOutput { output, .. } && output.success == Some(true))
            ==> out->ToolResult_0.is_error == Some(false),
        (item matches ResponseItem::CustomToolCallOutput { output, .. } && output.success == Some(false))
            ==> out->ToolResult_0.is_error == Some(true),
        (item matches ResponseItem::CustomToolCallOutput { output, .. } && output.success is None)
            ==> out->ToolResult_0.is_error is None,
{
}

/// A message rebuilt from a canonical message carries the canonical role, phase and image
/// detail levels: each role becomes the role text of its name, the final phase becomes the final
/// answer and commentary stays commentary, and every image keeps its detail level.
pub proof fn lemma_rebuilt_message_keeps_role_phase_and_detail(item: ModelInputItem, legacy: ResponseItem, out: ResponseItem)
    requires
        item_rebuilt(item, legacy, out),
        item is Message,
        legacy is Message,
    ensures
        out is Message,
        item->Message_0.role == ModelMessageRole::System ==> out->Message_role@ == "system"@,
        item->Message_0.role == ModelMessageRole::Developer ==> out->Message_role@ == "developer"@,
        item->Message_0.role == ModelMessageRole::User ==> out->Message_role@ == "user"@,
        item->Message_0.role == ModelMessageRole::Assistant ==> out->Message_role@ == "assistant"@,
        item->Message_0.phase == Some(ModelMessagePhase::Commentary) ==> out->Message_phase == Some(MessagePhase::Commentary),
        item->Message_0.phase == Some(ModelMessagePhase::Final) ==> out->Message_phase == Some(MessagePhase::FinalAnswer),
        item->Message_0.phase is None ==> out->Message_phase is None,
        forall|i: int| #![trigger out->Message_content@[i]]
            0 <= i < out->Message_content@.len() && item->Message_0.content@[i] is Image ==> {
                let d = item->Message_0.content@[i]->Image_detail;
                let e = out->Message_content@[i]->InputImage_detail;
                &&& d == Some(ModelImageDetail::Auto) ==> e == Some(ImageDetail::Auto)
                &&& d == Some(ModelImageDetail::Low) ==> e == Some(ImageDetail::Low)
                &&& d == Some(ModelImageDetail::High) ==> e == Some(ImageDetail::High)
                &&& d == Some(ModelImageDetail::Original) ==> e == Some(ImageDetail::Original)
                &&& d is None ==> e is None
            },
{
    let legacy_content = legacy->Message_content;
    assert forall|i: int| #![trigger out->Message_content@[i]]
        0 <= i < out->Message_content@.len() && item->Message_0.content@[i] is Image implies {
            let d = item->Message_0.content@[i]->Image_detail;
            let e = out->Message_content@[i]->InputImage_detail;
            &&& d == Some(ModelImageDetail::Auto) ==> e == Some(ImageDetail::Auto)
            &&& d == Some(ModelImageDetail::Low) ==> e == Some(ImageDetail::Low)
            &&& d == Some(ModelImageDetail::High) ==> e == Some(ImageDetail::High)
            &&& d == Some(ModelImageDetail::Original) ==> e == Some(ImageDetail::Original)
            &&& d is None ==> e is None
        } by {
        assert(content_rebuilt(item->Message_0.content@[i], legacy_content@[i], out->Message_content@[i]));
    }
}

/// A tool keeps its availability across the adapter: a Codex tool loaded up front is an
/// immediately available canonical tool and one with deferred loading a deferred one, and back
/// again an immediate tool declares no deferral while a deferred one declares deferred loading.
pub proof fn lemma_tool_availability_is_kept(namespace: Option<Seq<char>>, function: ResponsesApiTool, freeform: FreeformTool, canonical: ModelToolSpec, back_function: ResponsesApiTool, back_freeform: FreeformTool)
    ensures
        function_flattened(namespace, function, canonical) ==> {
            &&& function.defer_loading is None ==> canonical->Function_availability == ModelToolAvailability::Immediate
            &&& function.defer_loading == Some(true) ==> canonical->Function_availability == ModelToolAvailability::Deferred
            &&& function.defer_loading != Some(false)
        },
        freeform_flattened(namespace, freeform, canonical) ==> {
            &&& freeform.defer_loading is None ==> canonical->Freeform_availability == ModelToolAvailability::Immediate
            &&& freeform.defer_loading == Some(true) ==> canonical->Freeform_availability == ModelToolAvailability::Deferred
            &&& freeform.defer_loading != Some(false)
        },
        function_tool_converted(canonical, back_function) ==> {
            &&& canonical->Function_availability == ModelToolAvailability::Immediate ==> back_function.defer_loading is None
            &&& canonical->Function_availability == ModelToolAvailability::Deferred ==> back_function.defer_loading == Some(true)
        },
        freeform_tool_converted(canonical, back_freeform) ==> {
            &&& canonical->Freeform_availability == ModelToolAvailability::Immediate ==> back_freeform.defer_loading is None
            &&& canonical->Freeform_availability == ModelToolAvailability::Deferred ==> back_freeform.defer_loading == Some(true)
        },
{
}

} // verus!
