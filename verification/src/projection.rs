//! Lossless compatibility projection from Responses history items into the kernel vocabulary.
//!
//! The projection is conservative: a `HistoryItem` is produced only when the Responses item has
//! a direct provider-neutral meaning. The source envelope is retained in either outcome so
//! callers keep provider IDs, metadata, and wire-only fields while history migrates.

use crate::history::HistoryImageDetail;
use crate::history::HistoryItem;
use crate::history::HistoryMediaSource;
use crate::history::HistoryMessage;
use crate::history::HistoryMessageContent;
use crate::history::HistoryMessagePhase;
use crate::history::HistoryMessageRole;
use crate::history::HistoryReasoning;
use crate::history::HistoryToolCall;
use crate::history::HistoryToolCallId;
use crate::history::HistoryToolInput;
use crate::history::HistoryToolResult;
use crate::history::HistoryToolResultContent;
use crate::json::json_parse;
use crate::json::parse_json;
use crate::responses::ContentItem;
use crate::responses::FunctionCallOutputBody;
use crate::responses::FunctionCallOutputContentItem;
use crate::responses::FunctionCallOutputPayload;
use crate::responses::ImageDetail;
use crate::responses::MessagePhase;
use crate::responses::ReasoningItemContent;
use crate::responses::ReasoningItemReasoningSummary;
use crate::responses::ResponseItem;
use crate::responses::ResponseItemEnvelope;
use crate::text::str_eq;
use vstd::prelude::*;

verus! {

/// Name under which a client tool-search call appears as a tool call.
pub const TOOL_SEARCH_NAME: &'static str = "tool_search";

/// Execution marker of tool searches run by the client rather than by the provider.
pub const TOOL_SEARCH_CLIENT_EXECUTION: &'static str = "client";

/// Result of projecting one Responses item into the provider-neutral history vocabulary.
///
/// Both variants retain the exact owned source envelope.
#[derive(Debug, Clone, PartialEq)]
pub enum HistoryItemProjection {
    Canonical { item: HistoryItem, compatibility: ResponseItemEnvelope },
    Fallback { compatibility: ResponseItemEnvelope, reason: HistoryProjectionFallback },
}

/// Why an item stayed on the Responses compatibility path.
#[derive(Debug, Clone, Copy, PartialEq, Eq, Structural)]
pub enum HistoryProjectionFallback {
    UnknownMessageRole,
    EncryptedReasoning,
    MissingFunctionCallId,
    InvalidFunctionArguments,
    EncryptedFunctionArguments,
    MissingCustomToolCallId,
    MissingClientToolSearchCallId,
    ProviderToolSearchCall,
    MissingFunctionCallOutputCallId,
    MissingCustomToolCallOutputCallId,
    EncryptedToolResultContent,
    UnsupportedLocalShell,
    UnsupportedAgentMessage,
    UnsupportedAdditionalTools,
    UnsupportedCompaction,
    UnsupportedImageGeneration,
    UnsupportedWebSearch,
    UnsupportedToolSearchOutput,
    UnsupportedOther,
}

// ---------------------------------------------------------------------------------------------
// Specification of the projection
// ---------------------------------------------------------------------------------------------

/// The semantic role named by a Responses role string, if it is one of the four known roles.
pub open spec fn spec_message_role(role: Seq<char>) -> Option<HistoryMessageRole> {
    if role == "system"@ {
        Some(HistoryMessageRole::System)
    } else if role == "developer"@ {
        Some(HistoryMessageRole::Developer)
    } else if role == "user"@ {
        Some(HistoryMessageRole::User)
    } else if role == "assistant"@ {
        Some(HistoryMessageRole::Assistant)
    } else {
        None
    }
}

pub open spec fn spec_message_phase(phase: MessagePhase) -> HistoryMessagePhase {
    match phase {
        MessagePhase::Commentary => HistoryMessagePhase::Commentary,
        MessagePhase::FinalAnswer => HistoryMessagePhase::Final,
    }
}

pub open spec fn spec_image_detail(detail: ImageDetail) -> HistoryImageDetail {
    match detail {
        ImageDetail::Auto => HistoryImageDetail::Auto,
        ImageDetail::Low => HistoryImageDetail::Low,
        ImageDetail::High => HistoryImageDetail::High,
        ImageDetail::Original => HistoryImageDetail::Original,
    }
}

pub open spec fn spec_opt_image_detail(detail: Option<ImageDetail>) -> Option<HistoryImageDetail> {
    match detail {
        Some(d) => Some(spec_image_detail(d)),
        None => None,
    }
}

pub open spec fn spec_opt_phase(phase: Option<MessagePhase>) -> Option<HistoryMessagePhase> {
    match phase {
        Some(p) => Some(spec_message_phase(p)),
        None => None,
    }
}

/// The history content that one Responses message part projects to.
pub open spec fn spec_message_content(content: ContentItem) -> HistoryMessageContent {
    match content {
        ContentItem::InputText { text } => HistoryMessageContent::Text(text),
        ContentItem::OutputText { text } => HistoryMessageContent::Text(text),
        ContentItem::InputImage { image_url, detail } => HistoryMessageContent::Image {
            source: HistoryMediaSource::Uri(image_url),
            detail: spec_opt_image_detail(detail),
        },
        ContentItem::InputAudio { audio_url } => HistoryMessageContent::Audio {
            source: HistoryMediaSource::Uri(audio_url),
        },
    }
}

pub open spec fn spec_summary_text(summary: ReasoningItemReasoningSummary) -> String {
    match summary {
        ReasoningItemReasoningSummary::SummaryText { text } => text,
    }
}

pub open spec fn spec_reasoning_text(content: ReasoningItemContent) -> String {
    match content {
        ReasoningItemContent::ReasoningText { text } => text,
        ReasoningItemContent::Text { text } => text,
    }
}

/// The plaintext reasoning sections of an optional content list (`None` reads as empty).
pub open spec fn spec_reasoning_contents(content: Option<Vec<ReasoningItemContent>>) -> Seq<ReasoningItemContent> {
    match content {
        Some(v) => v@,
        None => Seq::empty(),
    }
}

/// Whether a tool-output part is opaque provider-encrypted content.
pub open spec fn is_encrypted_output_part(item: FunctionCallOutputContentItem) -> bool {
    item is EncryptedContent
}

/// The history content of one tool-output part that is not encrypted.
pub open spec fn spec_tool_result_part(item: FunctionCallOutputContentItem) -> HistoryToolResultContent {
    match item {
        FunctionCallOutputContentItem::InputText { text } => HistoryToolResultContent::Text(text),
        FunctionCallOutputContentItem::InputImage { image_url, detail } => HistoryToolResultContent::Image {
            source: HistoryMediaSource::Uri(image_url),
            detail: spec_opt_image_detail(detail),
        },
        FunctionCallOutputContentItem::InputAudio { audio_url } => HistoryToolResultContent::Audio {
            source: HistoryMediaSource::Uri(audio_url),
        },
        FunctionCallOutputContentItem::EncryptedContent { encrypted_content } => HistoryToolResultContent::Text(
            encrypted_content,
        ),
    }
}

/// Whether a tool-output body carries an encrypted part.
pub open spec fn output_has_encrypted_part(output: FunctionCallOutputPayload) -> bool {
    match output.body {
        FunctionCallOutputBody::Text(_) => false,
        FunctionCallOutputBody::ContentItems(items) => exists|i: int|
            0 <= i < items@.len() && is_encrypted_output_part(#[trigger] items@[i]),
    }
}

/// Whether `content` is the projection of a tool-output body without encrypted parts.
pub open spec fn tool_result_content_matches(output: FunctionCallOutputPayload, content: Seq<HistoryToolResultContent>) -> bool {
    match output.body {
        FunctionCallOutputBody::Text(text) => content == seq![HistoryToolResultContent::Text(text)],
        FunctionCallOutputBody::ContentItems(items) => {
            &&& content.len() == items@.len()
            &&& forall|i: int| 0 <= i < content.len() ==> content[i] == spec_tool_result_part(#[trigger] items@[i])
        },
    }
}

/// The tri-state error marker of an output: the inverse of its success status.
pub open spec fn spec_is_error(success: Option<bool>) -> Option<bool> {
    match success {
        Some(s) => Some(!s),
        None => None,
    }
}

/// Whether an optional call id is present and non-empty.
pub open spec fn has_call_id(call_id: Option<String>) -> bool {
    call_id matches Some(id) && id@.len() > 0
}

/// Whether some part of the encrypted function arguments is non-empty.
pub open spec fn has_encrypted_arguments(parts: Option<Vec<String>>) -> bool {
    match parts {
        Some(v) => exists|i: int| 0 <= i < v@.len() && (#[trigger] v@[i])@.len() > 0,
        None => false,
    }
}

/// The reason an item stays on the compatibility path, or `None` when it projects canonically.
pub open spec fn spec_fallback_reason(item: ResponseItem) -> Option<HistoryProjectionFallback> {
    match item {
        ResponseItem::Message { role, .. } => if spec_message_role(role@) is None {
            Some(HistoryProjectionFallback::UnknownMessageRole)
        } else {
            None
        },
        ResponseItem::Reasoning { encrypted_content, .. } => if encrypted_content is Some {
            Some(HistoryProjectionFallback::EncryptedReasoning)
        } else {
            None
        },
        ResponseItem::FunctionCall { arguments, encrypted_function_args, call_id, .. } => if call_id@.len() == 0 {
            Some(HistoryProjectionFallback::MissingFunctionCallId)
        } else if has_encrypted_arguments(encrypted_function_args) {
            Some(HistoryProjectionFallback::EncryptedFunctionArguments)
        } else if json_parse(arguments@) is None {
            Some(HistoryProjectionFallback::InvalidFunctionArguments)
        } else {
            None
        },
        ResponseItem::CustomToolCall { call_id, .. } => if call_id@.len() == 0 {
            Some(HistoryProjectionFallback::MissingCustomToolCallId)
        } else {
            None
        },
        ResponseItem::ToolSearchCall { call_id, execution, .. } => if execution@ != TOOL_SEARCH_CLIENT_EXECUTION@ {
            Some(HistoryProjectionFallback::ProviderToolSearchCall)
        } else if !has_call_id(call_id) {
            Some(HistoryProjectionFallback::MissingClientToolSearchCallId)
        } else {
            None
        },
        ResponseItem::FunctionCallOutput { call_id, output, .. } => if !has_call_id(call_id) {
            Some(HistoryProjectionFallback::MissingFunctionCallOutputCallId)
        } else if output_has_encrypted_part(output) {
            Some(HistoryProjectionFallback::EncryptedToolResultContent)
        } else {
            None
        },
        ResponseItem::CustomToolCallOutput { call_id, output, .. } => if call_id@.len() == 0 {
            Some(HistoryProjectionFallback::MissingCustomToolCallOutputCallId)
        } else if output_has_encrypted_part(output) {
            Some(HistoryProjectionFallback::EncryptedToolResultContent)
        } else {
            None
        },
        ResponseItem::LocalShellCall { .. } => Some(HistoryProjectionFallback::UnsupportedLocalShell),
        ResponseItem::AgentMessage { .. } => Some(HistoryProjectionFallback::UnsupportedAgentMessage),
        ResponseItem::AdditionalTools { .. } => Some(HistoryProjectionFallback::UnsupportedAdditionalTools),
        ResponseItem::Compaction { .. } => Some(HistoryProjectionFallback::UnsupportedCompaction),
        ResponseItem::CompactionTrigger => Some(HistoryProjectionFallback::UnsupportedCompaction),
        ResponseItem::ContextCompaction => Some(HistoryProjectionFallback::UnsupportedCompaction),
        ResponseItem::ImageGenerationCall { .. } => Some(HistoryProjectionFallback::UnsupportedImageGeneration),
        ResponseItem::WebSearchCall { .. } => Some(HistoryProjectionFallback::UnsupportedWebSearch),
        ResponseItem::ToolSearchOutput { .. } => Some(HistoryProjectionFallback::UnsupportedToolSearchOutput),
        ResponseItem::Other => Some(HistoryProjectionFallback::UnsupportedOther),
    }
}

/// Whether `out` is the canonical history item of a Responses item that projects canonically.
pub open spec fn canonical_matches(item: ResponseItem, out: HistoryItem) -> bool {
    match item {
        ResponseItem::Message { role, content, phase, .. } => match out {
            HistoryItem::Message(m) => {
                &&& Some(m.role) == spec_message_role(role@)
                &&& m.phase == spec_opt_phase(phase)
                &&& m.content@.len() == content@.len()
                &&& forall|i: int| 0 <= i < content@.len() ==> m.content@[i] == spec_message_content(#[trigger] content@[i])
            },
            _ => false,
        },
        ResponseItem::Reasoning { summary, content, .. } => match out {
            HistoryItem::Reasoning(r) => {
                &&& r.summary@.len() == summary@.len()
                &&& forall|i: int| 0 <= i < summary@.len() ==> r.summary@[i] == spec_summary_text(#[trigger] summary@[i])
                &&& r.content@.len() == spec_reasoning_contents(content).len()
                &&& forall|i: int| 0 <= i < r.content@.len() ==> r.content@[i] == spec_reasoning_text(#[trigger] spec_reasoning_contents(content)[i])
            },
            _ => false,
        },
        ResponseItem::FunctionCall { name, namespace, arguments, call_id, .. } => out == HistoryItem::ToolCall(HistoryToolCall {
            call_id: HistoryToolCallId(call_id),
            namespace,
            name,
            input: HistoryToolInput::Json(json_parse(arguments@).unwrap()),
        }),
        ResponseItem::CustomToolCall { call_id, name, namespace, input, .. } => out == HistoryItem::ToolCall(HistoryToolCall {
            call_id: HistoryToolCallId(call_id),
            namespace,
            name,
            input: HistoryToolInput::Text(input),
        }),
        ResponseItem::ToolSearchCall { call_id, arguments, .. } => match out {
            HistoryItem::ToolCall(c) => {
                &&& c.call_id == HistoryToolCallId(call_id.unwrap())
                &&& c.namespace is None
                &&& c.name@ == TOOL_SEARCH_NAME@
                &&& c.input == HistoryToolInput::Json(arguments)
            },
            _ => false,
        },
        ResponseItem::FunctionCallOutput { call_id, output, .. } => match out {
            HistoryItem::ToolResult(r) => {
                &&& r.call_id == HistoryToolCallId(call_id.unwrap())
                &&& tool_result_content_matches(output, r.content@)
                &&& r.is_error == spec_is_error(output.success)
            },
            _ => false,
        },
        ResponseItem::CustomToolCallOutput { call_id, output, .. } => match out {
            HistoryItem::ToolResult(r) => {
                &&& r.call_id == HistoryToolCallId(call_id)
                &&& tool_result_content_matches(output, r.content@)
                &&& r.is_error == spec_is_error(output.success)
            },
            _ => false,
        },
        _ => false,
    }
}

/// Whether `projection` is the projection of `source`: canonical exactly when the item has no
/// fallback reason, and in both outcomes carrying the source envelope unchanged.
pub open spec fn projection_of(source: ResponseItemEnvelope, projection: HistoryItemProjection) -> bool {
    match projection {
        HistoryItemProjection::Canonical { item, compatibility } => {
            &&& compatibility == source
            &&& spec_fallback_reason(source.item) is None
            &&& canonical_matches(source.item, item)
        },
        HistoryItemProjection::Fallback { compatibility, reason } => {
            &&& compatibility == source
            &&& spec_fallback_reason(source.item) == Some(reason)
        },
    }
}

impl HistoryItemProjection {
    /// The compatibility envelope retained by either outcome.
    pub open spec fn spec_compatibility(self) -> ResponseItemEnvelope {
        match self {
            HistoryItemProjection::Canonical { compatibility, .. } => compatibility,
            HistoryItemProjection::Fallback { compatibility, .. } => compatibility,
        }
    }
}

// ---------------------------------------------------------------------------------------------
// Implementation
// ---------------------------------------------------------------------------------------------

/// Projects one Responses-shaped history envelope into a canonical item when its meaning is
/// representable without losing semantics; otherwise keeps it with the fallback reason.
pub fn project_response_item(source: ResponseItemEnvelope) -> (r: HistoryItemProjection)
    ensures
        projection_of(source, r),
        r.spec_compatibility() == source,
{
    let projection = project_item(&source.item);
    match projection {
        Ok(item) => HistoryItemProjection::Canonical { item, compatibility: source },
        Err(reason) => HistoryItemProjection::Fallback { compatibility: source, reason },
    }
}

fn project_item(item: &ResponseItem) -> (r: Result<HistoryItem, HistoryProjectionFallback>)
    ensures
        match r {
            Ok(h) => spec_fallback_reason(*item) is None && canonical_matches(*item, h),
            Err(f) => spec_fallback_reason(*item) == Some(f),
        },
{
    match item {
        ResponseItem::Message { role, content, phase, .. } => {
            let role = match project_message_role(role.as_str()) {
                Some(role) => role,
                None => return Err(HistoryProjectionFallback::UnknownMessageRole),
            };
            let phase = match phase {
                Some(p) => Some(project_message_phase(p)),
                None => None,
            };
            let mut projected: Vec<HistoryMessageContent> = Vec::new();
            let mut i: usize = 0;
            while i < content.len()
                invariant
                    i <= content@.len(),
                    projected@.len() == i,
                    forall|j: int| 0 <= j < i ==> projected@[j] == spec_message_content(#[trigger] content@[j]),
                decreases content.len() - i,
            {
                projected.push(project_message_content(&content[i]));
                i += 1;
            }
            Ok(HistoryItem::Message(HistoryMessage { role, phase, content: projected }))
        },
        ResponseItem::Reasoning { summary, content, encrypted_content, .. } => {
            if encrypted_content.is_some() {
                return Err(HistoryProjectionFallback::EncryptedReasoning);
            }
            let mut summaries: Vec<String> = Vec::new();
            let mut i: usize = 0;
            while i < summary.len()
                invariant
                    i <= summary@.len(),
                    summaries@.len() == i,
                    forall|j: int| 0 <= j < i ==> summaries@[j] == spec_summary_text(#[trigger] summary@[j]),
                decreases summary.len() - i,
            {
                summaries.push(project_reasoning_summary(&summary[i]));
                i += 1;
            }
            let mut texts: Vec<String> = Vec::new();
            match content {
                Some(parts) => {
                    let mut k: usize = 0;
                    while k < parts.len()
                        invariant
                            k <= parts@.len(),
                            texts@.len() == k,
                            forall|j: int| 0 <= j < k ==> texts@[j] == spec_reasoning_text(#[trigger] parts@[j]),
                        decreases parts.len() - k,
                    {
                        texts.push(project_reasoning_content(&parts[k]));
                        k += 1;
                    }
                },
                None => {},
            }
            Ok(HistoryItem::Reasoning(HistoryReasoning { summary: summaries, content: texts }))
        },
        ResponseItem::FunctionCall { name, namespace, arguments, encrypted_function_args, call_id, .. } => {
            if call_id.as_str().is_empty() {
                return Err(HistoryProjectionFallback::MissingFunctionCallId);
            }
            if any_nonempty_part(encrypted_function_args) {
                return Err(HistoryProjectionFallback::EncryptedFunctionArguments);
            }
            let input = match parse_json(arguments.as_str()) {
                Some(v) => v,
                None => return Err(HistoryProjectionFallback::InvalidFunctionArguments),
            };
            Ok(HistoryItem::ToolCall(HistoryToolCall {
                call_id: HistoryToolCallId(call_id.clone()),
                namespace: namespace.clone(),
                name: name.clone(),
                input: HistoryToolInput::Json(input),
            }))
        },
        ResponseItem::CustomToolCall { call_id, name, namespace, input, .. } => {
            if call_id.as_str().is_empty() {
                return Err(HistoryProjectionFallback::MissingCustomToolCallId);
            }
            Ok(HistoryItem::ToolCall(HistoryToolCall {
                call_id: HistoryToolCallId(call_id.clone()),
                namespace: namespace.clone(),
                name: name.clone(),
                input: HistoryToolInput::Text(input.clone()),
            }))
        },
        ResponseItem::ToolSearchCall { call_id, execution, arguments, .. } => {
            if !str_eq(execution.as_str(), TOOL_SEARCH_CLIENT_EXECUTION) {
                return Err(HistoryProjectionFallback::ProviderToolSearchCall);
            }
            let call_id = match call_id {
                Some(id) if !id.as_str().is_empty() => id,
                _ => return Err(HistoryProjectionFallback::MissingClientToolSearchCallId),
            };
            Ok(HistoryItem::ToolCall(HistoryToolCall {
                call_id: HistoryToolCallId(call_id.clone()),
                namespace: None,
                name: TOOL_SEARCH_NAME.to_owned(),
                input: HistoryToolInput::Json(arguments.clone()),
            }))
        },
        ResponseItem::FunctionCallOutput { call_id, output, .. } => {
            let call_id = match call_id {
                Some(id) if !id.as_str().is_empty() => id,
                _ => return Err(HistoryProjectionFallback::MissingFunctionCallOutputCallId),
            };
            let content = project_tool_result_content(output)?;
            Ok(HistoryItem::ToolResult(HistoryToolResult {
                call_id: HistoryToolCallId(call_id.clone()),
                content,
                is_error: invert_success(output.success),
            }))
        },
        ResponseItem::CustomToolCallOutput { call_id, output, .. } => {
            if call_id.as_str().is_empty() {
                return Err(HistoryProjectionFallback::MissingCustomToolCallOutputCallId);
            }
            let content = project_tool_result_content(output)?;
            Ok(HistoryItem::ToolResult(HistoryToolResult {
                call_id: HistoryToolCallId(call_id.clone()),
                content,
                is_error: invert_success(output.success),
            }))
        },
        ResponseItem::LocalShellCall { .. } => Err(HistoryProjectionFallback::UnsupportedLocalShell),
        ResponseItem::AgentMessage { .. } => Err(HistoryProjectionFallback::UnsupportedAgentMessage),
        ResponseItem::AdditionalTools { .. } => Err(HistoryProjectionFallback::UnsupportedAdditionalTools),
        ResponseItem::Compaction { .. } | ResponseItem::CompactionTrigger | ResponseItem::ContextCompaction => {
            Err(HistoryProjectionFallback::UnsupportedCompaction)
        },
        ResponseItem::ImageGenerationCall { .. } => Err(HistoryProjectionFallback::UnsupportedImageGeneration),
        ResponseItem::WebSearchCall { .. } => Err(HistoryProjectionFallback::UnsupportedWebSearch),
        ResponseItem::ToolSearchOutput { .. } => Err(HistoryProjectionFallback::UnsupportedToolSearchOutput),
        ResponseItem::Other => Err(HistoryProjectionFallback::UnsupportedOther),
    }
}

fn any_nonempty_part(parts: &Option<Vec<String>>) -> (r: bool)
    ensures
        r == has_encrypted_arguments(*parts),
{
    match parts {
        Some(v) => {
            let mut i: usize = 0;
            while i < v.len()
                invariant
                    *parts == Some(*v),
                    i <= v@.len(),
                    forall|j: int| 0 <= j < i ==> (#[trigger] v@[j])@.len() == 0,
                decreases v.len() - i,
            {
                if !v[i].as_str().is_empty() {
                    assert(v@[i as int]@.len() > 0);
                    assert(parts.unwrap() == *v);
                    return true;
                }
                i += 1;
            }
            false
        },
        None => false,
    }
}

fn invert_success(success: Option<bool>) -> (r: Option<bool>)
    ensures
        r == spec_is_error(success),
{
    match success {
        Some(s) => Some(!s),
        None => None,
    }
}

fn project_message_role(role: &str) -> (r: Option<HistoryMessageRole>)
    ensures
        r == spec_message_role(role@),
{
    if str_eq(role, "system") {
        Some(HistoryMessageRole::System)
    } else if str_eq(role, "developer") {
        Some(HistoryMessageRole::Developer)
    } else if str_eq(role, "user") {
        Some(HistoryMessageRole::User)
    } else if str_eq(role, "assistant") {
        Some(HistoryMessageRole::Assistant)
    } else {
        None
    }
}

fn project_message_phase(phase: &MessagePhase) -> (r: HistoryMessagePhase)
    ensures
        r == spec_message_phase(*phase),
{
    match phase {
        MessagePhase::Commentary => HistoryMessagePhase::Commentary,
        MessagePhase::FinalAnswer => HistoryMessagePhase::Final,
    }
}

fn project_image_detail(detail: &Option<ImageDetail>) -> (r: Option<HistoryImageDetail>)
    ensures
        r == spec_opt_image_detail(*detail),
{
    match detail {
        Some(ImageDetail::Auto) => Some(HistoryImageDetail::Auto),
        Some(ImageDetail::Low) => Some(HistoryImageDetail::Low),
        Some(ImageDetail::High) => Some(HistoryImageDetail::High),
        Some(ImageDetail::Original) => Some(HistoryImageDetail::Original),
        None => None,
    }
}

fn project_message_content(content: &ContentItem) -> (r: HistoryMessageContent)
    ensures
        r == spec_message_content(*content),
{
    match content {
        ContentItem::InputText { text } => HistoryMessageContent::Text(text.clone()),
        ContentItem::OutputText { text } => HistoryMessageContent::Text(text.clone()),
        ContentItem::InputImage { image_url, detail } => HistoryMessageContent::Image {
            source: HistoryMediaSource::Uri(image_url.clone()),
            detail: project_image_detail(detail),
        },
        ContentItem::InputAudio { audio_url } => HistoryMessageContent::Audio {
            source: HistoryMediaSource::Uri(audio_url.clone()),
        },
    }
}

fn project_reasoning_summary(summary: &ReasoningItemReasoningSummary) -> (r: String)
    ensures
        r == spec_summary_text(*summary),
{
    match summary {
        ReasoningItemReasoningSummary::SummaryText { text } => text.clone(),
    }
}

fn project_reasoning_content(content: &ReasoningItemContent) -> (r: String)
    ensures
        r == spec_reasoning_text(*content),
{
    match content {
        ReasoningItemContent::ReasoningText { text } => text.clone(),
        ReasoningItemContent::Text { text } => text.clone(),
    }
}

fn project_tool_result_content(output: &FunctionCallOutputPayload) -> (r: Result<Vec<HistoryToolResultContent>, HistoryProjectionFallback>)
    ensures
        match r {
            Ok(content) => !output_has_encrypted_part(*output) && tool_result_content_matches(*output, content@),
            Err(f) => output_has_encrypted_part(*output) && f == HistoryProjectionFallback::EncryptedToolResultContent,
        },
{
    match &output.body {
        FunctionCallOutputBody::Text(text) => {
            let mut v: Vec<HistoryToolResultContent> = Vec::new();
            v.push(HistoryToolResultContent::Text(text.clone()));
            assert(v@ =~= seq![HistoryToolResultContent::Text(*text)]);
            Ok(v)
        },
        FunctionCallOutputBody::ContentItems(items) => {
            let mut v: Vec<HistoryToolResultContent> = Vec::new();
            let mut i: usize = 0;
            while i < items.len()
                invariant
                    output.body == FunctionCallOutputBody::ContentItems(*items),
                    i <= items@.len(),
                    v@.len() == i,
                    forall|j: int| 0 <= j < i ==> !is_encrypted_output_part(#[trigger] items@[j]),
                    forall|j: int| 0 <= j < i ==> v@[j] == spec_tool_result_part(#[trigger] items@[j]),
                decreases items.len() - i,
            {
                let part = match &items[i] {
                    FunctionCallOutputContentItem::InputText { text } => HistoryToolResultContent::Text(text.clone()),
                    FunctionCallOutputContentItem::InputImage { image_url, detail } => HistoryToolResultContent::Image {
                        source: HistoryMediaSource::Uri(image_url.clone()),
                        detail: project_image_detail(detail),
                    },
                    FunctionCallOutputContentItem::InputAudio { audio_url } => HistoryToolResultContent::Audio {
                        source: HistoryMediaSource::Uri(audio_url.clone()),
                    },
                    FunctionCallOutputContentItem::EncryptedContent { .. } => {
                        assert(is_encrypted_output_part(items@[i as int]));
                        assert(output.body->ContentItems_0 == *items);
                        return Err(HistoryProjectionFallback::EncryptedToolResultContent);
                    },
                };
                v.push(part);
                i += 1;
            }
            Ok(v)
        },
    }
}

/// A message projected into history keeps its role, its phase and its image detail levels: the
/// role texts `system`, `developer`, `user` and `assistant` become the roles of those names,
/// commentary stays commentary and the final answer becomes the final phase, and each image
/// keeps its detail level. A tool output projects its success status inverted into an error
/// state.
pub proof fn lemma_projection_keeps_role_phase_detail_and_status(item: ResponseItem, out: HistoryItem)
    requires
        canonical_matches(item, out),
    ensures
        (item matches ResponseItem::Message { role, .. } && role@ == "system"@)
            ==> (out matches HistoryItem::Message(m) && m.role == HistoryMessageRole::System),
        (item matches ResponseItem::Message { role, .. } && role@ == "developer"@)
            ==> (out matches HistoryItem::Message(m) && m.role == HistoryMessageRole::Developer),
        (item matches ResponseItem::Message { role, .. } && role@ == "user"@)
            ==> (out matches HistoryItem::Message(m) && m.role == HistoryMessageRole::User),
        (item matches ResponseItem::Message { role, .. } && role@ == "assistant"@)
            ==> (out matches HistoryItem::Message(m) && m.role == HistoryMessageRole::Assistant),
        (item matches ResponseItem::Message { phase: Some(MessagePhase::Commentary), .. })
            ==> (out matches HistoryItem::Message(m) && m.phase == Some(HistoryMessagePhase::Commentary)),
        (item matches ResponseItem::Message { phase: Some(MessagePhase::FinalAnswer), .. })
            ==> (out matches HistoryItem::Message(m) && m.phase == Some(HistoryMessagePhase::Final)),
        (item matches ResponseItem::Message { phase: None, .. })
            ==> (out matches HistoryItem::Message(m) && m.phase is None),
        item is Message ==> forall|i: int| #![trigger item->Message_content@[i]]
            0 <= i < item->Message_content@.len() && item->Message_content@[i] is InputImage ==> {
                let d = item->Message_content@[i]->InputImage_detail;
                let e = out->Message_0.content@[i]->Image_detail;
                &&& out->Message_0.content@[i] is Image
                &&& d == Some(ImageDetail::Auto) ==> e == Some(HistoryImageDetail::Auto)
                &&& d == Some(ImageDetail::Low) ==> e == Some(HistoryImageDetail::Low)
                &&& d == Some(ImageDetail::High) ==> e == Some(HistoryImageDetail::High)
                &&& d == Some(ImageDetail::Original) ==> e == Some(HistoryImageDetail::Original)
                &&& d is None ==> e is None
            },
        (item matches ResponseItem::FunctionCallOutput { output, .. } && output.success == Some(true))
            ==> (out matches HistoryItem::ToolResult(r) && r.is_error == Some(false)),
        (item matches ResponseItem::FunctionCallOutput { output, .. } && output.success == Some(false))
            ==> (out matches HistoryItem::ToolResult(r) && r.is_error == Some(true)),
        (item matches ResponseItem::CustomToolCallOutput { output, .. } && output.success == Some(true))
            ==> (out matches HistoryItem::ToolResult(r) && r.is_error == Some(false)),
        (item matches ResponseItem::CustomToolCallOutput { output, .. } && output.success == Some(false))
            ==> (out matches HistoryItem::ToolResult(r) && r.is_error == Some(true)),
{
    reveal_strlit("system");
    reveal_strlit("developer");
    reveal_strlit("user");
    reveal_strlit("assistant");
    assert("developer"@.len() != "system"@.len());
    assert("user"@.len() != "system"@.len());
    assert("user"@.len() != "developer"@.len());
    assert("assistant"@.len() != "system"@.len());
    assert("assistant"@[0] != "developer"@[0]);
    assert("assistant"@.len() != "user"@.len());
    if item is Message {
        assert forall|i: int| #![trigger item->Message_content@[i]]
            0 <= i < item->Message_content@.len() && item->Message_content@[i] is InputImage implies {
                let d = item->Message_content@[i]->InputImage_detail;
                let e = out->Message_0.content@[i]->Image_detail;
                &&& out->Message_0.content@[i] is Image
                &&& d == Some(ImageDetail::Auto) ==> e == Some(HistoryImageDetail::Auto)
                &&& d == Some(ImageDetail::Low) ==> e == Some(HistoryImageDetail::Low)
                &&& d == Some(ImageDetail::High) ==> e == Some(HistoryImageDetail::High)
                &&& d == Some(ImageDetail::Original) ==> e == Some(HistoryImageDetail::Original)
                &&& d is None ==> e is None
            } by {
            assert(out->Message_0.content@[i] == spec_message_content(item->Message_content@[i]));
        }
    }
}

} // verus!
