//! Conversion from Codex/OpenAI stream events into the canonical model events.
//!
//! Only stream semantics that the canonical IR represents without loss are mapped to
//! `ModelEvent`. Product/backend notifications and model-event shapes without a generic harness
//! representation stay on an explicit Codex compatibility side channel.

use crate::ir::ModelCompletion;
use crate::ir::ModelContent;
use crate::ir::ModelEvent;
use crate::ir::ModelItemId;
use crate::ir::ModelMessagePhase;
use crate::ir::ModelOutputItem;
use crate::ir::ModelOutputItemStart;
use crate::ir::ModelReasoningDeltaKind;
use crate::ir::ModelToolCall;
use crate::ir::ModelToolCallId;
use crate::ir::ModelToolInput;
use crate::ir::ModelToolInputKind;
use crate::ir::ModelUsage;
use crate::json::json_parse;
use crate::json::parse_json;
use crate::projection::spec_reasoning_contents;
use crate::projection::spec_reasoning_text;
use crate::projection::spec_summary_text;
use crate::projection::TOOL_SEARCH_CLIENT_EXECUTION;
use crate::projection::TOOL_SEARCH_NAME;
use crate::responses::ContentItem;
use crate::responses::MessagePhase;
use crate::responses::ReasoningItemContent;
use crate::responses::ReasoningItemReasoningSummary;
use crate::responses::ResponseItem;
use crate::text::str_eq;
use vstd::prelude::*;

verus! {

/// Provider-reported token usage of one response, in the provider's signed representation.
#[derive(Debug, Clone, PartialEq, Default)]
pub struct TokenUsage {
    pub input_tokens: i64,
    pub cached_input_tokens: i64,
    pub cache_write_input_tokens: i64,
    pub output_tokens: i64,
    pub reasoning_output_tokens: i64,
    pub total_tokens: i64,
    pub codex_rollout_budget_units: Option<serde_json::Number>,
}

/// Safety-buffering notification of the backend.
#[derive(Debug, Clone, PartialEq)]
pub struct SafetyBuffering {
    pub use_cases: Vec<String>,
    pub reasons: Vec<String>,
    pub show_buffering_ui: bool,
    pub faster_model: Option<String>,
}

/// One event of the Codex/OpenAI response stream.
#[derive(Debug, Clone, PartialEq)]
pub enum ResponseEvent {
    Created,
    OutputItemAdded(ResponseItem),
    OutputItemDone(ResponseItem),
    Completed { response_id: String, token_usage: Option<TokenUsage>, end_turn: Option<bool> },
    OutputTextDelta(String),
    ToolCallInputDelta { item_id: String, call_id: Option<String>, delta: String },
    ReasoningSummaryDelta { delta: String, summary_index: i64 },
    ReasoningSummaryDone { item_id: String, text: String, summary_index: i64 },
    ReasoningContentDelta { delta: String, content_index: i64 },
    ReasoningSummaryPartAdded { summary_index: i64 },
    SafetyBuffering(SafetyBuffering),
    ServerModel(String),
    ModelVerifications(Vec<serde_json::Value>),
    TurnModerationMetadata(serde_json::Value),
    ServerReasoningIncluded(bool),
    RateLimits(serde_json::Value),
    ModelsEtag(String),
}

/// One event exposed by the model-runtime stream boundary: canonical model semantics, or the
/// Codex-only compatibility side channel.
#[derive(Debug, Clone, PartialEq)]
pub enum ModelRuntimeEvent {
    Model { event: ModelEvent, codex: Option<CodexModelEventContext> },
    Compatibility(CodexModelRuntimeSideEvent),
}

/// Migration-only Codex context attached to canonical events whose current handlers still need
/// provider-shaped data. Not part of the canonical model contract.
#[derive(Debug, Clone, PartialEq)]
pub enum CodexModelEventContext {
    OutputItemAdded(ResponseItem),
    OutputItemCompleted(ResponseItem),
    Completed { response_id: String, token_usage: Option<TokenUsage> },
}

/// Explicit Codex compatibility side channel.
#[derive(Debug, Clone, PartialEq)]
pub enum CodexModelRuntimeSideEvent {
    SafetyBuffering { use_cases: Vec<String>, reasons: Vec<String>, show_buffering_ui: bool, faster_model: Option<String> },
    OutputItemAdded(ResponseItem),
    OutputItemCompleted(ResponseItem),
    ServerModel(String),
    ModelVerifications(Vec<serde_json::Value>),
    TurnModerationMetadata(serde_json::Value),
    ServerReasoningIncluded(bool),
    Completed { response_id: String, token_usage: Option<TokenUsage>, end_turn: Option<bool> },
    OutputTextDelta(String),
    ToolCallInputDelta { item_id: String, call_id: Option<String>, delta: String },
    ReasoningSummaryDelta { delta: String, summary_index: i64 },
    ReasoningSummaryDone { item_id: String, text: String, summary_index: i64 },
    ReasoningContentDelta { delta: String, content_index: i64 },
    ReasoningSummaryPartAdded { summary_index: i64 },
    RateLimits(serde_json::Value),
    ModelsEtag(String),
}

/// The canonical output item currently streaming, with its correlation identifiers.
#[derive(Debug, Clone, PartialEq)]
pub enum ActiveCanonicalItem {
    Message { item_id: ModelItemId },
    ToolCall { item_id: ModelItemId, call_id: ModelToolCallId },
    Reasoning { item_id: ModelItemId },
}

/// Stateful mapper for one turn-scoped Codex model runtime. Correlation state is reset at the
/// start and at the completion of every upstream response.
#[derive(Debug)]
pub struct CodexEventMapper {
    active: Option<ActiveCanonicalItem>,
}

// ---------------------------------------------------------------------------------------------
// Specification
// ---------------------------------------------------------------------------------------------

/// The runtime correlation id of a provider item: its non-empty provider id.
pub open spec fn spec_model_item_id(item: ResponseItem) -> Option<ModelItemId> {
    match item.spec_id() {
        Some(id) => if id@.len() > 0 { Some(ModelItemId(id)) } else { None },
        None => None,
    }
}

pub open spec fn spec_model_phase(phase: Option<MessagePhase>) -> Option<ModelMessagePhase> {
    match phase {
        Some(MessagePhase::Commentary) => Some(ModelMessagePhase::Commentary),
        Some(MessagePhase::FinalAnswer) => Some(ModelMessagePhase::Final),
        None => None,
    }
}

/// Whether an item is a client tool-search call with a non-empty call id.
pub open spec fn is_client_tool_search(item: ResponseItem) -> bool {
    item matches ResponseItem::ToolSearchCall { call_id: Some(call_id), execution, .. }
        && execution@ == TOOL_SEARCH_CLIENT_EXECUTION@ && call_id@.len() > 0
}

/// The canonical kind of an item that can stream as a canonical output item (ignoring ids).
pub open spec fn streams_canonically(item: ResponseItem) -> bool {
    match item {
        ResponseItem::Message { role, .. } => role@ == "assistant"@,
        ResponseItem::FunctionCall { call_id, .. } => call_id@.len() > 0,
        ResponseItem::CustomToolCall { call_id, .. } => call_id@.len() > 0,
        ResponseItem::ToolSearchCall { .. } => is_client_tool_search(item),
        ResponseItem::Reasoning { .. } => true,
        _ => false,
    }
}

/// The correlation state opened by the start of a canonical item with runtime id `id`.
pub open spec fn spec_active_for(item: ResponseItem, id: ModelItemId) -> ActiveCanonicalItem {
    match item {
        ResponseItem::Message { .. } => ActiveCanonicalItem::Message { item_id: id },
        ResponseItem::FunctionCall { call_id, .. } => ActiveCanonicalItem::ToolCall { item_id: id, call_id: ModelToolCallId(call_id) },
        ResponseItem::CustomToolCall { call_id, .. } => ActiveCanonicalItem::ToolCall { item_id: id, call_id: ModelToolCallId(call_id) },
        ResponseItem::ToolSearchCall { call_id, .. } => ActiveCanonicalItem::ToolCall { item_id: id, call_id: ModelToolCallId(call_id.unwrap()) },
        _ => ActiveCanonicalItem::Reasoning { item_id: id },
    }
}

/// Whether `start` is the partial header of the canonical item `item` with runtime id `id`.
pub open spec fn start_matches(item: ResponseItem, id: ModelItemId, start: ModelOutputItemStart) -> bool {
    match item {
        ResponseItem::Message { phase, .. } => start == ModelOutputItemStart::Message { id, phase: spec_model_phase(phase) },
        ResponseItem::FunctionCall { name, namespace, call_id, .. } => start == ModelOutputItemStart::ToolCall {
            id,
            call_id: ModelToolCallId(call_id),
            namespace,
            name,
            input_kind: ModelToolInputKind::Json,
        },
        ResponseItem::CustomToolCall { call_id, name, namespace, .. } => start == ModelOutputItemStart::ToolCall {
            id,
            call_id: ModelToolCallId(call_id),
            namespace,
            name,
            input_kind: ModelToolInputKind::Text,
        },
        ResponseItem::ToolSearchCall { call_id, .. } => match start {
            ModelOutputItemStart::ToolCall { id: sid, call_id: scid, namespace, name, input_kind } => {
                &&& sid == id
                &&& scid == ModelToolCallId(call_id.unwrap())
                &&& namespace is None
                &&& name@ == TOOL_SEARCH_NAME@
                &&& input_kind == ModelToolInputKind::Json
            },
            _ => false,
        },
        _ => start == ModelOutputItemStart::Reasoning { id },
    }
}

/// Kinds of canonical items, used to check a completion against the active item.
pub enum ActiveKind {
    Message,
    ToolCall,
    Reasoning,
}

pub open spec fn spec_active_kind(item: ResponseItem) -> ActiveKind {
    match item {
        ResponseItem::Message { .. } => ActiveKind::Message,
        ResponseItem::Reasoning { .. } => ActiveKind::Reasoning,
        _ => ActiveKind::ToolCall,
    }
}

/// The id the active item contributes to a completion of the given kind: `Err(())` when the
/// active item is of another kind, `Ok(None)` when no item is active.
pub open spec fn spec_active_id(active: Option<ActiveCanonicalItem>, kind: ActiveKind) -> Result<Option<ModelItemId>, ()> {
    match (active, kind) {
        (Some(ActiveCanonicalItem::Message { item_id }), ActiveKind::Message) => Ok(Some(item_id)),
        (Some(ActiveCanonicalItem::ToolCall { item_id, .. }), ActiveKind::ToolCall) => Ok(Some(item_id)),
        (Some(ActiveCanonicalItem::Reasoning { item_id }), ActiveKind::Reasoning) => Ok(Some(item_id)),
        (Some(_), _) => Err(()),
        (None, _) => Ok(None),
    }
}

/// The runtime id of a completed item: its provider id, else the active item's id; `None` when
/// neither exists, when the active item is of another kind, or when the two ids disagree.
pub open spec fn spec_completed_id(item: ResponseItem, active: Option<ActiveCanonicalItem>) -> Option<ModelItemId> {
    spec_completed_id_for(item, active, spec_active_kind(item))
}

/// The runtime id of `item` completed as an item of kind `expected`: its provider id, else the
/// active item's id; `None` when neither exists, when an active item is of another kind than
/// `expected`, or when the two ids disagree.
pub open spec fn spec_completed_id_for(item: ResponseItem, active: Option<ActiveCanonicalItem>, expected: ActiveKind) -> Option<ModelItemId> {
    match spec_active_id(active, expected) {
        Err(()) => None,
        Ok(active_id) => match (spec_model_item_id(item), active_id) {
            (Some(explicit), Some(a)) => if explicit.0@ != a.0@ { None } else { Some(explicit) },
            (Some(explicit), None) => Some(explicit),
            (None, Some(a)) => Some(a),
            (None, None) => None,
        },
    }
}

/// Whether every content part of an assistant message is output text.
pub open spec fn all_output_text(content: Seq<ContentItem>) -> bool {
    forall|i: int| 0 <= i < content.len() ==> (#[trigger] content[i]) is OutputText
}

/// Whether `out` holds exactly the output texts of `content`.
pub open spec fn output_texts_match(content: Seq<ContentItem>, out: Seq<ModelContent>) -> bool {
    &&& out.len() == content.len()
    &&& forall|i: int| 0 <= i < content.len() ==> (#[trigger] content[i] matches ContentItem::OutputText { text } && out[i] == ModelContent::Text(text))
}

/// Whether an item completes as a canonical output item given the active correlation state.
pub open spec fn completes_canonically(item: ResponseItem, active: Option<ActiveCanonicalItem>) -> bool {
    &&& streams_canonically(item)
    &&& spec_completed_id(item, active) is Some
    &&& match item {
        ResponseItem::Message { content, .. } => all_output_text(content@),
        ResponseItem::FunctionCall { arguments, .. } => json_parse(arguments@) is Some,
        _ => true,
    }
}

/// Whether `out` is the completed canonical item of `item` given the active correlation state.
pub open spec fn completed_matches(item: ResponseItem, active: Option<ActiveCanonicalItem>, out: ModelOutputItem) -> bool {
    let id = spec_completed_id(item, active).unwrap();
    match item {
        ResponseItem::Message { content, phase, .. } => match out {
            ModelOutputItem::Message { id: oid, phase: ophase, content: ocontent } => {
                &&& oid == id
                &&& ophase == spec_model_phase(phase)
                &&& output_texts_match(content@, ocontent@)
            },
            _ => false,
        },
        ResponseItem::FunctionCall { name, namespace, arguments, call_id, .. } => out == ModelOutputItem::ToolCall {
            id,
            call: ModelToolCall {
                call_id: ModelToolCallId(call_id),
                namespace,
                name,
                input: ModelToolInput::Json(json_parse(arguments@).unwrap()),
            },
        },
        ResponseItem::CustomToolCall { call_id, name, namespace, input, .. } => out == ModelOutputItem::ToolCall {
            id,
            call: ModelToolCall { call_id: ModelToolCallId(call_id), namespace, name, input: ModelToolInput::Text(input) },
        },
        ResponseItem::ToolSearchCall { call_id, arguments, .. } => match out {
            ModelOutputItem::ToolCall { id: oid, call } => {
                &&& oid == id
                &&& call.call_id == ModelToolCallId(call_id.unwrap())
                &&& call.namespace is None
                &&& call.name@ == TOOL_SEARCH_NAME@
                &&& call.input == ModelToolInput::Json(arguments)
            },
            _ => false,
        },
        ResponseItem::Reasoning { summary, content, .. } => match out {
            ModelOutputItem::Reasoning { id: oid, summary: osummary, content: ocontent } => {
                &&& oid == id
                &&& osummary@.len() == summary@.len()
                &&& forall|i: int| 0 <= i < summary@.len() ==> osummary@[i] == spec_summary_text(#[trigger] summary@[i])
                &&& ocontent@.len() == spec_reasoning_contents(content).len()
                &&& forall|i: int| 0 <= i < ocontent@.len() ==> ocontent@[i] == spec_reasoning_text(#[trigger] spec_reasoning_contents(content)[i])
            },
            _ => false,
        },
        _ => false,
    }
}

/// Whether every provider token count is non-negative, so that it has an unsigned reading.
pub open spec fn usage_is_representable(usage: TokenUsage) -> bool {
    &&& usage.input_tokens >= 0
    &&& usage.output_tokens >= 0
    &&& usage.cached_input_tokens >= 0
    &&& usage.cache_write_input_tokens >= 0
    &&& usage.reasoning_output_tokens >= 0
    &&& usage.total_tokens >= 0
}

/// The canonical usage of a representable provider usage.
pub open spec fn spec_model_usage(usage: TokenUsage) -> ModelUsage {
    ModelUsage {
        input_tokens: usage.input_tokens as u64,
        output_tokens: usage.output_tokens as u64,
        cached_input_tokens: Some(usage.cached_input_tokens as u64),
        cache_write_input_tokens: Some(usage.cache_write_input_tokens as u64),
        reasoning_output_tokens: Some(usage.reasoning_output_tokens as u64),
        total_tokens: Some(usage.total_tokens as u64),
    }
}

/// A canonical event without Codex context.
pub open spec fn plain(event: ModelEvent) -> ModelRuntimeEvent {
    ModelRuntimeEvent::Model { event, codex: None }
}

/// Whether a signed section index has a `u32` reading.
pub open spec fn index_fits(index: i64) -> bool {
    0 <= index <= u32::MAX
}

/// What mapping one stream event does: `active`/`next` are the correlation states before and
/// after, and `r` the runtime event produced.
pub open spec fn mapped(active: Option<ActiveCanonicalItem>, event: ResponseEvent, next: Option<ActiveCanonicalItem>, r: ModelRuntimeEvent) -> bool {
    match event {
        ResponseEvent::Created => next is None && r == plain(ModelEvent::Started),
        ResponseEvent::OutputItemAdded(item) => if streams_canonically(item) && spec_model_item_id(item) is Some {
            let id = spec_model_item_id(item).unwrap();
            &&& next == Some(spec_active_for(item, id))
            &&& r matches ModelRuntimeEvent::Model {
                event: ModelEvent::OutputItemStarted(start),
                codex: Some(CodexModelEventContext::OutputItemAdded(ctx)),
            } && ctx == item && start_matches(item, id, start)
        } else {
            next is None && r == ModelRuntimeEvent::Compatibility(CodexModelRuntimeSideEvent::OutputItemAdded(item))
        },
        ResponseEvent::OutputItemDone(item) => {
            &&& next is None
            &&& if completes_canonically(item, active) {
                r matches ModelRuntimeEvent::Model {
                    event: ModelEvent::OutputItemCompleted(out),
                    codex: Some(CodexModelEventContext::OutputItemCompleted(ctx)),
                } && ctx == item && completed_matches(item, active, out)
            } else {
                r == ModelRuntimeEvent::Compatibility(CodexModelRuntimeSideEvent::OutputItemCompleted(item))
            }
        },
        ResponseEvent::Completed { response_id, token_usage, end_turn } => {
            &&& next is None
            &&& match token_usage {
                Some(u) if !usage_is_representable(u) => r == ModelRuntimeEvent::Compatibility(
                    CodexModelRuntimeSideEvent::Completed { response_id, token_usage, end_turn },
                ),
                _ => r == ModelRuntimeEvent::Model {
                    event: ModelEvent::Completed(ModelCompletion {
                        usage: match token_usage {
                            Some(u) => Some(spec_model_usage(u)),
                            None => None,
                        },
                        end_turn,
                    }),
                    codex: Some(CodexModelEventContext::Completed { response_id, token_usage }),
                },
            }
        },
        ResponseEvent::OutputTextDelta(delta) => {
            &&& next == active
            &&& match active {
                Some(ActiveCanonicalItem::Message { item_id }) => r == plain(ModelEvent::TextDelta { item_id, delta }),
                _ => r == ModelRuntimeEvent::Compatibility(CodexModelRuntimeSideEvent::OutputTextDelta(delta)),
            }
        },
        ResponseEvent::ToolCallInputDelta { item_id, call_id, delta } => {
            &&& next == active
            &&& match active {
                Some(ActiveCanonicalItem::ToolCall { item_id: aid, call_id: acid })
                    if !((item_id@.len() > 0 && item_id@ != aid.0@) || (call_id matches Some(c) && c@ != acid.0@))
                    => r == plain(ModelEvent::ToolCallInputDelta { item_id: aid, call_id: acid, delta }),
                _ => r == ModelRuntimeEvent::Compatibility(
                    CodexModelRuntimeSideEvent::ToolCallInputDelta { item_id, call_id, delta },
                ),
            }
        },
        ResponseEvent::ReasoningSummaryDelta { delta, summary_index } => {
            &&& next == active
            &&& match active {
                Some(ActiveCanonicalItem::Reasoning { item_id }) if index_fits(summary_index) => r == plain(
                    ModelEvent::ReasoningDelta {
                        item_id,
                        kind: ModelReasoningDeltaKind::Summary,
                        delta,
                        section_index: Some(summary_index as u32),
                    },
                ),
                _ => r == ModelRuntimeEvent::Compatibility(
                    CodexModelRuntimeSideEvent::ReasoningSummaryDelta { delta, summary_index },
                ),
            }
        },
        ResponseEvent::ReasoningSummaryPartAdded { summary_index } => {
            &&& next == active
            &&& match active {
                Some(ActiveCanonicalItem::Reasoning { item_id }) if index_fits(summary_index) => r == plain(
                    ModelEvent::ReasoningSectionStarted {
                        item_id,
                        kind: ModelReasoningDeltaKind::Summary,
                        section_index: summary_index as u32,
                    },
                ),
                _ => r == ModelRuntimeEvent::Compatibility(
                    CodexModelRuntimeSideEvent::ReasoningSummaryPartAdded { summary_index },
                ),
            }
        },
        ResponseEvent::ReasoningContentDelta { delta, content_index } => {
            &&& next == active
            &&& match active {
                Some(ActiveCanonicalItem::Reasoning { item_id }) if index_fits(content_index) => r == plain(
                    ModelEvent::ReasoningDelta {
                        item_id,
                        kind: ModelReasoningDeltaKind::Content,
                        delta,
                        section_index: Some(content_index as u32),
                    },
                ),
                _ => r == ModelRuntimeEvent::Compatibility(
                    CodexModelRuntimeSideEvent::ReasoningContentDelta { delta, content_index },
                ),
            }
        },
        ResponseEvent::ReasoningSummaryDone { item_id, text, summary_index } => next == active && r
            == ModelRuntimeEvent::Compatibility(
            CodexModelRuntimeSideEvent::ReasoningSummaryDone { item_id, text, summary_index },
        ),
        ResponseEvent::SafetyBuffering(b) => next == active && r == ModelRuntimeEvent::Compatibility(
            CodexModelRuntimeSideEvent::SafetyBuffering {
                use_cases: b.use_cases,
                reasons: b.reasons,
                show_buffering_ui: b.show_buffering_ui,
                faster_model: b.faster_model,
            },
        ),
        ResponseEvent::ServerModel(m) => next == active && r == ModelRuntimeEvent::Compatibility(
            CodexModelRuntimeSideEvent::ServerModel(m),
        ),
        ResponseEvent::ModelVerifications(v) => next == active && r == ModelRuntimeEvent::Compatibility(
            CodexModelRuntimeSideEvent::ModelVerifications(v),
        ),
        ResponseEvent::TurnModerationMetadata(m) => next == active && r == ModelRuntimeEvent::Compatibility(
            CodexModelRuntimeSideEvent::TurnModerationMetadata(m),
        ),
        ResponseEvent::ServerReasoningIncluded(b) => next == active && r == ModelRuntimeEvent::Compatibility(
            CodexModelRuntimeSideEvent::ServerReasoningIncluded(b),
        ),
        ResponseEvent::RateLimits(s) => next == active && r == ModelRuntimeEvent::Compatibility(
            CodexModelRuntimeSideEvent::RateLimits(s),
        ),
        ResponseEvent::ModelsEtag(e) => next == active && r == ModelRuntimeEvent::Compatibility(
            CodexModelRuntimeSideEvent::ModelsEtag(e),
        ),
    }
}

// ---------------------------------------------------------------------------------------------
// Implementation
// ---------------------------------------------------------------------------------------------

fn copy_item_id(id: &ModelItemId) -> (r: ModelItemId)
    ensures
        r == *id,
{
    ModelItemId(id.0.clone())
}

fn copy_call_id(id: &ModelToolCallId) -> (r: ModelToolCallId)
    ensures
        r == *id,
{
    ModelToolCallId(id.0.clone())
}

fn model_item_id(item: &ResponseItem) -> (r: Option<ModelItemId>)
    ensures
        r == spec_model_item_id(*item),
{
    match item.id() {
        Some(id) => if id.as_str().is_empty() {
            None
        } else {
            Some(ModelItemId(id.clone()))
        },
        None => None,
    }
}

fn model_message_phase(phase: &Option<MessagePhase>) -> (r: Option<ModelMessagePhase>)
    ensures
        r == spec_model_phase(*phase),
{
    match phase {
        Some(MessagePhase::Commentary) => Some(ModelMessagePhase::Commentary),
        Some(MessagePhase::FinalAnswer) => Some(ModelMessagePhase::Final),
        None => None,
    }
}

fn is_client_tool_search_call(item: &ResponseItem) -> (r: bool)
    ensures
        r == is_client_tool_search(*item),
{
    match item {
        ResponseItem::ToolSearchCall { call_id: Some(call_id), execution, .. } => {
            str_eq(execution.as_str(), TOOL_SEARCH_CLIENT_EXECUTION) && !call_id.as_str().is_empty()
        },
        _ => false,
    }
}

/// The partial start header and correlation state of an item that begins streaming, when it
/// is a canonical item with a provider id.
fn model_output_item_start(item: &ResponseItem) -> (r: Option<(ModelOutputItemStart, ActiveCanonicalItem)>)
    ensures
        match r {
            Some((start, active)) => streams_canonically(*item) && spec_model_item_id(*item) is Some
                && active == spec_active_for(*item, spec_model_item_id(*item).unwrap())
                && start_matches(*item, spec_model_item_id(*item).unwrap(), start),
            None => !(streams_canonically(*item) && spec_model_item_id(*item) is Some),
        },
{
    let item_id = match model_item_id(item) {
        Some(id) => id,
        None => return None,
    };
    let client_search = is_client_tool_search_call(item);
    match item {
        ResponseItem::Message { role, phase, .. } => {
            if !str_eq(role.as_str(), "assistant") {
                return None;
            }
            let start = ModelOutputItemStart::Message { id: copy_item_id(&item_id), phase: model_message_phase(phase) };
            Some((start, ActiveCanonicalItem::Message { item_id }))
        },
        ResponseItem::FunctionCall { name, namespace, call_id, .. } => {
            if call_id.as_str().is_empty() {
                return None;
            }
            let start = ModelOutputItemStart::ToolCall {
                id: copy_item_id(&item_id),
                call_id: ModelToolCallId(call_id.clone()),
                namespace: namespace.clone(),
                name: name.clone(),
                input_kind: ModelToolInputKind::Json,
            };
            Some((start, ActiveCanonicalItem::ToolCall { item_id, call_id: ModelToolCallId(call_id.clone()) }))
        },
        ResponseItem::CustomToolCall { call_id, name, namespace, .. } => {
            if call_id.as_str().is_empty() {
                return None;
            }
            let start = ModelOutputItemStart::ToolCall {
                id: copy_item_id(&item_id),
                call_id: ModelToolCallId(call_id.clone()),
                namespace: namespace.clone(),
                name: name.clone(),
                input_kind: ModelToolInputKind::Text,
            };
            Some((start, ActiveCanonicalItem::ToolCall { item_id, call_id: ModelToolCallId(call_id.clone()) }))
        },
        ResponseItem::ToolSearchCall { call_id: Some(call_id), .. } => {
            if !client_search {
                return None;
            }
            let start = ModelOutputItemStart::ToolCall {
                id: copy_item_id(&item_id),
                call_id: ModelToolCallId(call_id.clone()),
                namespace: None,
                name: TOOL_SEARCH_NAME.to_owned(),
                input_kind: ModelToolInputKind::Json,
            };
            Some((start, ActiveCanonicalItem::ToolCall { item_id, call_id: ModelToolCallId(call_id.clone()) }))
        },
        ResponseItem::Reasoning { .. } => {
            let start = ModelOutputItemStart::Reasoning { id: copy_item_id(&item_id) };
            Some((start, ActiveCanonicalItem::Reasoning { item_id }))
        },
        _ => None,
    }
}

/// The runtime id of a completed item of kind `expected`, reconciled with the active item.
fn completed_item_id(item: &ResponseItem, active: &Option<ActiveCanonicalItem>, expected: ActiveKind) -> (r: Option<ModelItemId>)
    ensures
        r == spec_completed_id_for(*item, *active, expected),
{
    let explicit = model_item_id(item);
    let active_id = match (active, expected) {
        (Some(ActiveCanonicalItem::Message { item_id }), ActiveKind::Message) => Some(copy_item_id(item_id)),
        (Some(ActiveCanonicalItem::ToolCall { item_id, .. }), ActiveKind::ToolCall) => Some(copy_item_id(item_id)),
        (Some(ActiveCanonicalItem::Reasoning { item_id }), ActiveKind::Reasoning) => Some(copy_item_id(item_id)),
        (Some(_), _) => return None,
        (None, _) => None,
    };
    match (explicit, active_id) {
        (Some(explicit), Some(active_id)) => if explicit.0 != active_id.0 {
            None
        } else {
            Some(explicit)
        },
        (Some(explicit), None) => Some(explicit),
        (None, Some(active_id)) => Some(active_id),
        (None, None) => None,
    }
}

fn output_texts(content: &Vec<ContentItem>) -> (r: Option<Vec<ModelContent>>)
    ensures
        match r {
            Some(out) => all_output_text(content@) && output_texts_match(content@, out@),
            None => !all_output_text(content@),
        },
{
    let mut out: Vec<ModelContent> = Vec::new();
    let mut i: usize = 0;
    while i < content.len()
        invariant
            i <= content@.len(),
            out@.len() == i,
            forall|j: int| 0 <= j < i ==> (#[trigger] content@[j] matches ContentItem::OutputText { text } && out@[j] == ModelContent::Text(text)),
        decreases content.len() - i,
    {
        match &content[i] {
            ContentItem::OutputText { text } => out.push(ModelContent::Text(text.clone())),
            _ => {
                assert(!(content@[i as int] is OutputText));
                return None;
            },
        }
        i += 1;
    }
    Some(out)
}

fn summary_texts(summary: &Vec<ReasoningItemReasoningSummary>) -> (r: Vec<String>)
    ensures
        r@.len() == summary@.len(),
        forall|i: int| 0 <= i < summary@.len() ==> r@[i] == spec_summary_text(#[trigger] summary@[i]),
{
    let mut out: Vec<String> = Vec::new();
    let mut i: usize = 0;
    while i < summary.len()
        invariant
            i <= summary@.len(),
            out@.len() == i,
            forall|j: int| 0 <= j < i ==> out@[j] == spec_summary_text(#[trigger] summary@[j]),
        decreases summary.len() - i,
    {
        match &summary[i] {
            ReasoningItemReasoningSummary::SummaryText { text } => out.push(text.clone()),
        }
        i += 1;
    }
    out
}

fn reasoning_texts(content: &Option<Vec<ReasoningItemContent>>) -> (r: Vec<String>)
    ensures
        r@.len() == spec_reasoning_contents(*content).len(),
        forall|i: int| 0 <= i < r@.len() ==> r@[i] == spec_reasoning_text(#[trigger] spec_reasoning_contents(*content)[i]),
{
    let mut out: Vec<String> = Vec::new();
    match content {
        Some(parts) => {
            let mut i: usize = 0;
            while i < parts.len()
                invariant
                    i <= parts@.len(),
                    out@.len() == i,
                    forall|j: int| 0 <= j < i ==> out@[j] == spec_reasoning_text(#[trigger] parts@[j]),
                decreases parts.len() - i,
            {
                match &parts[i] {
                    ReasoningItemContent::ReasoningText { text } => out.push(text.clone()),
                    ReasoningItemContent::Text { text } => out.push(text.clone()),
                }
                i += 1;
            }
        },
        None => {},
    }
    out
}

/// The completed canonical item of `item`, when it completes canonically given `active`.
fn model_output_item_completed(item: &ResponseItem, active: &Option<ActiveCanonicalItem>) -> (r: Option<ModelOutputItem>)
    ensures
        match r {
            Some(out) => completes_canonically(*item, *active) && completed_matches(*item, *active, out),
            None => !completes_canonically(*item, *active),
        },
{
    let client_search = is_client_tool_search_call(item);
    match item {
        ResponseItem::Message { role, content, phase, .. } => {
            if !str_eq(role.as_str(), "assistant") {
                return None;
            }
            let id = match completed_item_id(item, active, ActiveKind::Message) {
                Some(id) => id,
                None => return None,
            };
            let content = match output_texts(content) {
                Some(c) => c,
                None => return None,
            };
            Some(ModelOutputItem::Message { id, phase: model_message_phase(phase), content })
        },
        ResponseItem::FunctionCall { name, namespace, arguments, call_id, .. } => {
            if call_id.as_str().is_empty() {
                return None;
            }
            let id = match completed_item_id(item, active, ActiveKind::ToolCall) {
                Some(id) => id,
                None => return None,
            };
            let input = match parse_json(arguments.as_str()) {
                Some(v) => v,
                None => return None,
            };
            Some(ModelOutputItem::ToolCall {
                id,
                call: ModelToolCall {
                    call_id: ModelToolCallId(call_id.clone()),
                    namespace: namespace.clone(),
                    name: name.clone(),
                    input: ModelToolInput::Json(input),
                },
            })
        },
        ResponseItem::CustomToolCall { call_id, name, namespace, input, .. } => {
            if call_id.as_str().is_empty() {
                return None;
            }
            let id = match completed_item_id(item, active, ActiveKind::ToolCall) {
                Some(id) => id,
                None => return None,
            };
            Some(ModelOutputItem::ToolCall {
                id,
                call: ModelToolCall {
                    call_id: ModelToolCallId(call_id.clone()),
                    namespace: namespace.clone(),
                    name: name.clone(),
                    input: ModelToolInput::Text(input.clone()),
                },
            })
        },
        ResponseItem::ToolSearchCall { call_id: Some(call_id), arguments, .. } => {
            if !client_search {
                return None;
            }
            let id = match completed_item_id(item, active, ActiveKind::ToolCall) {
                Some(id) => id,
                None => return None,
            };
            Some(ModelOutputItem::ToolCall {
                id,
                call: ModelToolCall {
                    call_id: ModelToolCallId(call_id.clone()),
                    namespace: None,
                    name: TOOL_SEARCH_NAME.to_owned(),
                    input: ModelToolInput::Json(arguments.clone()),
                },
            })
        },
        ResponseItem::Reasoning { summary, content, .. } => {
            let id = match completed_item_id(item, active, ActiveKind::Reasoning) {
                Some(id) => id,
                None => return None,
            };
            Some(ModelOutputItem::Reasoning { id, summary: summary_texts(summary), content: reasoning_texts(content) })
        },
        _ => None,
    }
}

/// The canonical usage of a provider usage, when every count is non-negative.
fn model_usage(usage: &TokenUsage) -> (r: Option<ModelUsage>)
    ensures
        match r {
            Some(u) => usage_is_representable(*usage) && u == spec_model_usage(*usage),
            None => !usage_is_representable(*usage),
        },
{
    if usage.input_tokens < 0 || usage.output_tokens < 0 || usage.cached_input_tokens < 0
        || usage.cache_write_input_tokens < 0 || usage.reasoning_output_tokens < 0 || usage.total_tokens < 0 {
        return None;
    }
    Some(ModelUsage {
        input_tokens: usage.input_tokens as u64,
        output_tokens: usage.output_tokens as u64,
        cached_input_tokens: Some(usage.cached_input_tokens as u64),
        cache_write_input_tokens: Some(usage.cache_write_input_tokens as u64),
        reasoning_output_tokens: Some(usage.reasoning_output_tokens as u64),
        total_tokens: Some(usage.total_tokens as u64),
    })
}

impl Default for CodexEventMapper {
    fn default() -> (r: Self)
        ensures
            r.spec_active() is None,
    {
        CodexEventMapper::new()
    }
}

impl CodexEventMapper {
    /// The canonical item currently streaming, if any.
    pub closed spec fn spec_active(&self) -> Option<ActiveCanonicalItem> {
        self.active
    }

    /// A mapper with no item streaming.
    pub fn new() -> (r: Self)
        ensures
            r.spec_active() is None,
    {
        CodexEventMapper { active: None }
    }

    /// Maps one stream event to the runtime event boundary, updating the correlation state.
    pub fn map(&mut self, event: ResponseEvent) -> (r: ModelRuntimeEvent)
        ensures
            mapped(old(self).spec_active(), event, final(self).spec_active(), r),
    {
        match event {
            ResponseEvent::Created => {
                self.active = None;
                ModelRuntimeEvent::Model { event: ModelEvent::Started, codex: None }
            },
            ResponseEvent::OutputItemAdded(item) => self.map_output_item_added(item),
            ResponseEvent::OutputItemDone(item) => self.map_output_item_completed(item),
            ResponseEvent::Completed { response_id, token_usage, end_turn } => {
                self.active = None;
                let usage = match &token_usage {
                    Some(u) => match model_usage(u) {
                        Some(mu) => Some(mu),
                        None => {
                            return ModelRuntimeEvent::Compatibility(
                                CodexModelRuntimeSideEvent::Completed { response_id, token_usage, end_turn },
                            );
                        },
                    },
                    None => None,
                };
                ModelRuntimeEvent::Model {
                    event: ModelEvent::Completed(ModelCompletion { usage, end_turn }),
                    codex: Some(CodexModelEventContext::Completed { response_id, token_usage }),
                }
            },
            ResponseEvent::OutputTextDelta(delta) => match &self.active {
                Some(ActiveCanonicalItem::Message { item_id }) => ModelRuntimeEvent::Model {
                    event: ModelEvent::TextDelta { item_id: copy_item_id(item_id), delta },
                    codex: None,
                },
                _ => ModelRuntimeEvent::Compatibility(CodexModelRuntimeSideEvent::OutputTextDelta(delta)),
            },
            ResponseEvent::ToolCallInputDelta { item_id, call_id, delta } => {
                let (active_item_id, active_call_id) = match &self.active {
                    Some(ActiveCanonicalItem::ToolCall { item_id: a, call_id: c }) => (copy_item_id(a), copy_call_id(c)),
                    _ => {
                        return ModelRuntimeEvent::Compatibility(
                            CodexModelRuntimeSideEvent::ToolCallInputDelta { item_id, call_id, delta },
                        );
                    },
                };
                let item_mismatch = !item_id.as_str().is_empty() && item_id != active_item_id.0;
                let call_mismatch = match &call_id {
                    Some(c) => *c != active_call_id.0,
                    None => false,
                };
                if item_mismatch || call_mismatch {
                    return ModelRuntimeEvent::Compatibility(
                        CodexModelRuntimeSideEvent::ToolCallInputDelta { item_id, call_id, delta },
                    );
                }
                ModelRuntimeEvent::Model {
                    event: ModelEvent::ToolCallInputDelta { item_id: active_item_id, call_id: active_call_id, delta },
                    codex: None,
                }
            },
            ResponseEvent::ReasoningSummaryDelta { delta, summary_index } => match &self.active {
                Some(ActiveCanonicalItem::Reasoning { item_id }) if 0 <= summary_index && summary_index <= 0xffff_ffffi64 => {
                    ModelRuntimeEvent::Model {
                        event: ModelEvent::ReasoningDelta {
                            item_id: copy_item_id(item_id),
                            kind: ModelReasoningDeltaKind::Summary,
                            delta,
                            section_index: Some(summary_index as u32),
                        },
                        codex: None,
                    }
                },
                _ => ModelRuntimeEvent::Compatibility(
                    CodexModelRuntimeSideEvent::ReasoningSummaryDelta { delta, summary_index },
                ),
            },
            ResponseEvent::ReasoningSummaryPartAdded { summary_index } => match &self.active {
                Some(ActiveCanonicalItem::Reasoning { item_id }) if 0 <= summary_index && summary_index <= 0xffff_ffffi64 => {
                    ModelRuntimeEvent::Model {
                        event: ModelEvent::ReasoningSectionStarted {
                            item_id: copy_item_id(item_id),
                            kind: ModelReasoningDeltaKind::Summary,
                            section_index: summary_index as u32,
                        },
                        codex: None,
                    }
                },
                _ => ModelRuntimeEvent::Compatibility(
                    CodexModelRuntimeSideEvent::ReasoningSummaryPartAdded { summary_index },
                ),
            },
            ResponseEvent::ReasoningContentDelta { delta, content_index } => match &self.active {
                Some(ActiveCanonicalItem::Reasoning { item_id }) if 0 <= content_index && content_index <= 0xffff_ffffi64 => {
                    ModelRuntimeEvent::Model {
                        event: ModelEvent::ReasoningDelta {
                            item_id: copy_item_id(item_id),
                            kind: ModelReasoningDeltaKind::Content,
                            delta,
                            section_index: Some(content_index as u32),
                        },
                        codex: None,
                    }
                },
                _ => ModelRuntimeEvent::Compatibility(
                    CodexModelRuntimeSideEvent::ReasoningContentDelta { delta, content_index },
                ),
            },
            // Sequential-cutoff summary delivery keeps its distinct consumer behavior on the
            // compatibility path.
            ResponseEvent::ReasoningSummaryDone { item_id, text, summary_index } => ModelRuntimeEvent::Compatibility(
                CodexModelRuntimeSideEvent::ReasoningSummaryDone { item_id, text, summary_index },
            ),
            ResponseEvent::SafetyBuffering(buffering) => ModelRuntimeEvent::Compatibility(
                CodexModelRuntimeSideEvent::SafetyBuffering {
                    use_cases: buffering.use_cases,
                    reasons: buffering.reasons,
                    show_buffering_ui: buffering.show_buffering_ui,
                    faster_model: buffering.faster_model,
                },
            ),
            ResponseEvent::ServerModel(server_model) => ModelRuntimeEvent::Compatibility(
                CodexModelRuntimeSideEvent::ServerModel(server_model),
            ),
            ResponseEvent::ModelVerifications(verifications) => ModelRuntimeEvent::Compatibility(
                CodexModelRuntimeSideEvent::ModelVerifications(verifications),
            ),
            ResponseEvent::TurnModerationMetadata(metadata) => ModelRuntimeEvent::Compatibility(
                CodexModelRuntimeSideEvent::TurnModerationMetadata(metadata),
            ),
            ResponseEvent::ServerReasoningIncluded(included) => ModelRuntimeEvent::Compatibility(
                CodexModelRuntimeSideEvent::ServerReasoningIncluded(included),
            ),
            ResponseEvent::RateLimits(snapshot) => ModelRuntimeEvent::Compatibility(
                CodexModelRuntimeSideEvent::RateLimits(snapshot),
            ),
            ResponseEvent::ModelsEtag(etag) => ModelRuntimeEvent::Compatibility(CodexModelRuntimeSideEvent::ModelsEtag(etag)),
        }
    }

    fn map_output_item_added(&mut self, item: ResponseItem) -> (r: ModelRuntimeEvent)
        ensures
            mapped(old(self).spec_active(), ResponseEvent::OutputItemAdded(item), final(self).spec_active(), r),
    {
        match model_output_item_start(&item) {
            Some((start, active)) => {
                self.active = Some(active);
                ModelRuntimeEvent::Model {
                    event: ModelEvent::OutputItemStarted(start),
                    codex: Some(CodexModelEventContext::OutputItemAdded(item)),
                }
            },
            None => {
                self.active = None;
                ModelRuntimeEvent::Compatibility(CodexModelRuntimeSideEvent::OutputItemAdded(item))
            },
        }
    }

    fn map_output_item_completed(&mut self, item: ResponseItem) -> (r: ModelRuntimeEvent)
        ensures
            mapped(old(self).spec_active(), ResponseEvent::OutputItemDone(item), final(self).spec_active(), r),
    {
        let completed = model_output_item_completed(&item, &self.active);
        self.active = None;
        match completed {
            Some(completed) => ModelRuntimeEvent::Model {
                event: ModelEvent::OutputItemCompleted(completed),
                codex: Some(CodexModelEventContext::OutputItemCompleted(item)),
            },
            None => ModelRuntimeEvent::Compatibility(CodexModelRuntimeSideEvent::OutputItemCompleted(item)),
        }
    }
}

/// The runtime id of the canonical item currently streaming.
pub open spec fn active_item_id(active: Option<ActiveCanonicalItem>) -> Option<ModelItemId> {
    match active {
        Some(ActiveCanonicalItem::Message { item_id }) => Some(item_id),
        Some(ActiveCanonicalItem::ToolCall { item_id, .. }) => Some(item_id),
        Some(ActiveCanonicalItem::Reasoning { item_id }) => Some(item_id),
        None => None,
    }
}

/// Canonical deltas are always correlated with the item that is streaming: a text delta
/// belongs to an active assistant message, a tool-input delta to the active tool call (with its
/// call id), and a reasoning delta or section start to active reasoning. Every other stream
/// event that is not an item start leaves no item active when it ends a response, and product
/// notifications never reach the canonical stream.
pub proof fn lemma_canonical_deltas_follow_active_item(
    active: Option<ActiveCanonicalItem>,
    event: ResponseEvent,
    next: Option<ActiveCanonicalItem>,
    r: ModelRuntimeEvent,
)
    requires
        mapped(active, event, next, r),
    ensures
        r matches ModelRuntimeEvent::Model { event: ModelEvent::TextDelta { item_id, .. }, .. }
            ==> active == Some(ActiveCanonicalItem::Message { item_id }),
        r matches ModelRuntimeEvent::Model { event: ModelEvent::ToolCallInputDelta { item_id, call_id, .. }, .. }
            ==> active == Some(ActiveCanonicalItem::ToolCall { item_id, call_id }),
        r matches ModelRuntimeEvent::Model { event: ModelEvent::ReasoningDelta { item_id, .. }, .. }
            ==> active == Some(ActiveCanonicalItem::Reasoning { item_id }),
        r matches ModelRuntimeEvent::Model { event: ModelEvent::ReasoningSectionStarted { item_id, .. }, .. }
            ==> active == Some(ActiveCanonicalItem::Reasoning { item_id }),
        (event is Created || event is OutputItemDone || event is Completed) ==> next is None,
        (event is ServerModel || event is ModelVerifications || event is TurnModerationMetadata
            || event is RateLimits || event is ModelsEtag || event is SafetyBuffering
            || event is ServerReasoningIncluded || event is ReasoningSummaryDone) ==> r is Compatibility && next == active,
        r matches ModelRuntimeEvent::Model { event: ModelEvent::OutputItemCompleted(out), .. }
            ==> (event matches ResponseEvent::OutputItemDone(item) && completes_canonically(item, active)),
{
}

/// Whether `states` and `results` are what a mapper goes through when it maps `events` one
/// after another, starting in the correlation state `start`.
pub open spec fn mapped_run(start: Option<ActiveCanonicalItem>, events: Seq<ResponseEvent>, states: Seq<Option<ActiveCanonicalItem>>, results: Seq<ModelRuntimeEvent>) -> bool {
    &&& states.len() == events.len() + 1
    &&& results.len() == events.len()
    &&& states[0] == start
    &&& forall|i: int| 0 <= i < events.len() ==> #[trigger] mapped(states[i], events[i], states[i + 1], results[i])
}

/// Whether a stream event starts, ends or resets the streaming item.
pub open spec fn resets_active_item(event: ResponseEvent) -> bool {
    event is Created || event is OutputItemAdded || event is OutputItemDone || event is Completed
}

/// What mapping a tool-input delta gives while the tool call `(id, call_id)` is streaming: the
/// canonical delta for that call when the delta's own ids are empty/absent or equal to the
/// call's, and the delta on the compatibility channel otherwise.
pub open spec fn tool_delta_outcome(id: ModelItemId, call_id: ModelToolCallId, event: ResponseEvent) -> ModelRuntimeEvent {
    match event {
        ResponseEvent::ToolCallInputDelta { item_id, call_id: delta_call_id, delta } =>
            if (item_id@.len() == 0 || item_id@ == id.0@) && (delta_call_id matches Some(c) ==> c@ == call_id.0@) {
                plain(ModelEvent::ToolCallInputDelta { item_id: id, call_id, delta })
            } else {
                ModelRuntimeEvent::Compatibility(CodexModelRuntimeSideEvent::ToolCallInputDelta { item_id, call_id: delta_call_id, delta })
            },
        _ => arbitrary(),
    }
}

/// Between two events that reset the streaming item, the correlation state stays as the first
/// of them left it.
proof fn lemma_state_kept_without_resets(
    start: Option<ActiveCanonicalItem>,
    events: Seq<ResponseEvent>,
    states: Seq<Option<ActiveCanonicalItem>>,
    results: Seq<ModelRuntimeEvent>,
    k: int,
    j: int,
)
    requires
        mapped_run(start, events, states, results),
        0 <= k < j <= events.len(),
        forall|i: int| k < i < events.len() ==> !#[trigger] resets_active_item(events[i]),
    ensures
        states[j] == states[k + 1],
    decreases j - k,
{
    if j > k + 1 {
        lemma_state_kept_without_resets(start, events, states, results, k, j - 1);
        let i = j - 1;
        assert(mapped(states[i], events[i], states[i + 1], results[i]));
        assert(!resets_active_item(events[i]));
    }
}

/// Tool-input deltas follow the last started tool call: when the last item start, item end,
/// creation or completion a mapper saw was an item start that it mapped to the start of tool
/// call `(id, call_id)`, a later tool-input delta is mapped to a canonical delta of that call
/// exactly when its own ids are empty/absent or match, and kept unchanged on the compatibility
/// channel otherwise.
pub proof fn lemma_tool_input_delta_follows_started_call(
    start: Option<ActiveCanonicalItem>,
    events: Seq<ResponseEvent>,
    states: Seq<Option<ActiveCanonicalItem>>,
    results: Seq<ModelRuntimeEvent>,
    k: int,
    id: ModelItemId,
    call_id: ModelToolCallId,
)
    requires
        mapped_run(start, events, states, results),
        0 <= k < events.len() - 1,
        events[k] is OutputItemAdded,
        results[k] matches ModelRuntimeEvent::Model {
            event: ModelEvent::OutputItemStarted(ModelOutputItemStart::ToolCall { id: sid, call_id: scid, .. }),
            ..
        } && sid == id && scid == call_id,
        forall|j: int| k < j < events.len() ==> !#[trigger] resets_active_item(events[j]),
        events.last() is ToolCallInputDelta,
    ensures
        results.last() == tool_delta_outcome(id, call_id, events.last()),
{
    let active = Some(ActiveCanonicalItem::ToolCall { item_id: id, call_id });
    assert(mapped(states[k], events[k], states[k + 1], results[k]));
    assert(states[k + 1] == active);
    let last = events.len() - 1;
    lemma_state_kept_without_resets(start, events, states, results, k, last);
    assert(mapped(states[last], events[last], states[last + 1], results[last]));
    assert(results.last() == results[last]);
}

/// A completion with provider usage that has an unsigned reading carries every provider count in
/// the canonical field of the same name, the reported total unchanged, and the end-of-turn flag;
/// usage with a negative count stays on the compatibility path, and a completion without usage
/// has none.
pub proof fn lemma_completion_usage_keeps_each_count(
    active: Option<ActiveCanonicalItem>,
    response_id: String,
    token_usage: Option<TokenUsage>,
    end_turn: Option<bool>,
    next: Option<ActiveCanonicalItem>,
    r: ModelRuntimeEvent,
)
    requires
        mapped(active, ResponseEvent::Completed { response_id, token_usage, end_turn }, next, r),
    ensures
        token_usage is None ==> (r matches ModelRuntimeEvent::Model { event: ModelEvent::Completed(c), .. }
            && c.usage is None && c.end_turn == end_turn),
        token_usage is Some && token_usage->Some_0.input_tokens >= 0 && token_usage->Some_0.output_tokens >= 0
            && token_usage->Some_0.cached_input_tokens >= 0 && token_usage->Some_0.cache_write_input_tokens >= 0
            && token_usage->Some_0.reasoning_output_tokens >= 0 && token_usage->Some_0.total_tokens >= 0 ==> {
            let u = token_usage->Some_0;
            let c = r->Model_event->Completed_0;
            &&& r matches ModelRuntimeEvent::Model { event: ModelEvent::Completed(_), .. }
            &&& c.end_turn == end_turn
            &&& c.usage is Some
            &&& c.usage->Some_0.input_tokens == u.input_tokens
            &&& c.usage->Some_0.output_tokens == u.output_tokens
            &&& c.usage->Some_0.cached_input_tokens == Some(u.cached_input_tokens as u64)
            &&& c.usage->Some_0.cache_write_input_tokens == Some(u.cache_write_input_tokens as u64)
            &&& c.usage->Some_0.reasoning_output_tokens == Some(u.reasoning_output_tokens as u64)
            &&& c.usage->Some_0.total_tokens == Some(u.total_tokens as u64)
        },
        token_usage matches Some(u) && (u.input_tokens < 0 || u.output_tokens < 0 || u.total_tokens < 0)
            ==> r is Compatibility,
{
}

/// A streamed assistant message keeps its phase in its start and in its completion: commentary
/// stays commentary and the final answer becomes the final phase.
pub proof fn lemma_streamed_message_keeps_phase(
    active: Option<ActiveCanonicalItem>,
    event: ResponseEvent,
    next: Option<ActiveCanonicalItem>,
    r: ModelRuntimeEvent,
)
    requires
        mapped(active, event, next, r),
    ensures
        (event matches ResponseEvent::OutputItemAdded(ResponseItem::Message { phase: Some(MessagePhase::FinalAnswer), .. })
            && r matches ModelRuntimeEvent::Model { event: ModelEvent::OutputItemStarted(start), .. })
            ==> (r->Model_event->OutputItemStarted_0 matches ModelOutputItemStart::Message { phase: Some(ModelMessagePhase::Final), .. }),
        (event matches ResponseEvent::OutputItemAdded(ResponseItem::Message { phase: Some(MessagePhase::Commentary), .. })
            && r matches ModelRuntimeEvent::Model { event: ModelEvent::OutputItemStarted(start), .. })
            ==> (r->Model_event->OutputItemStarted_0 matches ModelOutputItemStart::Message { phase: Some(ModelMessagePhase::Commentary), .. }),
        (event matches ResponseEvent::OutputItemDone(ResponseItem::Message { phase: Some(MessagePhase::FinalAnswer), .. })
            && r matches ModelRuntimeEvent::Model { event: ModelEvent::OutputItemCompleted(out), .. })
            ==> (r->Model_event->OutputItemCompleted_0 matches ModelOutputItem::Message { phase: Some(ModelMessagePhase::Final), .. }),
        (event matches ResponseEvent::OutputItemDone(ResponseItem::Message { phase: Some(MessagePhase::Commentary), .. })
            && r matches ModelRuntimeEvent::Model { event: ModelEvent::OutputItemCompleted(out), .. })
            ==> (r->Model_event->OutputItemCompleted_0 matches ModelOutputItem::Message { phase: Some(ModelMessagePhase::Commentary), .. }),
{
}

} // verus!
