//! Canonical model request/event vocabulary owned by the kernel.
//!
//! These types describe model-execution semantics that are useful across providers. Provider
//! and product metadata, and provider-private continuation state, stay below the model-runtime
//! boundary and are deliberately absent here.

use std::sync::Arc;
use vstd::prelude::*;

verus! {

/// One provider-neutral model request issued by the harness.
#[derive(Debug, Clone, PartialEq)]
pub struct ModelRequest {
    /// Harness/developer instructions that apply to this request.
    pub instructions: String,
    /// Ordered conversation and tool-continuation input visible to the model.
    pub input: Vec<ModelInputItem>,
    /// Tools the model may call for this request.
    pub tools: Vec<ModelToolSpec>,
    /// Whether the model may request several tool calls without an intermediate turn.
    pub parallel_tool_calls: bool,
    /// Desired model output shape.
    pub output: ModelOutputConfig,
}

impl Default for ModelRequest {
    fn default() -> (r: Self)
        ensures
            r.instructions@ == Seq::<char>::empty(),
            r.input@ == Seq::<ModelInputItem>::empty(),
            r.tools@ == Seq::<ModelToolSpec>::empty(),
            !r.parallel_tool_calls,
            r.output.format == ModelOutputFormat::Text,
    {
        ModelRequest {
            instructions: String::new(),
            input: Vec::new(),
            tools: Vec::new(),
            parallel_tool_calls: false,
            output: ModelOutputConfig { format: ModelOutputFormat::Text },
        }
    }
}

/// One durable request-side item in the provider-neutral model conversation.
#[derive(Debug, Clone, PartialEq)]
pub enum ModelInputItem {
    Message(ModelMessage),
    Reasoning(ModelReasoning),
    ToolCall(ModelToolCall),
    ToolResult(ModelToolResult),
}

/// A role-bearing model message.
#[derive(Debug, Clone, PartialEq)]
pub struct ModelMessage {
    pub role: ModelMessageRole,
    /// Optional assistant-message lifecycle phase; `None` when a provider does not expose it.
    pub phase: Option<ModelMessagePhase>,
    pub content: Vec<ModelContent>,
}

/// Plaintext reasoning that is visible to the model on a later request.
#[derive(Debug, Clone, PartialEq)]
pub struct ModelReasoning {
    pub summary: Vec<String>,
    pub content: Vec<String>,
}

/// Roles with stable meaning across the model-runtime boundary.
#[derive(Debug, Clone, Copy, PartialEq, Eq, Structural)]
pub enum ModelMessageRole {
    System,
    Developer,
    User,
    Assistant,
}

/// Harness-significant lifecycle phase for assistant text.
#[derive(Debug, Clone, Copy, PartialEq, Eq, Structural)]
pub enum ModelMessagePhase {
    /// Interim assistant text that may be followed by more activity in the same turn.
    Commentary,
    /// Terminal assistant answer for the current turn.
    Final,
}

/// Provider-neutral message content.
#[derive(Debug, Clone, PartialEq)]
pub enum ModelContent {
    Text(String),
    Image { source: ModelMediaSource, detail: Option<ModelImageDetail> },
    Audio { source: ModelMediaSource },
}

/// Media input without assuming data URLs, hosted URLs, or uploaded files.
#[derive(Debug, Clone, PartialEq, Eq)]
pub enum ModelMediaSource {
    Uri(String),
    Bytes { media_type: String, data: Arc<[u8]> },
}

/// Optional image-fidelity hint.
#[derive(Debug, Clone, Copy, PartialEq, Eq, Structural)]
pub enum ModelImageDetail {
    Auto,
    Low,
    High,
    Original,
}

/// Tool declaration exposed to a model.
#[derive(Debug, Clone, PartialEq)]
pub enum ModelToolSpec {
    /// JSON-schema-described function call.
    Function {
        namespace: Option<String>,
        name: String,
        description: String,
        input_schema: serde_json::Value,
        strict: bool,
        availability: ModelToolAvailability,
        purpose: ModelToolPurpose,
    },
    /// Free-form textual tool input, optionally constrained by a grammar.
    Freeform {
        namespace: Option<String>,
        name: String,
        description: String,
        input_format: ModelFreeformInputFormat,
        availability: ModelToolAvailability,
        purpose: ModelToolPurpose,
    },
}

/// When a tool becomes visible to the model.
#[derive(Debug, Clone, Copy, PartialEq, Eq, Structural)]
pub enum ModelToolAvailability {
    /// Present in the current model-visible tool surface.
    Immediate,
    /// Withheld until model-driven discovery exposes it.
    Deferred,
}

/// Semantic role of a model-visible tool declaration.
#[derive(Debug, Clone, Copy, PartialEq, Eq, Structural)]
pub enum ModelToolPurpose {
    /// Invoked for its declared effect or result.
    Invocation,
    /// Invoked to discover or expose additional tools.
    Discovery,
}

/// Input contract for a free-form tool.
#[derive(Debug, Clone, PartialEq, Eq)]
pub enum ModelFreeformInputFormat {
    /// Unconstrained free-form text.
    Text,
    /// Text constrained by a grammar understood by the target backend.
    Grammar { syntax: String, definition: String },
}

/// Correlation identifier for one logical tool call.
#[derive(Debug, Clone, PartialEq, Eq, Hash)]
pub struct ModelToolCallId(pub String);

/// Model-authored request to invoke a harness tool.
#[derive(Debug, Clone, PartialEq)]
pub struct ModelToolCall {
    pub call_id: ModelToolCallId,
    pub namespace: Option<String>,
    pub name: String,
    pub input: ModelToolInput,
}

/// Tool-call input, structured or textual.
#[derive(Debug, Clone, PartialEq)]
pub enum ModelToolInput {
    Json(serde_json::Value),
    Text(String),
}

/// Tool-call input category known before a streamed input value is complete.
#[derive(Debug, Clone, Copy, PartialEq, Eq, Structural)]
pub enum ModelToolInputKind {
    Json,
    Text,
}

/// Harness-authored result for a previous model tool call.
#[derive(Debug, Clone, PartialEq)]
pub struct ModelToolResult {
    pub call_id: ModelToolCallId,
    pub content: Vec<ModelToolResultContent>,
    /// `Some(true)` known error, `Some(false)` known success, `None` unknown.
    pub is_error: Option<bool>,
}

/// Tool-result content; structured JSON and discovered tools are first-class.
#[derive(Debug, Clone, PartialEq)]
pub enum ModelToolResultContent {
    Text(String),
    Json(serde_json::Value),
    DiscoveredTools(Vec<ModelToolSpec>),
    Image { source: ModelMediaSource, detail: Option<ModelImageDetail> },
    Audio { source: ModelMediaSource },
}

/// Desired output contract for one model request.
#[derive(Debug, Clone, PartialEq)]
pub struct ModelOutputConfig {
    pub format: ModelOutputFormat,
}

impl Default for ModelOutputConfig {
    fn default() -> (r: Self)
        ensures
            r.format == ModelOutputFormat::Text,
    {
        ModelOutputConfig { format: ModelOutputFormat::Text }
    }
}

/// Output formats with provider-independent harness meaning.
#[derive(Debug, Clone, PartialEq)]
pub enum ModelOutputFormat {
    Text,
    JsonSchema { schema: serde_json::Value, strict: bool },
}

/// Stable correlation identifier for one streamed model output item.
#[derive(Debug, Clone, PartialEq, Eq, Hash)]
pub struct ModelItemId(pub String);

/// Partial header emitted when a streamed output item begins.
#[derive(Debug, Clone, PartialEq)]
pub enum ModelOutputItemStart {
    Message { id: ModelItemId, phase: Option<ModelMessagePhase> },
    ToolCall {
        id: ModelItemId,
        call_id: ModelToolCallId,
        namespace: Option<String>,
        name: String,
        input_kind: ModelToolInputKind,
    },
    Reasoning { id: ModelItemId },
}

/// Provider-neutral completed model output item.
#[derive(Debug, Clone, PartialEq)]
pub enum ModelOutputItem {
    Message { id: ModelItemId, phase: Option<ModelMessagePhase>, content: Vec<ModelContent> },
    ToolCall { id: ModelItemId, call: ModelToolCall },
    Reasoning { id: ModelItemId, summary: Vec<String>, content: Vec<String> },
}

/// One event emitted by a model execution stream.
#[derive(Debug, Clone, PartialEq)]
pub enum ModelEvent {
    Started,
    OutputItemStarted(ModelOutputItemStart),
    OutputItemCompleted(ModelOutputItem),
    TextDelta { item_id: ModelItemId, delta: String },
    ToolCallInputDelta { item_id: ModelItemId, call_id: ModelToolCallId, delta: String },
    ReasoningDelta {
        item_id: ModelItemId,
        kind: ModelReasoningDeltaKind,
        delta: String,
        section_index: Option<u32>,
    },
    /// Begins a new logical reasoning section.
    ReasoningSectionStarted { item_id: ModelItemId, kind: ModelReasoningDeltaKind, section_index: u32 },
    Completed(ModelCompletion),
}

/// Distinguishes reasoning summaries from richer reasoning content.
#[derive(Debug, Clone, Copy, PartialEq, Eq, Structural)]
pub enum ModelReasoningDeltaKind {
    Summary,
    Content,
}

/// Terminal execution metadata with provider-independent harness meaning.
#[derive(Debug, Clone, PartialEq, Eq)]
pub struct ModelCompletion {
    pub usage: Option<ModelUsage>,
    /// Whether the provider indicated that the turn ends here, when it says so.
    pub end_turn: Option<bool>,
}

/// Exact usage attributed to one upstream model request when the provider reports it.
#[derive(Debug, Clone, Default, PartialEq, Eq)]
pub struct ModelUsage {
    pub input_tokens: u64,
    pub output_tokens: u64,
    pub cached_input_tokens: Option<u64>,
    pub cache_write_input_tokens: Option<u64>,
    pub reasoning_output_tokens: Option<u64>,
    /// Provider-reported total, never recomputed.
    pub total_tokens: Option<u64>,
}

} // verus!
