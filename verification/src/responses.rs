//! The Responses-shaped compatibility items that the Codex adapter exchanges with its backend.
//!
//! These values model the provider wire vocabulary (`ResponseItem` and friends) as plain data.
//! They remain the authoritative compatibility payload: the kernel vocabulary is projected from
//! them, and adapters rebuild them when a request goes back to the provider.

use crate::history::HistoryEnvelope;
use vstd::prelude::*;

verus! {

/// Assistant-message lifecycle phase as reported by the Responses API.
#[derive(Debug, Clone, Copy, PartialEq, Eq, Structural)]
pub enum MessagePhase {
    Commentary,
    FinalAnswer,
}

/// Image fidelity hint of the Responses API.
#[derive(Debug, Clone, Copy, PartialEq, Eq, Structural)]
pub enum ImageDetail {
    Auto,
    Low,
    High,
    Original,
}

/// The image detail assumed when an image carries no explicit hint.
pub const DEFAULT_IMAGE_DETAIL: ImageDetail = ImageDetail::High;

/// One content part of a Responses message.
#[derive(Debug, Clone, PartialEq)]
pub enum ContentItem {
    InputText { text: String },
    InputImage { image_url: String, detail: Option<ImageDetail> },
    InputAudio { audio_url: String },
    OutputText { text: String },
}

/// Provider-private chat metadata carried beside an item without kernel meaning.
#[derive(Debug, Clone, PartialEq, Eq, Default)]
pub struct ChatMessageMetadata {
    pub turn_id: Option<String>,
}

/// One reasoning summary section.
#[derive(Debug, Clone, PartialEq)]
pub enum ReasoningItemReasoningSummary {
    SummaryText { text: String },
}

/// One plaintext reasoning section.
#[derive(Debug, Clone, PartialEq)]
pub enum ReasoningItemContent {
    ReasoningText { text: String },
    Text { text: String },
}

/// One content part of a function-call output.
#[derive(Debug, Clone, PartialEq)]
pub enum FunctionCallOutputContentItem {
    InputText { text: String },
    InputImage { image_url: String, detail: Option<ImageDetail> },
    InputAudio { audio_url: String },
    EncryptedContent { encrypted_content: String },
}

/// Body of a function-call output: plain text or a list of content parts.
#[derive(Debug, Clone, PartialEq)]
pub enum FunctionCallOutputBody {
    Text(String),
    ContentItems(Vec<FunctionCallOutputContentItem>),
}

/// Output payload of a function or custom tool call, with its optional success status.
#[derive(Debug, Clone, PartialEq)]
pub struct FunctionCallOutputPayload {
    pub body: FunctionCallOutputBody,
    pub success: Option<bool>,
}

impl FunctionCallOutputPayload {
    /// A text body whose success status is unknown.
    pub fn from_text(text: String) -> (r: Self)
        ensures
            r.body == FunctionCallOutputBody::Text(text),
            r.success == None::<bool>,
    {
        FunctionCallOutputPayload { body: FunctionCallOutputBody::Text(text), success: None }
    }

    /// A content-part body whose success status is unknown.
    pub fn from_content_items(items: Vec<FunctionCallOutputContentItem>) -> (r: Self)
        ensures
            r.body == FunctionCallOutputBody::ContentItems(items),
            r.success == None::<bool>,
    {
        FunctionCallOutputPayload { body: FunctionCallOutputBody::ContentItems(items), success: None }
    }
}

/// Status of a local shell call.
#[derive(Debug, Clone, Copy, PartialEq, Eq, Structural)]
pub enum LocalShellStatus {
    Completed,
    InProgress,
    Incomplete,
}

/// Command executed by a local shell call.
#[derive(Debug, Clone, PartialEq, Eq)]
pub struct LocalShellExecAction {
    pub command: Vec<String>,
    pub timeout_ms: Option<u64>,
    pub working_directory: Option<String>,
    pub env: Option<Vec<(String, String)>>,
    pub user: Option<String>,
}

/// Action of a local shell call.
#[derive(Debug, Clone, PartialEq, Eq)]
pub enum LocalShellAction {
    Exec(LocalShellExecAction),
}

/// One Responses-shaped history or output item.
#[derive(Debug, Clone, PartialEq)]
pub enum ResponseItem {
    Message {
        id: Option<String>,
        role: String,
        content: Vec<ContentItem>,
        phase: Option<MessagePhase>,
        internal_chat_message_metadata_passthrough: Option<ChatMessageMetadata>,
    },
    Reasoning {
        id: Option<String>,
        summary: Vec<ReasoningItemReasoningSummary>,
        content: Option<Vec<ReasoningItemContent>>,
        encrypted_content: Option<String>,
        internal_chat_message_metadata_passthrough: Option<ChatMessageMetadata>,
    },
    LocalShellCall {
        id: Option<String>,
        call_id: Option<String>,
        status: LocalShellStatus,
        action: LocalShellAction,
        internal_chat_message_metadata_passthrough: Option<ChatMessageMetadata>,
    },
    FunctionCall {
        id: Option<String>,
        name: String,
        namespace: Option<String>,
        arguments: String,
        encrypted_function_args: Option<Vec<String>>,
        call_id: String,
        internal_chat_message_metadata_passthrough: Option<ChatMessageMetadata>,
    },
    ToolSearchCall {
        id: Option<String>,
        call_id: Option<String>,
        status: Option<String>,
        execution: String,
        arguments: serde_json::Value,
        internal_chat_message_metadata_passthrough: Option<ChatMessageMetadata>,
    },
    FunctionCallOutput {
        id: Option<String>,
        call_id: Option<String>,
        name: Option<String>,
        namespace: Option<String>,
        output: FunctionCallOutputPayload,
        internal_chat_message_metadata_passthrough: Option<ChatMessageMetadata>,
    },
    CustomToolCall {
        id: Option<String>,
        status: Option<String>,
        call_id: String,
        name: String,
        namespace: Option<String>,
        input: String,
        internal_chat_message_metadata_passthrough: Option<ChatMessageMetadata>,
    },
    CustomToolCallOutput {
        id: Option<String>,
        call_id: String,
        name: Option<String>,
        output: FunctionCallOutputPayload,
        internal_chat_message_metadata_passthrough: Option<ChatMessageMetadata>,
    },
    ToolSearchOutput {
        id: Option<String>,
        call_id: Option<String>,
        status: String,
        execution: String,
        tools: Vec<serde_json::Value>,
        internal_chat_message_metadata_passthrough: Option<ChatMessageMetadata>,
    },
    AgentMessage {
        id: Option<String>,
        author: String,
        recipient: String,
        content: Vec<ContentItem>,
        internal_chat_message_metadata_passthrough: Option<ChatMessageMetadata>,
    },
    AdditionalTools {
        id: Option<String>,
        role: String,
        tools: Vec<serde_json::Value>,
    },
    WebSearchCall {
        id: Option<String>,
        status: Option<String>,
        action: Option<serde_json::Value>,
    },
    ImageGenerationCall {
        id: Option<String>,
        status: String,
        revised_prompt: Option<String>,
        result: String,
    },
    Compaction {
        encrypted_content: String,
    },
    CompactionTrigger,
    ContextCompaction,
    Other,
}

impl ResponseItem {
    /// The provider item identifier, for the variants that carry one.
    pub open spec fn spec_id(self) -> Option<String> {
        match self {
            ResponseItem::Message { id, .. } => id,
            ResponseItem::Reasoning { id, .. } => id,
            ResponseItem::LocalShellCall { id, .. } => id,
            ResponseItem::FunctionCall { id, .. } => id,
            ResponseItem::ToolSearchCall { id, .. } => id,
            ResponseItem::FunctionCallOutput { id, .. } => id,
            ResponseItem::CustomToolCall { id, .. } => id,
            ResponseItem::CustomToolCallOutput { id, .. } => id,
            ResponseItem::ToolSearchOutput { id, .. } => id,
            ResponseItem::AgentMessage { id, .. } => id,
            ResponseItem::AdditionalTools { id, .. } => id,
            ResponseItem::WebSearchCall { id, .. } => id,
            ResponseItem::ImageGenerationCall { id, .. } => id,
            _ => None,
        }
    }

    /// Borrows the provider item identifier, for the variants that carry one.
    pub fn id(&self) -> (r: Option<&String>)
        ensures
            r == match self.spec_id() {
                Some(id) => Some(&id),
                None => None::<&String>,
            },
    {
        match self {
            ResponseItem::Message { id, .. }
            | ResponseItem::Reasoning { id, .. }
            | ResponseItem::LocalShellCall { id, .. }
            | ResponseItem::FunctionCall { id, .. }
            | ResponseItem::ToolSearchCall { id, .. }
            | ResponseItem::FunctionCallOutput { id, .. }
            | ResponseItem::CustomToolCall { id, .. }
            | ResponseItem::CustomToolCallOutput { id, .. }
            | ResponseItem::ToolSearchOutput { id, .. }
            | ResponseItem::AgentMessage { id, .. }
            | ResponseItem::AdditionalTools { id, .. }
            | ResponseItem::WebSearchCall { id, .. }
            | ResponseItem::ImageGenerationCall { id, .. } => match id {
                Some(id) => Some(id),
                None => None,
            },
            _ => None,
        }
    }
}

/// Request-side items produced by tool runtimes for the next model request.
#[derive(Debug, Clone, PartialEq)]
pub enum ResponseInputItem {
    Message { role: String, content: Vec<ContentItem> },
    FunctionCallOutput { call_id: String, output: FunctionCallOutputPayload },
    CustomToolCallOutput { call_id: String, name: Option<String>, output: FunctionCallOutputPayload },
    ToolSearchOutput { call_id: String, status: String, execution: String, tools: Vec<serde_json::Value> },
}

/// Harness-owned metadata stored beside a persisted Responses item.
#[derive(Debug, Clone, PartialEq, Eq, Default)]
pub struct CodexHarnessMetadata {
    pub client_authored: bool,
    pub fallback_token_limit_override: Option<i64>,
}

/// A persisted Responses item with its harness metadata.
pub type ResponseItemEnvelope = HistoryEnvelope<ResponseItem, CodexHarnessMetadata>;

} // verus!
