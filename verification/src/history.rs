//! Kernel-owned vocabulary for the semantic items of durable conversation history, and the
//! envelope that stores one persisted item together with its sidecar metadata.

use std::borrow::Borrow;
use std::ops::Deref;
use std::ops::DerefMut;
use std::sync::Arc;
use vstd::prelude::*;

verus! {

/// One semantic item in durable conversation history.
#[derive(Debug, Clone, PartialEq)]
pub enum HistoryItem {
    Message(HistoryMessage),
    Reasoning(HistoryReasoning),
    ToolCall(HistoryToolCall),
    ToolResult(HistoryToolResult),
}

/// A role-bearing message retained in conversation history.
#[derive(Debug, Clone, PartialEq)]
pub struct HistoryMessage {
    pub role: HistoryMessageRole,
    /// The assistant lifecycle phase, when the source distinguishes narration from the answer.
    pub phase: Option<HistoryMessagePhase>,
    pub content: Vec<HistoryMessageContent>,
}

/// Stable semantic roles for history messages.
#[derive(Debug, Clone, Copy, PartialEq, Eq, Structural)]
pub enum HistoryMessageRole {
    System,
    Developer,
    User,
    Assistant,
}

/// Optional lifecycle phase for assistant message text.
#[derive(Debug, Clone, Copy, PartialEq, Eq, Structural)]
pub enum HistoryMessagePhase {
    Commentary,
    Final,
}

/// Content carried by a history message.
#[derive(Debug, Clone, PartialEq)]
pub enum HistoryMessageContent {
    Text(String),
    Image { source: HistoryMediaSource, detail: Option<HistoryImageDetail> },
    Audio { source: HistoryMediaSource },
}

/// Media represented without assuming a particular upload or URL mechanism.
#[derive(Debug, Clone, PartialEq, Eq)]
pub enum HistoryMediaSource {
    Uri(String),
    Bytes { media_type: String, data: Arc<[u8]> },
}

/// Optional image-fidelity hint retained with image content.
#[derive(Debug, Clone, Copy, PartialEq, Eq, Structural)]
pub enum HistoryImageDetail {
    Auto,
    Low,
    High,
    Original,
}

/// Plaintext reasoning exposed by the harness; opaque continuation state is not part of it.
#[derive(Debug, Clone, PartialEq)]
pub struct HistoryReasoning {
    /// Ordered reasoning summary sections.
    pub summary: Vec<String>,
    /// Ordered plaintext reasoning sections, when available.
    pub content: Vec<String>,
}

/// Correlation identifier for one logical history tool call and its result.
#[derive(Debug, Clone, PartialEq, Eq, Hash)]
pub struct HistoryToolCallId(pub String);

/// A tool invocation retained in conversation history.
#[derive(Debug, Clone, PartialEq)]
pub struct HistoryToolCall {
    pub call_id: HistoryToolCallId,
    pub namespace: Option<String>,
    pub name: String,
    pub input: HistoryToolInput,
}

/// Tool-call input with its JSON/text distinction preserved.
#[derive(Debug, Clone, PartialEq)]
pub enum HistoryToolInput {
    Json(serde_json::Value),
    Text(String),
}

/// The result produced for a previous history tool call.
#[derive(Debug, Clone, PartialEq)]
pub struct HistoryToolResult {
    pub call_id: HistoryToolCallId,
    pub content: Vec<HistoryToolResultContent>,
    /// `Some(true)` and `Some(false)` are explicit statuses; `None` means unknown.
    pub is_error: Option<bool>,
}

/// Content produced by a history tool result.
#[derive(Debug, Clone, PartialEq)]
pub enum HistoryToolResultContent {
    Text(String),
    Json(serde_json::Value),
    Image { source: HistoryMediaSource, detail: Option<HistoryImageDetail> },
    Audio { source: HistoryMediaSource },
}

/// A persisted history item together with sidecar metadata.
///
/// Both the item and the metadata representation are type parameters, so the envelope is
/// independent of any provider payload or host metadata shape.
#[derive(Debug, Clone, PartialEq)]
pub struct HistoryEnvelope<T, M> {
    pub item: T,
    pub metadata: Option<M>,
}

impl<T, M> HistoryEnvelope<T, M> {
    /// An envelope without metadata.
    pub fn new(item: T) -> (r: Self)
        ensures
            r.item == item,
            r.metadata == None::<M>,
    {
        HistoryEnvelope { item, metadata: None }
    }

    /// An envelope carrying the given metadata.
    pub fn with_metadata(item: T, metadata: M) -> (r: Self)
        ensures
            r.item == item,
            r.metadata == Some(metadata),
    {
        HistoryEnvelope { item, metadata: Some(metadata) }
    }

    /// Gives up the envelope and returns its item.
    pub fn into_item(self) -> (r: T)
        ensures
            r == self.item,
    {
        self.item
    }
}

impl<T, M> From<T> for HistoryEnvelope<T, M> {
    fn from(item: T) -> (r: Self) {
        Self::new(item)
    }
}

impl<T, M> vstd::std_specs::convert::FromSpecImpl<T> for HistoryEnvelope<T, M> {
    open spec fn obeys_from_spec() -> bool {
        true
    }

    open spec fn from_spec(v: T) -> Self {
        HistoryEnvelope { item: v, metadata: None }
    }
}

impl<T, M> Deref for HistoryEnvelope<T, M> {
    type Target = T;

    fn deref(&self) -> (r: &T)
        ensures
            *r == self.item,
    {
        &self.item
    }
}

impl<T, M> DerefMut for HistoryEnvelope<T, M> {
    fn deref_mut(&mut self) -> (r: &mut T)
        ensures
            *r == old(self).item,
            final(self).item == *final(r),
            final(self).metadata == old(self).metadata,
    {
        &mut self.item
    }
}

impl<T, M> Borrow<T> for HistoryEnvelope<T, M> {
    fn borrow(&self) -> &T
        returns
            &self.item,
    {
        &self.item
    }
}

} // verus!
