//! One lossless history entry: the exact Responses-shaped source with its canonical projection
//! when one exists.

use crate::history::HistoryItem;
use crate::history::HistoryMessageRole;
use crate::projection::project_response_item;
use crate::projection::projection_of;
use crate::projection::HistoryItemProjection;
use crate::projection::HistoryProjectionFallback;
use crate::responses::ResponseItemEnvelope;
use vstd::prelude::*;

verus! {

/// What the classification of an entry needs to know of its source item, as the harness's item
/// predicates report it.
#[derive(Debug, Clone, Copy, PartialEq, Eq, Structural)]
pub struct SourceItemFacts {
    /// Whether the legacy history rules count the source item as a user turn boundary.
    pub legacy_turn_boundary: bool,
    /// Whether the source is a message whose content is harness-injected contextual user
    /// content.
    pub contextual_user_content: bool,
    /// Whether the source is a message whose content is inter-agent communication.
    pub inter_agent_content: bool,
    /// Whether the source is a user authorization message.
    pub authorization_message: bool,
}

/// One history entry. The projection owns the exact source envelope in either outcome, so the
/// canonical value can never drift from the source it was projected from.
#[derive(Debug, Clone, PartialEq)]
pub struct StoredHistoryEntry {
    projection: HistoryItemProjection,
}

impl StoredHistoryEntry {
    pub closed spec fn spec_projection(&self) -> HistoryItemProjection {
        self.projection
    }

    /// The exact source envelope of this entry.
    pub open spec fn spec_source(&self) -> ResponseItemEnvelope {
        self.spec_projection().spec_compatibility()
    }

    /// An entry for a source envelope, with its projection.
    pub fn new(source: ResponseItemEnvelope) -> (r: Self)
        ensures
            projection_of(source, r.spec_projection()),
            r.spec_source() == source,
    {
        StoredHistoryEntry { projection: project_response_item(source) }
    }

    /// The canonical item, when the source has one.
    pub fn canonical(&self) -> (r: Option<&HistoryItem>)
        ensures
            r == match self.spec_projection() {
                HistoryItemProjection::Canonical { item, .. } => Some(&item),
                HistoryItemProjection::Fallback { .. } => None::<&HistoryItem>,
            },
    {
        match &self.projection {
            HistoryItemProjection::Canonical { item, .. } => Some(item),
            HistoryItemProjection::Fallback { .. } => None,
        }
    }

    /// Why the source has no canonical item, when it has none.
    pub fn fallback(&self) -> (r: Option<HistoryProjectionFallback>)
        ensures
            r == match self.spec_projection() {
                HistoryItemProjection::Canonical { .. } => None::<HistoryProjectionFallback>,
                HistoryItemProjection::Fallback { reason, .. } => Some(reason),
            },
    {
        match &self.projection {
            HistoryItemProjection::Canonical { .. } => None,
            HistoryItemProjection::Fallback { reason, .. } => Some(*reason),
        }
    }

    /// Borrows the exact Responses-shaped source retained by this entry.
    pub fn responses_compatibility(&self) -> (r: &ResponseItemEnvelope)
        ensures
            *r == self.spec_source(),
    {
        match &self.projection {
            HistoryItemProjection::Canonical { compatibility, .. } => compatibility,
            HistoryItemProjection::Fallback { compatibility, .. } => compatibility,
        }
    }

    /// Consumes this entry into its exact Responses-shaped source.
    pub fn into_responses_compatibility(self) -> (r: ResponseItemEnvelope)
        ensures
            r == self.spec_source(),
    {
        match self.projection {
            HistoryItemProjection::Canonical { compatibility, .. } => compatibility,
            HistoryItemProjection::Fallback { compatibility, .. } => compatibility,
        }
    }

    /// Whether this entry starts a user turn: a canonical user message that is not contextual
    /// content, or a canonical assistant message carrying inter-agent communication; an entry
    /// without a canonical item follows the legacy rules.
    pub fn is_user_turn_boundary(&self, facts: SourceItemFacts) -> (r: bool)
        ensures
            r == match self.spec_projection() {
                HistoryItemProjection::Fallback { .. } => facts.legacy_turn_boundary,
                HistoryItemProjection::Canonical { item, .. } => match item {
                    HistoryItem::Message(m) => match m.role {
                        HistoryMessageRole::User => self.spec_source().item is Message && !facts.contextual_user_content,
                        HistoryMessageRole::Assistant => self.spec_source().item is Message && facts.inter_agent_content,
                        _ => false,
                    },
                    _ => false,
                },
            },
    {
        let item = match self.canonical() {
            Some(item) => item,
            None => return facts.legacy_turn_boundary,
        };
        let source_is_message = match &self.responses_compatibility().item {
            crate::responses::ResponseItem::Message { .. } => true,
            _ => false,
        };
        match item {
            HistoryItem::Message(message) => match message.role {
                HistoryMessageRole::User => source_is_message && !facts.contextual_user_content,
                HistoryMessageRole::Assistant => source_is_message && facts.inter_agent_content,
                HistoryMessageRole::System | HistoryMessageRole::Developer => false,
            },
            _ => false,
        }
    }

    /// Whether this entry is a user authorization message: a canonical user message, or an entry
    /// without a canonical item, whose source the authorization rules accept.
    pub fn is_user_authorization_message(&self, facts: SourceItemFacts) -> (r: bool)
        ensures
            r == match self.spec_projection() {
                HistoryItemProjection::Canonical { item, .. } =>
                    (item matches HistoryItem::Message(m) && m.role == HistoryMessageRole::User) && facts.authorization_message,
                HistoryItemProjection::Fallback { .. } => facts.authorization_message,
            },
    {
        match self.canonical() {
            Some(HistoryItem::Message(message)) => match message.role {
                HistoryMessageRole::User => facts.authorization_message,
                _ => false,
            },
            Some(_) => false,
            None => facts.authorization_message,
        }
    }
}

/// An entry always gives back exactly the source it was built from.
pub proof fn lemma_entry_keeps_source(source: ResponseItemEnvelope, entry: StoredHistoryEntry)
    requires
        projection_of(source, entry.spec_projection()),
    ensures
        entry.spec_source() == source,
{
}

} // verus!
