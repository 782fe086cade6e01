//! Provider-neutral model route-selection vocabulary.
//!
//! A route carries three independent dimensions: the (optional) provider identity, the wire
//! protocol identity, and the transport. Protocol identity is opaque: concrete identifiers like
//! `openai.responses` belong to adapters rather than to enum variants here.

use crate::text::str_eq;
use vstd::prelude::*;
use vstd::std_specs::cmp::PartialEqSpec;

verus! {

/// Protocol identifier used by the Codex/OpenAI Responses adapter.
pub const OPENAI_RESPONSES_PROTOCOL_ID: &'static str = "openai.responses";

/// Opaque identity for one model wire protocol.
#[derive(Debug, Clone, Eq, Hash)]
pub struct ModelProtocol {
    id: String,
}

impl ModelProtocol {
    /// The identifier text of this protocol.
    pub closed spec fn spec_id(&self) -> Seq<char> {
        self.id@
    }

    pub fn new(id: &str) -> (r: Self)
        ensures
            r.spec_id() == id@,
    {
        ModelProtocol { id: id.to_owned() }
    }

    pub fn id(&self) -> (r: &str)
        ensures
            r@ == self.spec_id(),
    {
        self.id.as_str()
    }
}

/// Two protocols are equal when their identifiers are.
impl PartialEq for ModelProtocol {
    fn eq(&self, other: &Self) -> (r: bool) {
        str_eq(self.id.as_str(), other.id.as_str())
    }
}

impl vstd::std_specs::cmp::PartialEqSpecImpl for ModelProtocol {
    open spec fn obeys_eq_spec() -> bool {
        true
    }

    open spec fn eq_spec(&self, other: &Self) -> bool {
        self.spec_id() == other.spec_id()
    }
}

/// Protocol identity is carried opaquely: a protocol built from an identifier gives that
/// identifier back, and two protocols compare equal exactly when their identifiers are equal.
pub proof fn lemma_protocol_identity(a: ModelProtocol, b: ModelProtocol)
    ensures
        a.eq_spec(&b) <==> a.spec_id() == b.spec_id(),
        a.eq_spec(&a),
{
}

/// Opaque identity of the provider that serves a route.
#[derive(Debug, Clone, PartialEq, Eq, Hash)]
pub struct ModelProviderId {
    id: String,
}

impl ModelProviderId {
    /// The identifier text of this provider.
    pub closed spec fn spec_id(&self) -> Seq<char> {
        self.id@
    }

    pub fn new(id: &str) -> (r: Self)
        ensures
            r.spec_id() == id@,
    {
        ModelProviderId { id: id.to_owned() }
    }

    pub fn as_str(&self) -> (r: &str)
        ensures
            r@ == self.spec_id(),
    {
        self.id.as_str()
    }

    /// An equal copy of this identity.
    pub(crate) fn duplicate(&self) -> (r: Self)
        ensures
            r == *self,
    {
        ModelProviderId { id: self.id.clone() }
    }
}

/// Transport used to execute a model route.
#[derive(Debug, Clone, Copy, PartialEq, Eq, Hash, Structural)]
pub enum ModelTransport {
    Http,
    WebSocket,
}

/// Current model execution route selection.
#[derive(Debug, Clone, PartialEq, Eq, Hash)]
pub struct ModelRoute {
    provider_id: Option<ModelProviderId>,
    protocol: ModelProtocol,
    transport: ModelTransport,
}

impl ModelRoute {
    pub closed spec fn spec_provider_id(&self) -> Option<ModelProviderId> {
        self.provider_id
    }

    pub closed spec fn spec_protocol(&self) -> ModelProtocol {
        self.protocol
    }

    pub closed spec fn spec_transport(&self) -> ModelTransport {
        self.transport
    }

    /// A route whose provider identity is known.
    pub fn new(provider_id: ModelProviderId, protocol: ModelProtocol, transport: ModelTransport) -> (r: Self)
        ensures
            r.spec_provider_id() == Some(provider_id),
            r.spec_protocol() == protocol,
            r.spec_transport() == transport,
    {
        ModelRoute { provider_id: Some(provider_id), protocol, transport }
    }

    /// A route that has not been bound to a provider yet.
    pub fn unresolved(protocol: ModelProtocol, transport: ModelTransport) -> (r: Self)
        ensures
            r.spec_provider_id() == None::<ModelProviderId>,
            r.spec_protocol() == protocol,
            r.spec_transport() == transport,
    {
        ModelRoute { provider_id: None, protocol, transport }
    }

    pub fn provider_id(&self) -> (r: Option<&ModelProviderId>)
        ensures
            r == match self.spec_provider_id() {
                Some(p) => Some(&p),
                None => None::<&ModelProviderId>,
            },
    {
        match &self.provider_id {
            Some(p) => Some(p),
            None => None,
        }
    }

    pub fn protocol(&self) -> (r: &ModelProtocol)
        ensures
            *r == self.spec_protocol(),
    {
        &self.protocol
    }

    pub fn transport(&self) -> (r: ModelTransport)
        ensures
            r == self.spec_transport(),
    {
        self.transport
    }
}

/// The transport the Codex adapter selects for a given WebSocket setting.
pub open spec fn codex_transport(websocket_enabled: bool) -> ModelTransport {
    if websocket_enabled { ModelTransport::WebSocket } else { ModelTransport::Http }
}

/// The unresolved route of the Codex adapter: Responses protocol over the selected transport,
/// with no provider identity fabricated.
pub fn codex_route(websocket_enabled: bool) -> (r: ModelRoute)
    ensures
        r.spec_provider_id() == None::<ModelProviderId>,
        r.spec_protocol().spec_id() == OPENAI_RESPONSES_PROTOCOL_ID@,
        r.spec_transport() == codex_transport(websocket_enabled),
{
    let transport = if websocket_enabled { ModelTransport::WebSocket } else { ModelTransport::Http };
    ModelRoute::unresolved(ModelProtocol::new(OPENAI_RESPONSES_PROTOCOL_ID), transport)
}

} // verus!
