//! Session- and turn-scoped model execution runtimes over the Codex model client.
//!
//! A `ModelRuntime` lives as long as the session; each harness turn gets a fresh
//! `ModelTurnRuntime`, optionally bound to the configured provider. The turn runtime owns the
//! transport state of its client session: Responses over WebSocket when the client enables it,
//! until a stream error makes the turn fall back to HTTP for good.

use crate::route::codex_transport;
use crate::route::ModelProtocol;
use crate::route::ModelProviderId;
use crate::route::ModelRoute;
use crate::route::ModelTransport;
use crate::route::OPENAI_RESPONSES_PROTOCOL_ID;
use vstd::prelude::*;

verus! {

/// Warning shown when a turn falls back from the WebSocket transport to HTTP.
pub const FALLBACK_TO_HTTP_WARNING: &'static str = "Falling back from WebSockets to HTTPS transport.";

/// The session-scoped Codex model client, by the settings that decide how turns execute.
#[derive(Debug, Clone, Copy, PartialEq, Eq, Structural)]
pub struct ModelClient {
    /// Whether the client streams Responses over a WebSocket.
    pub responses_websocket_enabled: bool,
}

/// Transitional adapter over the session-scoped Codex model client.
#[derive(Debug, Clone, Copy)]
pub struct CodexModelRuntimeAdapter {
    client: ModelClient,
}

impl CodexModelRuntimeAdapter {
    pub closed spec fn spec_client(&self) -> ModelClient {
        self.client
    }

    pub fn new(client: ModelClient) -> (r: Self)
        ensures
            r.spec_client() == client,
    {
        CodexModelRuntimeAdapter { client }
    }

    /// A turn adapter with a fresh client session, bound to no provider.
    pub fn begin_turn(&self) -> (r: CodexModelTurnRuntimeAdapter)
        ensures
            r.spec_client() == self.spec_client(),
            !r.spec_fell_back(),
            r.spec_provider() is None,
    {
        CodexModelTurnRuntimeAdapter::new(self.client, None)
    }

    /// A turn adapter with a fresh client session, bound to a provider.
    pub fn begin_turn_for_provider(&self, provider_id: ModelProviderId) -> (r: CodexModelTurnRuntimeAdapter)
        ensures
            r.spec_client() == self.spec_client(),
            !r.spec_fell_back(),
            r.spec_provider() == Some(provider_id),
    {
        CodexModelTurnRuntimeAdapter::new(self.client, Some(provider_id))
    }

    /// Whether startup preparation yields a turn runtime handed to the first turn: the
    /// WebSocket transport is prepared per turn.
    pub fn startup_preparation_uses_turn_runtime(&self) -> (r: bool)
        ensures
            r == self.spec_client().responses_websocket_enabled,
    {
        self.client.responses_websocket_enabled
    }
}

/// Transitional adapter over one turn's Codex client session.
#[derive(Debug)]
pub struct CodexModelTurnRuntimeAdapter {
    client: ModelClient,
    /// Whether this turn fell back from the WebSocket transport to HTTP.
    fell_back: bool,
    provider: Option<ModelProviderId>,
}

impl CodexModelTurnRuntimeAdapter {
    pub closed spec fn spec_client(&self) -> ModelClient {
        self.client
    }

    pub closed spec fn spec_fell_back(&self) -> bool {
        self.fell_back
    }

    pub closed spec fn spec_provider(&self) -> Option<ModelProviderId> {
        self.provider
    }

    /// Whether the turn currently streams over the WebSocket transport.
    pub open spec fn spec_websocket_active(&self) -> bool {
        self.spec_client().responses_websocket_enabled && !self.spec_fell_back()
    }

    pub fn new(client: ModelClient, provider: Option<ModelProviderId>) -> (r: Self)
        ensures
            r.spec_client() == client,
            !r.spec_fell_back(),
            r.spec_provider() == provider,
    {
        CodexModelTurnRuntimeAdapter { client, fell_back: false, provider }
    }

    /// The first transient retry notification is suppressed when the client streams over the
    /// WebSocket transport.
    pub fn suppress_first_retry_notification(&self) -> (r: bool)
        ensures
            r == self.spec_client().responses_websocket_enabled,
    {
        self.client.responses_websocket_enabled
    }

    /// Recovers from a stream error by falling back from the WebSocket transport to HTTP, once:
    /// returns the warning to show when the fallback happened.
    pub fn try_recover_after_stream_error(&mut self) -> (r: Option<&'static str>)
        ensures
            final(self).spec_client() == old(self).spec_client(),
            final(self).spec_provider() == old(self).spec_provider(),
            old(self).spec_websocket_active() ==> final(self).spec_fell_back()
                && (r matches Some(w) && w@ == FALLBACK_TO_HTTP_WARNING@),
            !old(self).spec_websocket_active() ==> final(self).spec_fell_back() == old(self).spec_fell_back() && r is None,
    {
        if self.client.responses_websocket_enabled && !self.fell_back {
            self.fell_back = true;
            Some(FALLBACK_TO_HTTP_WARNING)
        } else {
            None
        }
    }

    /// The route this turn executes on: the bound provider, the Responses protocol, and the
    /// transport the turn currently uses.
    pub fn route(&self) -> (r: ModelRoute)
        ensures
            r.spec_provider_id() == self.spec_provider(),
            r.spec_protocol().spec_id() == OPENAI_RESPONSES_PROTOCOL_ID@,
            r.spec_transport() == codex_transport(self.spec_websocket_active()),
    {
        let transport = if self.client.responses_websocket_enabled && !self.fell_back {
            ModelTransport::WebSocket
        } else {
            ModelTransport::Http
        };
        let protocol = ModelProtocol::new(OPENAI_RESPONSES_PROTOCOL_ID);
        match &self.provider {
            Some(p) => ModelRoute::new(p.duplicate(), protocol, transport),
            None => ModelRoute::unresolved(protocol, transport),
        }
    }
}

/// Session-scoped model execution runtime.
#[derive(Debug, Clone, Copy)]
pub struct ModelRuntime {
    adapter: CodexModelRuntimeAdapter,
}

impl ModelRuntime {
    pub closed spec fn spec_client(&self) -> ModelClient {
        self.adapter.spec_client()
    }

    /// Wraps the Codex model client.
    pub fn from_codex_client(client: ModelClient) -> (r: Self)
        ensures
            r.spec_client() == client,
    {
        ModelRuntime { adapter: CodexModelRuntimeAdapter::new(client) }
    }

    /// A fresh execution handle for one harness turn, bound to no provider.
    pub fn begin_turn(&self) -> (r: ModelTurnRuntime)
        ensures
            r.spec_adapter().spec_client() == self.spec_client(),
            !r.spec_adapter().spec_fell_back(),
            r.spec_adapter().spec_provider() is None,
    {
        ModelTurnRuntime { adapter: self.adapter.begin_turn() }
    }

    /// A fresh execution handle for one harness turn bound to the selected provider.
    pub fn begin_turn_for_provider(&self, provider_id: &str) -> (r: ModelTurnRuntime)
        ensures
            r.spec_adapter().spec_client() == self.spec_client(),
            !r.spec_adapter().spec_fell_back(),
            r.spec_adapter().spec_provider() matches Some(p) && p.spec_id() == provider_id@,
    {
        ModelTurnRuntime { adapter: self.adapter.begin_turn_for_provider(ModelProviderId::new(provider_id)) }
    }

    /// Whether startup preparation produces a turn runtime transferred into the first turn.
    pub fn startup_preparation_uses_turn_runtime(&self) -> (r: bool)
        ensures
            r == self.spec_client().responses_websocket_enabled,
    {
        self.adapter.startup_preparation_uses_turn_runtime()
    }
}

/// Model execution handle scoped to one harness turn.
#[derive(Debug)]
pub struct ModelTurnRuntime {
    adapter: CodexModelTurnRuntimeAdapter,
}

impl ModelTurnRuntime {
    pub closed spec fn spec_adapter(&self) -> CodexModelTurnRuntimeAdapter {
        self.adapter
    }

    /// The backend's retry UX hint.
    pub fn suppress_first_retry_notification(&self) -> (r: bool)
        ensures
            r == self.spec_adapter().spec_client().responses_websocket_enabled,
    {
        self.adapter.suppress_first_retry_notification()
    }

    /// Lets the backend attempt request-path recovery; a successful recovery returns the warning
    /// to show.
    pub fn try_recover_after_stream_error(&mut self) -> (r: Option<&'static str>)
        ensures
            final(self).spec_adapter().spec_client() == old(self).spec_adapter().spec_client(),
            final(self).spec_adapter().spec_provider() == old(self).spec_adapter().spec_provider(),
            old(self).spec_adapter().spec_websocket_active() ==> final(self).spec_adapter().spec_fell_back()
                && (r matches Some(w) && w@ == FALLBACK_TO_HTTP_WARNING@),
            !old(self).spec_adapter().spec_websocket_active()
                ==> final(self).spec_adapter().spec_fell_back() == old(self).spec_adapter().spec_fell_back() && r is None,
    {
        self.adapter.try_recover_after_stream_error()
    }

    /// The route this turn executes on.
    pub fn route(&self) -> (r: ModelRoute)
        ensures
            r.spec_provider_id() == self.spec_adapter().spec_provider(),
            r.spec_protocol().spec_id() == OPENAI_RESPONSES_PROTOCOL_ID@,
            r.spec_transport() == codex_transport(self.spec_adapter().spec_websocket_active()),
    {
        self.adapter.route()
    }
}

/// A transport fallback changes only the transport of a turn's route: the provider identity and
/// the protocol stay as they were, and after it the turn streams over HTTP.
pub proof fn lemma_fallback_keeps_route_identity(before: ModelTurnRuntime, after: ModelTurnRuntime)
    requires
        after.spec_adapter().spec_client() == before.spec_adapter().spec_client(),
        after.spec_adapter().spec_provider() == before.spec_adapter().spec_provider(),
        after.spec_adapter().spec_fell_back(),
    ensures
        codex_transport(after.spec_adapter().spec_websocket_active()) == ModelTransport::Http,
        after.spec_adapter().spec_provider() == before.spec_adapter().spec_provider(),
{
}

} // verus!
