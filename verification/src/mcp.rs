//! MCP tool metadata exposed to extensions, and the identity of an MCP resource connection
//! generation.

use vstd::prelude::*;

verus! {

/// A model-visible tool name with its optional namespace.
#[derive(Debug, Clone, PartialEq, Eq)]
pub struct ToolName {
    pub namespace: Option<String>,
    pub name: String,
}

impl ToolName {
    /// A tool name inside a namespace.
    pub fn namespaced(namespace: String, name: String) -> (r: Self)
        ensures
            r.namespace == Some(namespace),
            r.name == name,
    {
        ToolName { namespace: Some(namespace), name }
    }
}

/// A tool served by an MCP server, with its model-visible identity.
#[derive(Debug, Clone, PartialEq, Eq)]
pub struct McpToolInfo {
    /// Raw MCP server name used to route the call.
    pub server_name: String,
    /// Raw MCP tool name used by the protocol call.
    pub tool_name: String,
    /// Model-visible callable name.
    pub callable_name: String,
    /// Model-visible callable namespace.
    pub callable_namespace: String,
    /// Model-visible namespace description, when provided by the server or connector.
    pub namespace_description: Option<String>,
    /// Whether the server advertises support for parallel tool calls.
    pub supports_parallel_tool_calls: bool,
    /// MCP server origin used for telemetry and diagnostics, when known.
    pub server_origin: Option<String>,
    /// Connector identity, when the tool came from a connector-backed MCP server.
    pub connector_id: Option<String>,
    /// Connector display name, when the tool came from a connector-backed MCP server.
    pub connector_name: Option<String>,
    /// Display names of plugins that expose or include this tool.
    pub plugin_display_names: Vec<String>,
}

impl McpToolInfo {
    /// The model-visible callable name with its namespace.
    pub fn canonical_tool_name(&self) -> (r: ToolName)
        ensures
            r.namespace == Some(self.callable_namespace),
            r.name == self.callable_name,
    {
        ToolName::namespaced(self.callable_namespace.clone(), self.callable_name.clone())
    }
}

/// Opaque identity of one host MCP resource connection generation. Hosts wrap their native
/// generation key; extensions compare keys only to decide whether cached resource data is still
/// valid.
#[derive(Debug, Clone, Copy, PartialEq, Eq, Structural)]
pub struct McpResourceCacheKey {
    generation: u64,
}

impl McpResourceCacheKey {
    pub closed spec fn spec_generation(&self) -> u64 {
        self.generation
    }

    /// The key of a connection generation.
    pub fn new(generation: u64) -> (r: Self)
        ensures
            r.spec_generation() == generation,
    {
        McpResourceCacheKey { generation }
    }

    /// Whether two keys identify the same connection generation.
    pub fn same_generation(&self, other: &Self) -> (r: bool)
        ensures
            r == (self.spec_generation() == other.spec_generation()),
            r == (*self == *other),
    {
        self.generation == other.generation
    }
}

} // verus!
