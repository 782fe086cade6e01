use tachyon::mcp::McpResourceCacheKey;
use tachyon::mcp::McpToolInfo;

#[test]
fn canonical_tool_name_uses_the_callable_namespace_and_name() {
    let info = McpToolInfo {
        server_name: "github".to_string(),
        tool_name: "create_issue".to_string(),
        callable_name: "create_issue".to_string(),
        callable_namespace: "mcp__github".to_string(),
        namespace_description: None,
        supports_parallel_tool_calls: true,
        server_origin: None,
        connector_id: None,
        connector_name: None,
        plugin_display_names: Vec::new(),
    };
    let name = info.canonical_tool_name();
    assert_eq!(name.namespace.as_deref(), Some("mcp__github"));
    assert_eq!(name.name, "create_issue");
}

#[test]
fn cache_keys_compare_by_connection_generation() {
    assert_eq!(McpResourceCacheKey::new(3), McpResourceCacheKey::new(3));
    assert_ne!(McpResourceCacheKey::new(3), McpResourceCacheKey::new(4));
    assert!(McpResourceCacheKey::new(9).same_generation(&McpResourceCacheKey::new(9)));
    assert!(!McpResourceCacheKey::new(9).same_generation(&McpResourceCacheKey::new(8)));
}
