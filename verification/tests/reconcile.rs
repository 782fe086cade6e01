use tachyon::reconcile::changed_plugins;
use tachyon::reconcile::needs_hook_trust_update;
use tachyon::reconcile::MaterializedRemotePlugin;
use tachyon::reconcile::RemotePluginScope;
use tachyon::reconcile::RemotePluginShareDiscoverability;
use tachyon::reconcile::reconciliation_enabled;
use tachyon::reconcile::LoadedPlugin;
use tachyon::reconcile::PluginCapabilities;
use tachyon::reconcile::PluginLoadOutcome;
use tachyon::reconcile::PluginReconcileChangedPlugin;

fn plugin(name: &str, enabled: bool) -> LoadedPlugin {
    LoadedPlugin {
        config_name: name.to_string(),
        enabled,
        mcp_servers: Vec::new(),
        apps: Vec::new(),
        hook_sources: Vec::new(),
        has_enabled_skills: false,
        skill_roots: Vec::new(),
        remote_plugin_id: None,
    }
}

fn changed(id: &str, has_mcps: bool, has_apps: bool, has_hooks: bool, has_skills: bool) -> PluginReconcileChangedPlugin {
    PluginReconcileChangedPlugin { id: id.to_string(), has_mcps, has_apps, has_hooks, has_skills }
}

#[test]
fn capabilities_follow_what_a_plugin_offers() {
    let mut p = plugin("p", true);
    assert_eq!(
        PluginCapabilities::from_loaded_plugin(&p),
        PluginCapabilities { has_mcps: false, has_apps: false, has_hooks: false, has_skills: false }
    );
    p.mcp_servers.push("server".to_string());
    p.skill_roots.push("skills".to_string());
    let caps = PluginCapabilities::from_loaded_plugin(&p);
    assert!(caps.has_mcps && caps.has_skills && !caps.has_apps && !caps.has_hooks);
    let hooks = PluginCapabilities { has_mcps: false, has_apps: false, has_hooks: true, has_skills: false };
    assert_eq!(
        caps.union(hooks),
        PluginCapabilities { has_mcps: true, has_apps: false, has_hooks: true, has_skills: true }
    );
    assert_eq!(caps.into_response("p".to_string()), changed("p", true, false, false, true));
}

#[test]
fn changed_plugins_are_sorted_and_only_real_changes() {
    let mut with_hooks = plugin("hooked", true);
    with_hooks.hook_sources.push("hooks.json".to_string());
    let mut remote = plugin("remote-gone", true);
    remote.remote_plugin_id = Some("r-1".to_string());
    let before = PluginLoadOutcome {
        plugins: vec![plugin("stable", true), plugin("toggled", true), remote, plugin("local-gone", true), plugin("hooked", true)],
    };
    let after = PluginLoadOutcome {
        plugins: vec![plugin("toggled", false), plugin("stable", true), with_hooks, plugin("new", true)],
    };
    let result = changed_plugins(&before, &after, &vec!["new".to_string()], &vec!["zombie".to_string()]);
    assert_eq!(
        result,
        vec![
            changed("hooked", false, false, true, false),
            changed("new", false, false, false, false),
            changed("remote-gone", false, false, false, false),
            changed("toggled", false, false, false, false),
            changed("zombie", false, false, false, false),
        ]
    );
    assert!(needs_hook_trust_update(&result, &Vec::new()));
    assert!(!needs_hook_trust_update(&result[1..].to_vec(), &Vec::new()));
    let materialized = |scope, discoverability| MaterializedRemotePlugin {
        plugin_id: "remote".to_string(),
        scope,
        discoverability,
    };
    assert!(needs_hook_trust_update(
        &Vec::new(),
        &vec![materialized(RemotePluginScope::Workspace, Some(RemotePluginShareDiscoverability::Listed))]
    ));
    assert!(!needs_hook_trust_update(
        &Vec::new(),
        &vec![
            materialized(RemotePluginScope::Workspace, None),
            materialized(RemotePluginScope::Workspace, Some(RemotePluginShareDiscoverability::Other)),
            materialized(RemotePluginScope::Other, Some(RemotePluginShareDiscoverability::Listed)),
        ]
    ));
}

#[test]
fn the_last_plugin_of_a_name_wins() {
    let before = PluginLoadOutcome { plugins: vec![plugin("dup", false), plugin("dup", true)] };
    let after = PluginLoadOutcome { plugins: vec![plugin("dup", true)] };
    assert_eq!(changed_plugins(&before, &after, &Vec::new(), &Vec::new()), Vec::new());
}

#[test]
fn reconciliation_needs_plugins_and_codex_backend() {
    assert!(reconciliation_enabled(true, true));
    assert!(!reconciliation_enabled(true, false));
    assert!(!reconciliation_enabled(false, true));
}
