//! Installed-plugin reconciliation: which plugins a reconciliation changed, and what they offer.

use crate::text_order::holds_text;
use crate::text_order::insert_sorted;
use crate::text_order::strictly_sorted;
use crate::text_order::contains_text;
use vstd::prelude::*;

verus! {

/// One plugin as the effective plugin load sees it.
#[derive(Debug, Clone, PartialEq)]
pub struct LoadedPlugin {
    pub config_name: String,
    pub enabled: bool,
    pub mcp_servers: Vec<String>,
    pub apps: Vec<String>,
    pub hook_sources: Vec<String>,
    pub has_enabled_skills: bool,
    pub skill_roots: Vec<String>,
    pub remote_plugin_id: Option<String>,
}

/// The effective plugin load for a configuration.
#[derive(Debug, Clone, PartialEq)]
pub struct PluginLoadOutcome {
    pub plugins: Vec<LoadedPlugin>,
}

/// One plugin changed by a reconciliation, with what it offers.
#[derive(Debug, Clone, PartialEq, Eq)]
pub struct PluginReconcileChangedPlugin {
    pub id: String,
    pub has_mcps: bool,
    pub has_apps: bool,
    pub has_hooks: bool,
    pub has_skills: bool,
}

/// What a plugin offers.
#[derive(Debug, Clone, Copy, PartialEq, Eq, Structural)]
pub struct PluginCapabilities {
    pub has_mcps: bool,
    pub has_apps: bool,
    pub has_hooks: bool,
    pub has_skills: bool,
}

/// What a plugin offers: servers, apps, hooks, and skills when it enables some or has skill
/// roots.
pub open spec fn spec_capabilities(plugin: LoadedPlugin) -> PluginCapabilities {
    PluginCapabilities {
        has_mcps: plugin.mcp_servers@.len() > 0,
        has_apps: plugin.apps@.len() > 0,
        has_hooks: plugin.hook_sources@.len() > 0,
        has_skills: plugin.has_enabled_skills || plugin.skill_roots@.len() > 0,
    }
}

pub open spec fn spec_union(a: PluginCapabilities, b: PluginCapabilities) -> PluginCapabilities {
    PluginCapabilities {
        has_mcps: a.has_mcps || b.has_mcps,
        has_apps: a.has_apps || b.has_apps,
        has_hooks: a.has_hooks || b.has_hooks,
        has_skills: a.has_skills || b.has_skills,
    }
}

pub open spec fn no_capabilities() -> PluginCapabilities {
    PluginCapabilities { has_mcps: false, has_apps: false, has_hooks: false, has_skills: false }
}

impl PluginCapabilities {
    /// What a loaded plugin offers.
    pub fn from_loaded_plugin(plugin: &LoadedPlugin) -> (r: Self)
        ensures
            r == spec_capabilities(*plugin),
    {
        PluginCapabilities {
            has_mcps: plugin.mcp_servers.len() > 0,
            has_apps: plugin.apps.len() > 0,
            has_hooks: plugin.hook_sources.len() > 0,
            has_skills: plugin.has_enabled_skills || plugin.skill_roots.len() > 0,
        }
    }

    /// What either of two plugin states offers.
    pub fn union(self, other: Self) -> (r: Self)
        ensures
            r == spec_union(self, other),
    {
        PluginCapabilities {
            has_mcps: self.has_mcps || other.has_mcps,
            has_apps: self.has_apps || other.has_apps,
            has_hooks: self.has_hooks || other.has_hooks,
            has_skills: self.has_skills || other.has_skills,
        }
    }

    /// The changed-plugin entry of a plugin id with these capabilities.
    pub fn into_response(self, id: String) -> (r: PluginReconcileChangedPlugin)
        ensures
            r.id == id,
            r.has_mcps == self.has_mcps,
            r.has_apps == self.has_apps,
            r.has_hooks == self.has_hooks,
            r.has_skills == self.has_skills,
    {
        PluginReconcileChangedPlugin {
            id,
            has_mcps: self.has_mcps,
            has_apps: self.has_apps,
            has_hooks: self.has_hooks,
            has_skills: self.has_skills,
        }
    }
}

impl Default for PluginCapabilities {
    fn default() -> (r: Self)
        ensures
            r == no_capabilities(),
    {
        PluginCapabilities { has_mcps: false, has_apps: false, has_hooks: false, has_skills: false }
    }
}

/// The state of one loaded plugin that reconciliation compares.
#[derive(Debug, Clone, Copy, PartialEq, Eq, Structural)]
pub struct LoadedPluginState {
    pub enabled: bool,
    pub capabilities: PluginCapabilities,
    pub is_remote: bool,
}

pub open spec fn spec_state(plugin: LoadedPlugin) -> LoadedPluginState {
    LoadedPluginState {
        enabled: plugin.enabled,
        capabilities: spec_capabilities(plugin),
        is_remote: plugin.remote_plugin_id is Some,
    }
}

/// The state of the plugin named `id` in a load; when several plugins share the name the last
/// one counts.
pub open spec fn state_of(plugins: Seq<LoadedPlugin>, id: Seq<char>) -> Option<LoadedPluginState>
    decreases plugins.len(),
{
    if plugins.len() == 0 {
        None
    } else if plugins.last().config_name@ == id {
        Some(spec_state(plugins.last()))
    } else {
        state_of(plugins.drop_last(), id)
    }
}

/// Whether a load names a plugin `id`.
pub open spec fn loads(plugins: Seq<LoadedPlugin>, id: Seq<char>) -> bool {
    exists|i: int| 0 <= i < plugins.len() && (#[trigger] plugins[i]).config_name@ == id
}

/// Whether `id` is considered by a reconciliation: loaded before or after, or materialized or
/// removed by it.
pub open spec fn is_candidate(before: Seq<LoadedPlugin>, after: Seq<LoadedPlugin>, materialized: Seq<String>, removed: Seq<String>, id: Seq<char>) -> bool {
    loads(before, id) || loads(after, id) || holds_text(materialized, id) || holds_text(removed, id)
}

/// Whether a reconciliation changed the plugin `id`: it materialized or removed it, its enabled
/// state or capabilities changed, or a remote plugin disappeared from the load.
pub open spec fn is_changed(before: Seq<LoadedPlugin>, after: Seq<LoadedPlugin>, materialized: Seq<String>, removed: Seq<String>, id: Seq<char>) -> bool {
    ||| holds_text(materialized, id)
    ||| holds_text(removed, id)
    ||| match (state_of(before, id), state_of(after, id)) {
        (Some(old), Some(new)) => old.enabled != new.enabled || old.capabilities != new.capabilities,
        (Some(old), None) => old.is_remote,
        _ => false,
    }
}

/// What a changed plugin offers: the union of what it offered before and after.
pub open spec fn changed_capabilities(before: Seq<LoadedPlugin>, after: Seq<LoadedPlugin>, id: Seq<char>) -> PluginCapabilities {
    spec_union(
        match state_of(before, id) {
            Some(s) => s.capabilities,
            None => no_capabilities(),
        },
        match state_of(after, id) {
            Some(s) => s.capabilities,
            None => no_capabilities(),
        },
    )
}

fn state_for(plugins: &Vec<LoadedPlugin>, id: &str) -> (r: Option<LoadedPluginState>)
    ensures
        r == state_of(plugins@, id@),
{
    let mut n = plugins.len();
    proof {
        assert(plugins@.subrange(0, n as int) =~= plugins@);
    }
    while n > 0
        invariant
            n <= plugins@.len(),
            state_of(plugins@, id@) == state_of(plugins@.subrange(0, n as int), id@),
        decreases n,
    {
        let plugin = &plugins[n - 1];
        proof {
            assert(plugins@.subrange(0, n as int).drop_last() =~= plugins@.subrange(0, n - 1));
        }
        if crate::text::str_eq(plugin.config_name.as_str(), id) {
            return Some(LoadedPluginState {
                enabled: plugin.enabled,
                capabilities: PluginCapabilities::from_loaded_plugin(plugin),
                is_remote: plugin.remote_plugin_id.is_some(),
            });
        }
        n -= 1;
    }
    None
}

fn add_names(ids: &mut Vec<String>, plugins: &Vec<LoadedPlugin>)
    requires
        strictly_sorted(old(ids)@),
    ensures
        strictly_sorted(final(ids)@),
        forall|t: Seq<char>| #![trigger holds_text(final(ids)@, t)] holds_text(final(ids)@, t) <==> (holds_text(old(ids)@, t) || loads(plugins@, t)),
{
    let ghost start = ids@;
    let mut i: usize = 0;
    while i < plugins.len()
        invariant
            i <= plugins@.len(),
            strictly_sorted(ids@),
            forall|t: Seq<char>| #![trigger holds_text(ids@, t)] holds_text(ids@, t) <==> (holds_text(start, t) || loads(plugins@.subrange(0, i as int), t)),
        decreases plugins.len() - i,
    {
        let ghost ids_before = ids@;
        insert_sorted(ids, plugins[i].config_name.clone());
        proof {
            let prev = plugins@.subrange(0, i as int);
            let next = plugins@.subrange(0, i + 1);
            assert forall|t: Seq<char>| loads(next, t) <==> (loads(prev, t) || t == plugins@[i as int].config_name@) by {
                if loads(next, t) {
                    let k = choose|k: int| 0 <= k < next.len() && (#[trigger] next[k]).config_name@ == t;
                    if k < i {
                        assert(prev[k] == next[k]);
                    }
                }
                if loads(prev, t) {
                    let k = choose|k: int| 0 <= k < prev.len() && (#[trigger] prev[k]).config_name@ == t;
                    assert(next[k] == prev[k]);
                }
                if t == plugins@[i as int].config_name@ {
                    assert(next[i as int] == plugins@[i as int]);
                }
            }
            assert forall|t: Seq<char>| holds_text(ids@, t) <==> (holds_text(start, t) || loads(next, t)) by {
                assert(holds_text(ids@, t) <==> (holds_text(ids_before, t) || t == plugins@[i as int].config_name@));
                assert(holds_text(ids_before, t) <==> (holds_text(start, t) || loads(prev, t)));
                assert(loads(next, t) <==> (loads(prev, t) || t == plugins@[i as int].config_name@));
            }
        }
        i += 1;
    }
    assert(plugins@.subrange(0, plugins@.len() as int) =~= plugins@);
}

fn add_texts(ids: &mut Vec<String>, texts: &Vec<String>)
    requires
        strictly_sorted(old(ids)@),
    ensures
        strictly_sorted(final(ids)@),
        forall|t: Seq<char>| #![trigger holds_text(final(ids)@, t)] holds_text(final(ids)@, t) <==> (holds_text(old(ids)@, t) || holds_text(texts@, t)),
{
    let ghost start = ids@;
    let mut i: usize = 0;
    while i < texts.len()
        invariant
            i <= texts@.len(),
            strictly_sorted(ids@),
            forall|t: Seq<char>| #![trigger holds_text(ids@, t)] holds_text(ids@, t) <==> (holds_text(start, t) || holds_text(texts@.subrange(0, i as int), t)),
        decreases texts.len() - i,
    {
        let ghost ids_before = ids@;
        insert_sorted(ids, texts[i].clone());
        proof {
            let prev = texts@.subrange(0, i as int);
            let next = texts@.subrange(0, i + 1);
            assert forall|t: Seq<char>| holds_text(next, t) <==> (holds_text(prev, t) || t == texts@[i as int]@) by {
                if holds_text(next, t) {
                    let k = choose|k: int| 0 <= k < next.len() && (#[trigger] next[k])@ == t;
                    if k < i {
                        assert(prev[k] == next[k]);
                    }
                }
                if holds_text(prev, t) {
                    let k = choose|k: int| 0 <= k < prev.len() && (#[trigger] prev[k])@ == t;
                    assert(next[k] == prev[k]);
                }
                if t == texts@[i as int]@ {
                    assert(next[i as int] == texts@[i as int]);
                }
            }
            assert forall|t: Seq<char>| holds_text(ids@, t) <==> (holds_text(start, t) || holds_text(next, t)) by {
                assert(holds_text(ids@, t) <==> (holds_text(ids_before, t) || t == texts@[i as int]@));
                assert(holds_text(ids_before, t) <==> (holds_text(start, t) || holds_text(prev, t)));
                assert(holds_text(next, t) <==> (holds_text(prev, t) || t == texts@[i as int]@));
            }
        }
        i += 1;
    }
    assert(texts@.subrange(0, texts@.len() as int) =~= texts@);
}

/// Whether one changed-plugin entry is a changed plugin with what it offers.
pub open spec fn entry_matches(
    before: Seq<LoadedPlugin>,
    after: Seq<LoadedPlugin>,
    materialized: Seq<String>,
    removed: Seq<String>,
    entry: PluginReconcileChangedPlugin,
) -> bool {
    let id = entry.id@;
    &&& is_changed(before, after, materialized, removed, id)
    &&& entry.has_mcps == changed_capabilities(before, after, id).has_mcps
    &&& entry.has_apps == changed_capabilities(before, after, id).has_apps
    &&& entry.has_hooks == changed_capabilities(before, after, id).has_hooks
    &&& entry.has_skills == changed_capabilities(before, after, id).has_skills
}

/// Whether `out` lists exactly the changed candidates, in increasing id order, each with what
/// it offers.
pub open spec fn changed_plugins_spec(
    before: Seq<LoadedPlugin>,
    after: Seq<LoadedPlugin>,
    materialized: Seq<String>,
    removed: Seq<String>,
    out: Seq<PluginReconcileChangedPlugin>,
) -> bool {
    &&& forall|i: int, j: int| 0 <= i < j < out.len() ==> crate::text_order::text_lt(#[trigger] out[i].id@, #[trigger] out[j].id@)
    &&& forall|i: int| 0 <= i < out.len() ==> is_candidate(before, after, materialized, removed, (#[trigger] out[i]).id@)
    &&& forall|i: int| 0 <= i < out.len() ==> entry_matches(before, after, materialized, removed, #[trigger] out[i])
    &&& forall|id: Seq<char>| is_candidate(before, after, materialized, removed, id) && is_changed(before, after, materialized, removed, id)
        ==> exists|i: int| 0 <= i < out.len() && (#[trigger] out[i]).id@ == id
}

/// The plugins a reconciliation changed, in increasing id order: every plugin loaded before or
/// after it, materialized or removed by it, whose reconciliation counts as a change, with the
/// union of what it offered before and after.
pub fn changed_plugins(
    before: &PluginLoadOutcome,
    after: &PluginLoadOutcome,
    materialized_plugin_ids: &Vec<String>,
    removed_plugin_ids: &Vec<String>,
) -> (r: Vec<PluginReconcileChangedPlugin>)
    ensures
        changed_plugins_spec(before.plugins@, after.plugins@, materialized_plugin_ids@, removed_plugin_ids@, r@),
{
    let ghost b = before.plugins@;
    let ghost a = after.plugins@;
    let ghost m = materialized_plugin_ids@;
    let ghost rm = removed_plugin_ids@;
    let mut candidates: Vec<String> = Vec::new();
    add_names(&mut candidates, &before.plugins);
    add_names(&mut candidates, &after.plugins);
    add_texts(&mut candidates, materialized_plugin_ids);
    add_texts(&mut candidates, removed_plugin_ids);
    proof {
        assert forall|t: Seq<char>| holds_text(candidates@, t) <==> is_candidate(b, a, m, rm, t) by {
            assert(!holds_text(Seq::<String>::empty(), t));
        }
    }
    let mut out: Vec<PluginReconcileChangedPlugin> = Vec::new();
    let ghost mut idx: Seq<int> = Seq::empty();
    let mut i: usize = 0;
    while i < candidates.len()
        invariant
            b == before.plugins@,
            a == after.plugins@,
            m == materialized_plugin_ids@,
            rm == removed_plugin_ids@,
            i <= candidates@.len(),
            out@.len() == idx.len(),
            forall|k: int| 0 <= k < idx.len() ==> 0 <= #[trigger] idx[k] < i,
            forall|k: int| 0 <= k < idx.len() ==> (#[trigger] out@[k]).id@ == candidates@[idx[k]]@,
            forall|k1: int, k2: int| 0 <= k1 < k2 < idx.len() ==> #[trigger] idx[k1] < #[trigger] idx[k2],
            forall|k: int| 0 <= k < out@.len() ==> entry_matches(b, a, m, rm, #[trigger] out@[k]),
            forall|c: int| 0 <= c < i && is_changed(b, a, m, rm, (#[trigger] candidates@[c])@)
                ==> exists|k: int| 0 <= k < idx.len() && #[trigger] idx[k] == c,
        decreases candidates.len() - i,
    {
        let id = &candidates[i];
        let old_state = state_for(&before.plugins, id.as_str());
        let new_state = state_for(&after.plugins, id.as_str());
        let forced = contains_text(materialized_plugin_ids, id.as_str()) || contains_text(removed_plugin_ids, id.as_str());
        let old_caps = match old_state {
            Some(s) => s.capabilities,
            None => PluginCapabilities::default(),
        };
        let new_caps = match new_state {
            Some(s) => s.capabilities,
            None => PluginCapabilities::default(),
        };
        let capabilities = old_caps.union(new_caps);
        let changed = forced || match (old_state, new_state) {
            (Some(o), Some(n)) => o.enabled != n.enabled || o.capabilities != n.capabilities,
            (Some(o), None) => o.is_remote,
            (None, Some(_)) => false,
            (None, None) => false,
        };
        let ghost before_idx = idx;
        if changed {
            let entry = capabilities.into_response(id.clone());
            proof {
                assert(entry_matches(b, a, m, rm, entry));
            }
            out.push(entry);
            proof {
                idx = idx.push(i as int);
                assert forall|c: int| 0 <= c < i + 1 && is_changed(b, a, m, rm, (#[trigger] candidates@[c])@)
                    implies exists|k: int| 0 <= k < idx.len() && #[trigger] idx[k] == c by {
                    if c < i {
                        let k = choose|k: int| 0 <= k < before_idx.len() && #[trigger] before_idx[k] == c;
                        assert(idx[k] == c);
                    } else {
                        assert(idx[idx.len() - 1] == c);
                    }
                }
            }
        } else {
            proof {
                assert forall|c: int| 0 <= c < i + 1 && is_changed(b, a, m, rm, (#[trigger] candidates@[c])@)
                    implies exists|k: int| 0 <= k < idx.len() && #[trigger] idx[k] == c by {
                    if c == i {
                        assert(!is_changed(b, a, m, rm, candidates@[c]@));
                    }
                }
            }
        }
        i += 1;
    }
    proof {
        assert forall|k1: int, k2: int| 0 <= k1 < k2 < out@.len()
            implies crate::text_order::text_lt(#[trigger] out@[k1].id@, #[trigger] out@[k2].id@) by {
            assert(idx[k1] < idx[k2]);
            assert(out@[k1].id@ == candidates@[idx[k1]]@);
            assert(out@[k2].id@ == candidates@[idx[k2]]@);
        }
        assert forall|k: int| 0 <= k < out@.len() implies is_candidate(b, a, m, rm, (#[trigger] out@[k]).id@) by {
            assert(out@[k].id@ == candidates@[idx[k]]@);
            assert(holds_text(candidates@, candidates@[idx[k]]@));
        }
        assert forall|id: Seq<char>| is_candidate(b, a, m, rm, id) && is_changed(b, a, m, rm, id)
            implies exists|k: int| 0 <= k < out@.len() && (#[trigger] out@[k]).id@ == id by {
            assert(holds_text(candidates@, id));
            let c = choose|c: int| 0 <= c < candidates@.len() && (#[trigger] candidates@[c])@ == id;
            assert(is_changed(b, a, m, rm, candidates@[c]@));
            let k = choose|k: int| 0 <= k < idx.len() && #[trigger] idx[k] == c;
            assert(out@[k].id@ == id);
        }
    }
    out
}

/// The scope a remote plugin was shared in.
#[derive(Debug, Clone, Copy, PartialEq, Eq, Structural)]
pub enum RemotePluginScope {
    /// Shared with a workspace.
    Workspace,
    /// Any other sharing scope.
    Other,
}

/// How a shared remote plugin can be discovered.
#[derive(Debug, Clone, Copy, PartialEq, Eq, Structural)]
pub enum RemotePluginShareDiscoverability {
    /// Listed for discovery.
    Listed,
    /// Any other discoverability.
    Other,
}

/// A remote plugin that a reconciliation materialized locally.
#[derive(Debug, Clone, PartialEq, Eq)]
pub struct MaterializedRemotePlugin {
    pub plugin_id: String,
    pub scope: RemotePluginScope,
    pub discoverability: Option<RemotePluginShareDiscoverability>,
}

/// Whether a materialized plugin is a workspace plugin listed for discovery.
pub open spec fn is_listed_workspace_plugin(plugin: MaterializedRemotePlugin) -> bool {
    plugin.scope == RemotePluginScope::Workspace
        && plugin.discoverability == Some(RemotePluginShareDiscoverability::Listed)
}

/// Whether a reconciliation must serialize a hook-trust update: a changed plugin offers hooks,
/// or a workspace plugin listed for discovery was materialized.
pub fn needs_hook_trust_update(changed: &Vec<PluginReconcileChangedPlugin>, materialized: &Vec<MaterializedRemotePlugin>) -> (r: bool)
    ensures
        r == ((exists|i: int| 0 <= i < changed@.len() && (#[trigger] changed@[i]).has_hooks)
            || (exists|i: int| 0 <= i < materialized@.len() && is_listed_workspace_plugin(#[trigger] materialized@[i]))),
{
    let mut i: usize = 0;
    while i < changed.len()
        invariant
            i <= changed@.len(),
            forall|j: int| 0 <= j < i ==> !(#[trigger] changed@[j]).has_hooks,
        decreases changed.len() - i,
    {
        if changed[i].has_hooks {
            return true;
        }
        i += 1;
    }
    let mut k: usize = 0;
    while k < materialized.len()
        invariant
            k <= materialized@.len(),
            forall|j: int| 0 <= j < changed@.len() ==> !(#[trigger] changed@[j]).has_hooks,
            forall|j: int| 0 <= j < k ==> !is_listed_workspace_plugin(#[trigger] materialized@[j]),
        decreases materialized.len() - k,
    {
        let plugin = &materialized[k];
        let listed = match plugin.discoverability {
            Some(RemotePluginShareDiscoverability::Listed) => true,
            _ => false,
        };
        if plugin.scope == RemotePluginScope::Workspace && listed {
            assert(is_listed_workspace_plugin(materialized@[k as int]));
            return true;
        }
        k += 1;
    }
    false
}

/// Whether plugin reconciliation runs: plugins are enabled and the session is signed in to the
/// Codex backend.
pub fn reconciliation_enabled(plugins_enabled: bool, uses_codex_backend: bool) -> (r: bool)
    ensures
        r == (plugins_enabled && uses_codex_backend),
{
    plugins_enabled && uses_codex_backend
}

/// The plugin that counts for the name `id` in a load: the last one carrying that name.
pub open spec fn last_named(plugins: Seq<LoadedPlugin>, id: Seq<char>) -> Option<LoadedPlugin>
    decreases plugins.len(),
{
    if plugins.len() == 0 {
        None
    } else if plugins.last().config_name@ == id {
        Some(plugins.last())
    } else {
        last_named(plugins.drop_last(), id)
    }
}

/// What a loaded plugin offers is read off its own lists: servers when it lists an MCP server,
/// apps when it lists an app, hooks when it lists a hook source, and skills when it enables some
/// or lists a skill root.
pub proof fn lemma_capabilities_read_off_the_plugin(plugin: LoadedPlugin)
    ensures
        spec_capabilities(plugin).has_mcps <==> plugin.mcp_servers@.len() != 0,
        spec_capabilities(plugin).has_apps <==> plugin.apps@.len() != 0,
        spec_capabilities(plugin).has_hooks <==> plugin.hook_sources@.len() != 0,
        spec_capabilities(plugin).has_skills <==> (plugin.has_enabled_skills || plugin.skill_roots@.len() != 0),
{
}

/// The state of a name in a load is that of the last plugin carrying it: its enabled flag, what
/// its lists offer, and whether it is a remote plugin.
proof fn lemma_state_is_last_plugin(plugins: Seq<LoadedPlugin>, id: Seq<char>)
    ensures
        match last_named(plugins, id) {
            Some(p) => state_of(plugins, id) matches Some(s) && {
                &&& s.enabled == p.enabled
                &&& s.capabilities.has_mcps == (p.mcp_servers@.len() != 0)
                &&& s.capabilities.has_apps == (p.apps@.len() != 0)
                &&& s.capabilities.has_hooks == (p.hook_sources@.len() != 0)
                &&& s.capabilities.has_skills == (p.has_enabled_skills || p.skill_roots@.len() != 0)
                &&& s.is_remote == (p.remote_plugin_id is Some)
            },
            None => state_of(plugins, id) is None,
        },
        last_named(plugins, id) is Some ==> loads(plugins, id),
    decreases plugins.len(),
{
    if plugins.len() > 0 {
        lemma_state_is_last_plugin(plugins.drop_last(), id);
        if plugins.last().config_name@ != id && last_named(plugins.drop_last(), id) is Some {
            let k = choose|k: int| 0 <= k < plugins.drop_last().len() && (#[trigger] plugins.drop_last()[k]).config_name@ == id;
            assert(plugins[k] == plugins.drop_last()[k]);
        }
        if plugins.last().config_name@ == id {
            assert(plugins[plugins.len() - 1].config_name@ == id);
        }
    }
}

/// A plugin that stays loaded and enabled but gains an app is reported as changed, and the
/// report says it has apps; one that loses its last app is reported likewise.
pub proof fn lemma_gaining_an_app_is_a_reported_change(
    before: Seq<LoadedPlugin>,
    after: Seq<LoadedPlugin>,
    materialized: Seq<String>,
    removed: Seq<String>,
    out: Seq<PluginReconcileChangedPlugin>,
    id: Seq<char>,
)
    requires
        changed_plugins_spec(before, after, materialized, removed, out),
        last_named(before, id) is Some,
        last_named(after, id) is Some,
        (last_named(before, id)->Some_0.apps@.len() == 0) != (last_named(after, id)->Some_0.apps@.len() == 0),
    ensures
        exists|i: int| 0 <= i < out.len() && (#[trigger] out[i]).id@ == id && out[i].has_apps,
{
    lemma_state_is_last_plugin(before, id);
    lemma_state_is_last_plugin(after, id);
    assert(is_candidate(before, after, materialized, removed, id));
    assert(is_changed(before, after, materialized, removed, id));
    let i = choose|i: int| 0 <= i < out.len() && (#[trigger] out[i]).id@ == id;
    assert(entry_matches(before, after, materialized, removed, out[i]));
}

} // verus!
