//! Plugins: their descriptions and settings, the trait a plugin implements,
//! and the manager that registers plugins and calls them. Only a plugin
//! whose settings enable it takes part, and a hook runs only the plugins
//! that handle it.
use vstd::prelude::*;
use std::collections::HashMap;
use std::marker::PhantomData;
use std::path::PathBuf;
use std::sync::Arc;
use crate::config::Config;
use crate::newsletter::composer::Newsletter;
use crate::newsletter::database::Subscriber;
use crate::newsletter::migration::{field_insert, fields_view, map_insert};
use crate::text::{push_str, str_eq};
use crate::utils::string_views;

verus! {

/// A JSON value of a plugin's settings or data, carried as it is.
#[verifier::external_type_specification]
#[verifier::external_body]
pub struct ExJsonValue(serde_json::Value);

/// A filesystem path, carried as it is.
#[verifier::external_type_specification]
#[verifier::external_body]
pub struct ExPathBuf(std::path::PathBuf);

/// Plugin metadata.
pub struct PluginMetadata {
    pub name: String,
    pub version: String,
    pub author: String,
    pub description: String,
    pub homepage: Option<String>,
    pub repository: Option<String>,
    pub license: Option<String>,
    pub keywords: Vec<String>,
    pub dependencies: Vec<String>,
    pub min_blogr_version: Option<String>,
}

/// The settings of a plugin in `blogr.toml`.
pub struct PluginConfig {
    pub enabled: bool,
    pub config: HashMap<String, serde_json::Value>,
}

impl PluginConfig {
    /// The same settings.
    pub fn copy(&self) -> (res: PluginConfig)
        ensures
            res.enabled == self.enabled,
    {
        PluginConfig { enabled: self.enabled, config: self.config.clone() }
    }

    /// The settings of a plugin that `blogr.toml` does not mention: off,
    /// with no values.
    pub fn disabled() -> (res: PluginConfig)
        ensures
            !res.enabled,
    {
        PluginConfig { enabled: false, config: HashMap::new() }
    }
}

/// Points of the newsletter workflow where plugins are called.
#[derive(Clone, Copy, PartialEq, Eq, Structural, Debug)]
pub enum PluginHook {
    PreFetch,
    PostFetch,
    PreApprove,
    PostApprove,
    PreCompose,
    PostCompose,
    PreSend,
    PostSend,
    CustomCommand,
    CustomTemplate,
}

/// What a plugin is handed: the site configuration, the subscriber
/// database (of type `D`), the project root, the hook and any data.
pub struct PluginContext<D> {
    pub config: Arc<Config>,
    pub database: Arc<D>,
    pub project_root: PathBuf,
    pub hook: PluginHook,
    pub data: HashMap<String, serde_json::Value>,
}

/// What a plugin answers.
pub struct PluginResult {
    pub success: bool,
    pub message: Option<String>,
    pub data: HashMap<String, serde_json::Value>,
    pub modified_newsletter: Option<Newsletter>,
    pub modified_subscribers: Option<Vec<Subscriber>>,
}

/// The message of a command or template that a plugin does not provide.
pub open spec fn not_implemented_text(kind: Seq<char>, name: Seq<char>) -> Seq<char> {
    kind + " '"@ + name + "' not implemented"@
}

/// The message of a command or template that a plugin does not provide.
pub fn not_implemented(kind: &str, name: &str) -> (res: String)
    ensures
        res@ == not_implemented_text(kind@, name@),
{
    let mut m = String::new();
    push_str(&mut m, kind);
    push_str(&mut m, " '");
    push_str(&mut m, name);
    push_str(&mut m, "' not implemented");
    m
}

/// A newsletter plugin, written by its authors; `D` is the type of the
/// subscriber database its hooks are handed. Nothing is assumed of how a
/// plugin answers.
pub trait NewsletterPlugin<D>: Send + Sync {
    /// The plugin's description.
    fn metadata(&self) -> &PluginMetadata;

    /// Prepares the plugin with its settings.
    fn initialize(&mut self, config: &PluginConfig) -> Result<(), String>;

    /// Whether the plugin handles a hook.
    fn handles_hook(&self, hook: &PluginHook) -> bool;

    /// Runs the plugin for a hook.
    fn execute_hook(&self, context: &PluginContext<D>) -> Result<PluginResult, String>;

    /// The custom commands the plugin offers; none unless it says so.
    fn custom_commands(&self) -> Vec<String> {
        Vec::new()
    }

    /// Runs a custom command; a plugin that offers none refuses it.
    fn execute_command(&self, command: &str, _args: &[String], _context: &PluginContext<D>) -> Result<PluginResult, String> {
        Err(not_implemented("Command", command))
    }

    /// The custom email templates the plugin offers; none unless it says so.
    fn custom_templates(&self) -> Vec<String> {
        Vec::new()
    }

    /// Renders a custom template; a plugin that offers none refuses it.
    fn render_template(&self, template: &str, _newsletter: &Newsletter, _context: &PluginContext<D>) -> Result<Newsletter, String> {
        Err(not_implemented("Template", template))
    }
}

// ---------------------------------------------------------------------------
// Settings
// ---------------------------------------------------------------------------

/// Whether the plugin `name` is enabled: its settings (the first with that
/// name) say so; a plugin without settings is off.
pub open spec fn plugin_enabled(configs: Seq<(Seq<char>, bool)>, name: Seq<char>) -> bool
    decreases configs.len(),
{
    if configs.len() == 0 {
        false
    } else if configs[0].0 == name {
        configs[0].1
    } else {
        plugin_enabled(configs.skip(1), name)
    }
}

/// Plugin settings as names and enabled flags.
pub open spec fn configs_view(v: Seq<(String, PluginConfig)>) -> Seq<(Seq<char>, bool)> {
    v.map_values(|e: (String, PluginConfig)| (e.0@, e.1.enabled))
}

/// The settings with those of `k` set to `v`: an existing entry keeps its
/// place, a new one goes last.
pub open spec fn config_insert(m: Seq<(Seq<char>, bool)>, k: Seq<char>, v: bool) -> Seq<(Seq<char>, bool)>
    decreases m.len(),
{
    if m.len() == 0 {
        seq![(k, v)]
    } else if m[0].0 == k {
        seq![(k, v)] + m.skip(1)
    } else {
        seq![m[0]] + config_insert(m.skip(1), k, v)
    }
}

/// The settings after those of `added` are set in turn: a later entry for
/// a name wins.
pub open spec fn configs_loaded(m: Seq<(Seq<char>, bool)>, added: Seq<(Seq<char>, bool)>) -> Seq<(Seq<char>, bool)>
    decreases added.len(),
{
    if added.len() == 0 {
        m
    } else {
        config_insert(configs_loaded(m, added.drop_last()), added.last().0, added.last().1)
    }
}

/// Each plugin has at most one entry in the settings.
pub open spec fn names_once(m: Seq<(Seq<char>, bool)>) -> bool {
    forall|i: int, j: int| 0 <= i < j < m.len() ==> (#[trigger] m[i]).0 != (#[trigger] m[j]).0
}

proof fn lemma_config_insert_names(m: Seq<(Seq<char>, bool)>, k: Seq<char>, v: bool)
    ensures
        forall|i: int| 0 <= i < config_insert(m, k, v).len() ==> (#[trigger] config_insert(m, k, v)[i]).0 == k
            || exists|j: int| 0 <= j < m.len() && m[j].0 == config_insert(m, k, v)[i].0,
        names_once(m) ==> names_once(config_insert(m, k, v)),
    decreases m.len(),
{
    let r = config_insert(m, k, v);
    if m.len() == 0 {
    } else if m[0].0 == k {
        assert forall|i: int| 0 <= i < r.len() implies (#[trigger] r[i]).0 == k
            || exists|j: int| 0 <= j < m.len() && m[j].0 == r[i].0 by {
            if i > 0 {
                assert(r[i] == m[i]);
            }
        }
        if names_once(m) {
            assert forall|i: int, j: int| 0 <= i < j < r.len() implies (#[trigger] r[i]).0 != (#[trigger] r[j]).0 by {
                assert(r[j] == m[j]);
                if i > 0 {
                    assert(r[i] == m[i]);
                } else {
                    assert(m[0].0 != m[j].0);
                }
            }
        }
    } else {
        let t = m.skip(1);
        lemma_config_insert_names(t, k, v);
        let rt = config_insert(t, k, v);
        assert(r == seq![m[0]] + rt);
        assert forall|i: int| 0 <= i < r.len() implies (#[trigger] r[i]).0 == k
            || exists|j: int| 0 <= j < m.len() && m[j].0 == r[i].0 by {
            if i == 0 {
                assert(m[0].0 == r[0].0);
            } else {
                assert(r[i] == rt[i - 1]);
                if rt[i - 1].0 != k {
                    let j = choose|j: int| 0 <= j < t.len() && t[j].0 == rt[i - 1].0;
                    assert(m[j + 1] == t[j]);
                }
            }
        }
        if names_once(m) {
            assert(names_once(t)) by {
                assert forall|i: int, j: int| 0 <= i < j < t.len() implies (#[trigger] t[i]).0 != (#[trigger] t[j]).0 by {
                    assert(t[i] == m[i + 1] && t[j] == m[j + 1]);
                }
            }
            assert forall|i: int, j: int| 0 <= i < j < r.len() implies (#[trigger] r[i]).0 != (#[trigger] r[j]).0 by {
                assert(r[j] == rt[j - 1]);
                if i > 0 {
                    assert(r[i] == rt[i - 1]);
                } else {
                    if rt[j - 1].0 != k {
                        let q = choose|q: int| 0 <= q < t.len() && t[q].0 == rt[j - 1].0;
                        assert(m[q + 1] == t[q]);
                    }
                }
            }
        }
    }
}

/// Loading settings keeps one entry per plugin: where each plugin had at
/// most one entry before, each has at most one after, however many
/// settings are loaded.
pub proof fn law_plugin_settings_named_once(m: Seq<(Seq<char>, bool)>, added: Seq<(Seq<char>, bool)>)
    requires
        names_once(m),
    ensures
        names_once(configs_loaded(m, added)),
    decreases added.len(),
{
    if added.len() > 0 {
        law_plugin_settings_named_once(m, added.drop_last());
        lemma_config_insert_names(configs_loaded(m, added.drop_last()), added.last().0, added.last().1);
    }
}

proof fn lemma_config_insert_at(m: Seq<(Seq<char>, bool)>, k: Seq<char>, v: bool, i: int)
    requires
        0 <= i <= m.len(),
        forall|j: int| 0 <= j < i ==> m[j].0 != k,
        i < m.len() ==> m[i].0 == k,
    ensures
        config_insert(m, k, v) == if i < m.len() { m.update(i, (k, v)) } else { m.push((k, v)) },
    decreases i,
{
    if i > 0 {
        lemma_config_insert_at(m.skip(1), k, v, i - 1);
        if i < m.len() {
            assert(seq![m[0]] + m.skip(1).update(i - 1, (k, v)) =~= m.update(i, (k, v)));
        } else {
            assert(seq![m[0]] + m.skip(1).push((k, v)) =~= m.push((k, v)));
        }
    } else {
        if m.len() > 0 {
            assert(seq![(k, v)] + m.skip(1) =~= m.update(0, (k, v)));
        } else {
            assert(seq![(k, v)] =~= m.push((k, v)));
        }
    }
}

proof fn lemma_config_insert_enabled(m: Seq<(Seq<char>, bool)>, k: Seq<char>, v: bool, n: Seq<char>)
    ensures
        plugin_enabled(config_insert(m, k, v), n) == if n == k { v } else { plugin_enabled(m, n) },
    decreases m.len(),
{
    let r = config_insert(m, k, v);
    if m.len() == 0 {
        assert(r[0] == (k, v));
        assert(r.skip(1) =~= Seq::<(Seq<char>, bool)>::empty());
        assert(plugin_enabled(r.skip(1), n) == false);
    } else if m[0].0 == k {
        assert(r[0] == (k, v));
        assert(r.skip(1) =~= m.skip(1));
    } else {
        lemma_config_insert_enabled(m.skip(1), k, v, n);
        assert(r[0] == m[0]);
        assert(r.skip(1) =~= config_insert(m.skip(1), k, v));
    }
}

/// Setting a plugin's settings and then asking whether it is enabled gives
/// the flag set; the other plugins keep their state.
pub proof fn law_plugin_settings_read_after_write(m: Seq<(Seq<char>, bool)>, k: Seq<char>, v: bool, n: Seq<char>)
    ensures
        plugin_enabled(config_insert(m, k, v), k) == v,
        n != k ==> plugin_enabled(config_insert(m, k, v), n) == plugin_enabled(m, n),
{
    lemma_config_insert_enabled(m, k, v, k);
    lemma_config_insert_enabled(m, k, v, n);
}

fn find_config(configs: &Vec<(String, PluginConfig)>, name: &str) -> (res: Option<usize>)
    ensures
        match res {
            Some(i) => i < configs@.len() && configs@[i as int].0@ == name@
                && forall|j: int| 0 <= j < i ==> (#[trigger] configs@[j]).0@ != name@,
            None => forall|j: int| 0 <= j < configs@.len() ==> (#[trigger] configs@[j]).0@ != name@,
        },
{
    let mut i: usize = 0;
    while i < configs.len()
        invariant
            i <= configs@.len(),
            forall|j: int| 0 <= j < i ==> (#[trigger] configs@[j]).0@ != name@,
        decreases configs.len() - i,
    {
        if str_eq(configs[i].0.as_str(), name) {
            return Some(i);
        }
        i += 1;
    }
    None
}

/// Sets the settings of the plugin `name`.
fn config_set(configs: &mut Vec<(String, PluginConfig)>, name: String, config: PluginConfig)
    ensures
        configs_view(final(configs)@) == config_insert(configs_view(old(configs)@), name@, config.enabled),
{
    let ghost cv = configs_view(configs@);
    let ghost kv = name@;
    let ghost ev = config.enabled;
    match find_config(configs, name.as_str()) {
        Some(i) => {
            proof {
                assert forall|j: int| 0 <= j < i implies cv[j].0 != kv by {
                    assert(configs@[j].0@ != kv);
                }
                lemma_config_insert_at(cv, kv, ev, i as int);
            }
            configs.set(i, (name, config));
            assert(configs_view(configs@) =~= cv.update(i as int, (kv, ev)));
        },
        None => {
            proof {
                assert forall|j: int| 0 <= j < cv.len() implies cv[j].0 != kv by {
                    assert(configs@[j].0@ != kv);
                }
                lemma_config_insert_at(cv, kv, ev, cv.len() as int);
            }
            configs.push((name, config));
            assert(configs_view(configs@) =~= cv.push((kv, ev)));
        },
    }
}

/// Whether a plugin is enabled by the settings.
pub fn is_plugin_enabled(configs: &Vec<(String, PluginConfig)>, name: &str) -> (res: bool)
    ensures
        res == plugin_enabled(configs_view(configs@), name@),
{
    let ghost cv = configs_view(configs@);
    let mut i: usize = 0;
    assert(cv.skip(0) =~= cv);
    while i < configs.len()
        invariant
            i <= configs@.len(),
            cv == configs_view(configs@),
            plugin_enabled(cv, name@) == plugin_enabled(cv.skip(i as int), name@),
        decreases configs.len() - i,
    {
        assert(cv.skip(i as int)[0] == cv[i as int]);
        if str_eq(configs[i].0.as_str(), name) {
            return configs[i].1.enabled;
        }
        assert(cv.skip(i as int).skip(1) =~= cv.skip(i + 1));
        i += 1;
    }
    false
}

/// Whether a plugin runs for a hook: enabled and handling it.
pub fn runs_for_hook(configs: &Vec<(String, PluginConfig)>, name: &str, handles_hook: bool) -> (res: bool)
    ensures
        res == (plugin_enabled(configs_view(configs@), name@) && handles_hook),
{
    is_plugin_enabled(configs, name) && handles_hook
}

/// The message recorded for a plugin that failed.
pub fn plugin_error_message(error: &str) -> (res: String)
    ensures
        res@ == "Plugin error: "@ + error@,
{
    let mut m = String::new();
    push_str(&mut m, "Plugin error: ");
    push_str(&mut m, error);
    m
}


// ---------------------------------------------------------------------------
// The manager
// ---------------------------------------------------------------------------

/// The registered names of the plugins.
pub open spec fn names_view<P: ?Sized>(plugins: Seq<(String, Box<P>)>) -> Seq<Seq<char>> {
    plugins.map_values(|e: (String, Box<P>)| e.0@)
}

/// The positions of the plugins whose names the settings enable, in order.
pub open spec fn enabled_positions(names: Seq<Seq<char>>, configs: Seq<(Seq<char>, bool)>) -> Seq<int>
    decreases names.len(),
{
    if names.len() == 0 {
        Seq::empty()
    } else {
        let rest = enabled_positions(names.drop_last(), configs);
        if plugin_enabled(configs, names.last()) {
            rest.push(names.len() - 1)
        } else {
            rest
        }
    }
}

/// The positions of the plugins that run for a hook, given each plugin's
/// answer to whether it handles it: enabled and handling it, in order.
pub open spec fn hook_positions(names: Seq<Seq<char>>, configs: Seq<(Seq<char>, bool)>, handles: Seq<bool>) -> Seq<int>
    decreases names.len(),
{
    if names.len() == 0 {
        Seq::empty()
    } else {
        let n = names.len() - 1;
        let rest = hook_positions(names.drop_last(), configs, handles);
        if plugin_enabled(configs, names.last()) && handles[n] {
            rest.push(n)
        } else {
            rest
        }
    }
}

proof fn lemma_enabled_step(names: Seq<Seq<char>>, configs: Seq<(Seq<char>, bool)>, i: int)
    requires
        0 <= i < names.len(),
    ensures
        enabled_positions(names.take(i + 1), configs) == if plugin_enabled(configs, names[i]) {
            enabled_positions(names.take(i), configs).push(i)
        } else {
            enabled_positions(names.take(i), configs)
        },
{
    assert(names.take(i + 1).drop_last() =~= names.take(i));
}

proof fn lemma_hook_step(names: Seq<Seq<char>>, configs: Seq<(Seq<char>, bool)>, handles: Seq<bool>, i: int)
    requires
        0 <= i < names.len(),
    ensures
        hook_positions(names.take(i + 1), configs, handles) == if plugin_enabled(configs, names[i]) && handles[i] {
            hook_positions(names.take(i), configs, handles).push(i)
        } else {
            hook_positions(names.take(i), configs, handles)
        },
{
    assert(names.take(i + 1).drop_last() =~= names.take(i));
}

proof fn lemma_hook_prefix_handles(names: Seq<Seq<char>>, configs: Seq<(Seq<char>, bool)>, h1: Seq<bool>, h2: Seq<bool>)
    requires
        h1.len() >= names.len(),
        h2.len() >= names.len(),
        forall|k: int| 0 <= k < names.len() ==> h1[k] == h2[k],
    ensures
        hook_positions(names, configs, h1) == hook_positions(names, configs, h2),
    decreases names.len(),
{
    if names.len() > 0 {
        lemma_hook_prefix_handles(names.drop_last(), configs, h1, h2);
    }
}

proof fn lemma_enabled_prefix(names: Seq<Seq<char>>, configs: Seq<(Seq<char>, bool)>, n: int)
    requires
        0 <= n <= names.len(),
    ensures
        enabled_positions(names.take(n), configs).len() <= enabled_positions(names, configs).len(),
    decreases names.len() - n,
{
    if n < names.len() {
        lemma_enabled_prefix(names, configs, n + 1);
        lemma_enabled_step(names, configs, n);
    } else {
        assert(names.take(n) =~= names);
    }
}

/// The message when a plugin cannot be initialized.
pub open spec fn init_failure_text(name: Seq<char>) -> Seq<char> {
    "Failed to initialize plugin '"@ + name + "'"@
}

/// The message when no enabled plugin provides a custom command.
pub open spec fn command_not_found_text(name: Seq<char>) -> Seq<char> {
    "Custom command '"@ + name + "' not found"@
}

/// The message when no enabled plugin provides a custom template.
pub open spec fn template_not_found_text(name: Seq<char>) -> Seq<char> {
    "Custom template '"@ + name + "' not found"@
}

fn quoted_message(before: &str, name: &str, after: &str) -> (res: String)
    ensures
        res@ == before@ + name@ + after@,
{
    let mut m = String::new();
    push_str(&mut m, before);
    push_str(&mut m, name);
    push_str(&mut m, after);
    m
}

/// The result a hook records for a plugin: its answer, or, when it failed,
/// a failed result carrying the error.
pub fn hook_result(outcome: Result<PluginResult, String>) -> (res: PluginResult)
    ensures
        match outcome {
            Ok(r) => res == r,
            Err(e) => !res.success && (res.message matches Some(m) && m@ == "Plugin error: "@ + e@)
                && res.modified_newsletter is None && res.modified_subscribers is None,
        },
{
    match outcome {
        Ok(r) => r,
        Err(e) => PluginResult {
            success: false,
            message: Some(plugin_error_message(e.as_str())),
            data: HashMap::new(),
            modified_newsletter: None,
            modified_subscribers: None,
        },
    }
}

/// Custom commands (or templates) as the plugins offer them: each
/// plugin's name and what it offers.
pub open spec fn offers_view(v: Seq<(String, Vec<String>)>) -> Seq<(Seq<char>, Seq<Seq<char>>)> {
    v.map_values(|e: (String, Vec<String>)| (e.0@, string_views(e.1@)))
}

/// The map after each of `names` is given to `owner`, in turn.
pub open spec fn owned_by(m: Seq<(Seq<char>, Seq<char>)>, names: Seq<Seq<char>>, owner: Seq<char>) -> Seq<(Seq<char>, Seq<char>)>
    decreases names.len(),
{
    if names.len() == 0 {
        m
    } else {
        map_insert(owned_by(m, names.drop_last(), owner), names.last(), owner)
    }
}

/// Who provides each custom command (or template): the offers are taken
/// in turn, so a name offered by several plugins belongs to the last.
pub open spec fn owners(offers: Seq<(Seq<char>, Seq<Seq<char>>)>) -> Seq<(Seq<char>, Seq<char>)>
    decreases offers.len(),
{
    if offers.len() == 0 {
        Seq::empty()
    } else {
        owned_by(owners(offers.drop_last()), offers.last().1, offers.last().0)
    }
}

/// Who provides each custom command (or template), from what each plugin
/// offers, in plugin order.
pub fn command_owners(offers: &Vec<(String, Vec<String>)>) -> (res: Vec<(String, String)>)
    ensures
        fields_view(res@) == owners(offers_view(offers@)),
{
    let ghost ov = offers_view(offers@);
    let mut m: Vec<(String, String)> = Vec::new();
    let mut i: usize = 0;
    proof {
        assert(ov.take(0) =~= Seq::<(Seq<char>, Seq<Seq<char>>)>::empty());
        assert(fields_view(m@) =~= Seq::<(Seq<char>, Seq<char>)>::empty());
    }
    while i < offers.len()
        invariant
            i <= offers@.len(),
            ov == offers_view(offers@),
            fields_view(m@) == owners(ov.take(i as int)),
        decreases offers.len() - i,
    {
        let names = &offers[i].1;
        let ghost base = fields_view(m@);
        let mut j: usize = 0;
        proof {
            assert(string_views(names@).take(0) =~= Seq::<Seq<char>>::empty());
        }
        while j < names.len()
            invariant
                i < offers@.len(),
                *names == offers@[i as int].1,
                j <= names@.len(),
                fields_view(m@) == owned_by(base, string_views(names@).take(j as int), offers@[i as int].0@),
            decreases names.len() - j,
        {
            field_insert(&mut m, names[j].clone(), offers[i].0.clone());
            proof {
                assert(string_views(names@).take(j + 1).drop_last() =~= string_views(names@).take(j as int));
            }
            j += 1;
        }
        proof {
            assert(string_views(names@).take(names@.len() as int) =~= string_views(names@));
            assert(ov.take(i + 1).drop_last() =~= ov.take(i as int));
        }
        i += 1;
    }
    proof {
        assert(ov.take(offers@.len() as int) =~= ov);
    }
    m
}

/// Whether a plugin's list offers a name.
pub fn offers_name(names: &Vec<String>, name: &str) -> (res: bool)
    ensures
        res == string_views(names@).contains(name@),
{
    let mut i: usize = 0;
    while i < names.len()
        invariant
            i <= names@.len(),
            forall|j: int| 0 <= j < i ==> names@[j]@ != name@,
        decreases names.len() - i,
    {
        if str_eq(names[i].as_str(), name) {
            assert(string_views(names@)[i as int] == name@);
            return true;
        }
        i += 1;
    }
    assert forall|j: int| 0 <= j < string_views(names@).len() implies string_views(names@)[j] != name@ by {
        assert(names@[j]@ != name@);
    }
    false
}

/// The offers are those of the plugins at positions `e` (below `bound`),
/// in turn, each carrying its plugin's registered name.
pub open spec fn offers_named(offers: Seq<(String, Vec<String>)>, e: Seq<int>, names: Seq<Seq<char>>, bound: int) -> bool {
    &&& offers.len() == e.len()
    &&& forall|k: int| 0 <= k < offers.len() ==> 0 <= #[trigger] e[k] < bound
    &&& forall|k: int| 0 <= k < offers.len() ==> (#[trigger] offers[k]).0@ == names[e[k]]
}

proof fn lemma_offers_push(offers: Seq<(String, Vec<String>)>, e: Seq<int>, names: Seq<Seq<char>>, i: int, entry: (String, Vec<String>))
    requires
        offers_named(offers, e, names, i),
        0 <= i < names.len(),
        entry.0@ == names[i],
    ensures
        offers_named(offers.push(entry), e.push(i), names, i + 1),
{
    let o = offers.push(entry);
    let f = e.push(i);
    assert forall|k: int| 0 <= k < o.len() implies 0 <= #[trigger] f[k] < i + 1 by {
        if k < offers.len() {
            assert(f[k] == e[k]);
        }
    }
    assert forall|k: int| 0 <= k < o.len() implies (#[trigger] o[k]).0@ == names[f[k]] by {
        if k < offers.len() {
            assert(o[k] == offers[k]);
            assert(f[k] == e[k]);
        }
    }
}

proof fn lemma_offers_widen(offers: Seq<(String, Vec<String>)>, e: Seq<int>, names: Seq<Seq<char>>, i: int)
    requires
        offers_named(offers, e, names, i),
    ensures
        offers_named(offers, e, names, i + 1),
{
}

/// Registers plugins and calls them. `D` is the type of the subscriber
/// database; `P` the type of the plugins, `dyn NewsletterPlugin<D>` to
/// hold plugins of different types. Each plugin is kept with the name its
/// metadata gave when it was registered.
pub struct PluginManager<D, P: NewsletterPlugin<D> + ?Sized> {
    pub plugins: Vec<(String, Box<P>)>,
    /// Plugin settings by name, each name once.
    pub plugin_configs: Vec<(String, PluginConfig)>,
    pub project_root: PathBuf,
    pub database_type: PhantomData<D>,
}

impl<D, P: NewsletterPlugin<D> + ?Sized> PluginManager<D, P> {
    /// A manager with no plugins and no settings.
    pub fn new(project_root: PathBuf) -> (res: Self)
        ensures
            res.plugins@.len() == 0,
            res.plugin_configs@.len() == 0,
            res.project_root == project_root,
    {
        PluginManager { plugins: Vec::new(), plugin_configs: Vec::new(), project_root, database_type: PhantomData }
    }

    /// Loads the plugin settings of the site configuration: each entry
    /// sets the settings of its plugin, a later entry for a name winning.
    pub fn load_plugin_configs(&mut self, config: &Config) -> (res: Result<(), String>)
        ensures
            res is Ok,
            configs_view(final(self).plugin_configs@) == configs_loaded(configs_view(old(self).plugin_configs@),
                match config.newsletter.plugins { Some(p) => configs_view(p@), None => Seq::empty() }),
            final(self).plugins@ == old(self).plugins@,
    {
        let ghost before = configs_view(self.plugin_configs@);
        match &config.newsletter.plugins {
            Some(plugins) => {
                let ghost added = configs_view(plugins@);
                let mut i: usize = 0;
                proof {
                    assert(added.take(0) =~= Seq::<(Seq<char>, bool)>::empty());
                }
                while i < plugins.len()
                    invariant
                        i <= plugins@.len(),
                        added == configs_view(plugins@),
                        configs_view(self.plugin_configs@) == configs_loaded(before, added.take(i as int)),
                        self.plugins@ == old(self).plugins@,
                    decreases plugins.len() - i,
                {
                    config_set(&mut self.plugin_configs, plugins[i].0.clone(), plugins[i].1.copy());
                    proof {
                        assert(added.take(i + 1).drop_last() =~= added.take(i as int));
                    }
                    i += 1;
                }
                assert(added.take(plugins@.len() as int) =~= added);
            },
            None => {},
        }
        Ok(())
    }

    /// Registers a plugin under the name its metadata gives: it is
    /// initialized with the settings of that name (settings that leave it
    /// off when there are none) and, if that succeeds, added after the
    /// others.
    pub fn register_plugin(&mut self, plugin: Box<P>) -> (res: Result<(), String>)
        ensures
            final(self).plugin_configs@ == old(self).plugin_configs@,
            match res {
                Ok(()) => final(self).plugins@.len() == old(self).plugins@.len() + 1
                    && final(self).plugins@.take(old(self).plugins@.len() as int) == old(self).plugins@,
                Err(m) => final(self).plugins@ == old(self).plugins@
                    && exists|n: Seq<char>| m@ == init_failure_text(n),
            },
    {
        let name = plugin.metadata().name.clone();
        let mut plugin = plugin;
        let outcome = match find_config(&self.plugin_configs, name.as_str()) {
            Some(i) => plugin.initialize(&self.plugin_configs[i].1),
            None => {
                let off = PluginConfig::disabled();
                plugin.initialize(&off)
            },
        };
        match outcome {
            Ok(()) => {
                let ghost before = self.plugins@;
                self.plugins.push((name, plugin));
                assert(self.plugins@.take(before.len() as int) =~= before);
                Ok(())
            },
            Err(_) => {
                let m = quoted_message("Failed to initialize plugin '", name.as_str(), "'");
                assert(m@ == init_failure_text(name@));
                Err(m)
            },
        }
    }

    /// Runs the plugins for a hook: each plugin that is enabled and
    /// answers that it handles the hook, in order, gives one result (a
    /// failed result when it fails).
    pub fn execute_hook(&self, hook: PluginHook, context: &PluginContext<D>) -> (res: Result<Vec<PluginResult>, String>)
        ensures
            res matches Ok(v) && exists|handles: Seq<bool>| #![trigger hook_positions(names_view(self.plugins@), configs_view(self.plugin_configs@), handles)]
                handles.len() == self.plugins@.len()
                && v@.len() == hook_positions(names_view(self.plugins@), configs_view(self.plugin_configs@), handles).len(),
    {
        let ghost cv = configs_view(self.plugin_configs@);
        let ghost names = names_view(self.plugins@);
        let ghost mut handles: Seq<bool> = Seq::new(self.plugins@.len(), |k: int| false);
        let mut results: Vec<PluginResult> = Vec::new();
        let mut i: usize = 0;
        proof {
            assert(names.take(0) =~= Seq::<Seq<char>>::empty());
        }
        while i < self.plugins.len()
            invariant
                i <= self.plugins@.len(),
                cv == configs_view(self.plugin_configs@),
                names == names_view(self.plugins@),
                handles.len() == self.plugins@.len(),
                results@.len() == hook_positions(names.take(i as int), cv, handles).len(),
            decreases self.plugins.len() - i,
        {
            let ghost old_handles = handles;
            let entry = &self.plugins[i];
            let runs = is_plugin_enabled(&self.plugin_configs, entry.0.as_str()) && entry.1.handles_hook(&hook);
            proof {
                handles = handles.update(i as int, runs);
                lemma_hook_prefix_handles(names.take(i as int), cv, old_handles, handles);
                lemma_hook_step(names, cv, handles, i as int);
                assert(names[i as int] == entry.0@);
            }
            if runs {
                results.push(hook_result(entry.1.execute_hook(context)));
            }
            i += 1;
        }
        proof {
            assert(names.take(names.len() as int) =~= names);
        }
        Ok(results)
    }

    /// What each enabled plugin offers: its custom templates when
    /// `templates` holds, else its custom commands.
    fn enabled_offers(&self, templates: bool) -> (res: Vec<(String, Vec<String>)>)
        ensures
            offers_named(res@, enabled_positions(names_view(self.plugins@), configs_view(self.plugin_configs@)),
                names_view(self.plugins@), self.plugins@.len() as int),
    {
        let ghost cv = configs_view(self.plugin_configs@);
        let ghost names = names_view(self.plugins@);
        let mut offers: Vec<(String, Vec<String>)> = Vec::new();
        let mut i: usize = 0;
        proof {
            assert(names.take(0) =~= Seq::<Seq<char>>::empty());
        }
        while i < self.plugins.len()
            invariant
                i <= self.plugins@.len(),
                cv == configs_view(self.plugin_configs@),
                names == names_view(self.plugins@),
                offers_named(offers@, enabled_positions(names.take(i as int), cv), names, i as int),
            decreases self.plugins.len() - i,
        {
            let ghost e = enabled_positions(names.take(i as int), cv);
            proof {
                lemma_enabled_step(names, cv, i as int);
            }
            let entry = &self.plugins[i];
            if is_plugin_enabled(&self.plugin_configs, entry.0.as_str()) {
                let offered = if templates { entry.1.custom_templates() } else { entry.1.custom_commands() };
                let ghost before = offers@;
                let item = (entry.0.clone(), offered);
                let ghost g = item;
                offers.push(item);
                proof {
                    assert(names[i as int] == entry.0@);
                    assert(offers@ == before.push(g));
                    lemma_offers_push(before, e, names, i as int, g);
                }
            } else {
                proof {
                    lemma_offers_widen(offers@, e, names, i as int);
                }
            }
            i += 1;
        }
        proof {
            assert(names.take(names.len() as int) =~= names);
        }
        offers
    }

    /// Who provides each custom command: every command an enabled plugin
    /// offers, once, belonging to the last enabled plugin that offers it.
    pub fn get_custom_commands(&self) -> (res: Vec<(String, String)>)
        ensures
            exists|offers: Seq<(String, Vec<String>)>| #![trigger offers_view(offers)]
                offers_named(offers, enabled_positions(names_view(self.plugins@), configs_view(self.plugin_configs@)),
                    names_view(self.plugins@), self.plugins@.len() as int)
                && fields_view(res@) == owners(offers_view(offers)),
    {
        let offers = self.enabled_offers(false);
        command_owners(&offers)
    }

    /// Who provides each custom template, as for commands.
    pub fn get_custom_templates(&self) -> (res: Vec<(String, String)>)
        ensures
            exists|offers: Seq<(String, Vec<String>)>| #![trigger offers_view(offers)]
                offers_named(offers, enabled_positions(names_view(self.plugins@), configs_view(self.plugin_configs@)),
                    names_view(self.plugins@), self.plugins@.len() as int)
                && fields_view(res@) == owners(offers_view(offers)),
    {
        let offers = self.enabled_offers(true);
        command_owners(&offers)
    }

    /// Runs a custom command with the first enabled plugin that offers it;
    /// with no enabled plugin the command is not found.
    pub fn execute_custom_command(&self, command: &str, args: &[String], context: &PluginContext<D>) -> (res: Result<PluginResult, String>)
        ensures
            enabled_positions(names_view(self.plugins@), configs_view(self.plugin_configs@)).len() == 0
                ==> (res matches Err(m) && m@ == command_not_found_text(command@)),
    {
        let ghost cv = configs_view(self.plugin_configs@);
        let ghost names = names_view(self.plugins@);
        let mut i: usize = 0;
        proof {
            assert(names.take(0) =~= Seq::<Seq<char>>::empty());
        }
        while i < self.plugins.len()
            invariant
                i <= self.plugins@.len(),
                cv == configs_view(self.plugin_configs@),
                names == names_view(self.plugins@),
                enabled_positions(names.take(i as int), cv).len() <= enabled_positions(names, cv).len(),
            decreases self.plugins.len() - i,
        {
            proof {
                lemma_enabled_step(names, cv, i as int);
                lemma_enabled_prefix(names, cv, i as int + 1);
            }
            let entry = &self.plugins[i];
            if is_plugin_enabled(&self.plugin_configs, entry.0.as_str()) {
                assert(names[i as int] == entry.0@);
                let offered = entry.1.custom_commands();
                if offers_name(&offered, command) {
                    return entry.1.execute_command(command, args, context);
                }
            }
            i += 1;
        }
        Err(quoted_message("Custom command '", command, "' not found"))
    }

    /// Renders a custom template with the first enabled plugin that offers
    /// it; with no enabled plugin the template is not found.
    pub fn render_custom_template(&self, template: &str, newsletter: &Newsletter, context: &PluginContext<D>) -> (res: Result<Newsletter, String>)
        ensures
            enabled_positions(names_view(self.plugins@), configs_view(self.plugin_configs@)).len() == 0
                ==> (res matches Err(m) && m@ == template_not_found_text(template@)),
    {
        let ghost cv = configs_view(self.plugin_configs@);
        let ghost names = names_view(self.plugins@);
        let mut i: usize = 0;
        proof {
            assert(names.take(0) =~= Seq::<Seq<char>>::empty());
        }
        while i < self.plugins.len()
            invariant
                i <= self.plugins@.len(),
                cv == configs_view(self.plugin_configs@),
                names == names_view(self.plugins@),
                enabled_positions(names.take(i as int), cv).len() <= enabled_positions(names, cv).len(),
            decreases self.plugins.len() - i,
        {
            proof {
                lemma_enabled_step(names, cv, i as int);
                lemma_enabled_prefix(names, cv, i as int + 1);
            }
            let entry = &self.plugins[i];
            if is_plugin_enabled(&self.plugin_configs, entry.0.as_str()) {
                assert(names[i as int] == entry.0@);
                let offered = entry.1.custom_templates();
                if offers_name(&offered, template) {
                    return entry.1.render_template(template, newsletter, context);
                }
            }
            i += 1;
        }
        Err(quoted_message("Custom template '", template, "' not found"))
    }

    /// The descriptions of the registered plugins, in order.
    pub fn list_plugins(&self) -> (res: Vec<&PluginMetadata>)
        ensures
            res@.len() == self.plugins@.len(),
    {
        let mut out: Vec<&PluginMetadata> = Vec::new();
        let mut i: usize = 0;
        while i < self.plugins.len()
            invariant
                i <= self.plugins@.len(),
                out@.len() == i,
            decreases self.plugins.len() - i,
        {
            out.push(self.plugins[i].1.metadata());
            i += 1;
        }
        out
    }

    /// The first plugin registered under the given name.
    pub fn get_plugin(&self, name: &str) -> (res: Option<&P>)
        ensures
            match res {
                Some(p) => exists|i: int| 0 <= i < self.plugins@.len() && self.plugins@[i].0@ == name@
                    && (forall|j: int| 0 <= j < i ==> self.plugins@[j].0@ != name@)
                    && p == &*self.plugins@[i].1,
                None => forall|i: int| 0 <= i < self.plugins@.len() ==> self.plugins@[i].0@ != name@,
            },
    {
        let mut i: usize = 0;
        while i < self.plugins.len()
            invariant
                i <= self.plugins@.len(),
                forall|j: int| 0 <= j < i ==> self.plugins@[j].0@ != name@,
            decreases self.plugins.len() - i,
        {
            if str_eq(self.plugins[i].0.as_str(), name) {
                return Some(&*self.plugins[i].1);
            }
            i += 1;
        }
        None
    }
}

/// The context a plugin hook is handed.
pub fn create_plugin_context<D>(
    config: Arc<Config>,
    database: Arc<D>,
    project_root: PathBuf,
    hook: PluginHook,
    data: HashMap<String, serde_json::Value>,
) -> (res: PluginContext<D>)
    ensures
        res.config == config,
        res.database == database,
        res.project_root == project_root,
        res.hook == hook,
        res.data == data,
{
    PluginContext { config, database, project_root, hook, data }
}

} // verus!
