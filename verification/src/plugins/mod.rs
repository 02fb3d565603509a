//! Plugins: their manifests, installed-plugin records, references such as
//! `@scope/name`, and where they live under the configuration directory.

pub mod discovery;
pub mod flow;
pub mod install;
pub mod registry;
pub mod search;

use vstd::prelude::*;
use crate::text::{find_char, index_of_char, lemma_find_char, substring};
use crate::utils::{join_path, join_path_spec};

verus! {

/// The `[plugin]` table of a plugin's `plugin.toml`.
///
/// `commands` maps each command name to the binary's path relative to the
/// plugin directory, as the manifest's table does: a well-formed record
/// (`wf`) lists no command name twice.
#[derive(Debug)]
pub struct PluginInfo {
    pub name: String,
    pub scope: String,
    pub version: String,
    pub description: String,
    pub author: String,
    pub repository: String,
    pub commands: Vec<(String, String)>,
}

/// A plugin's `plugin.toml`.
#[derive(Debug)]
pub struct PluginManifest {
    pub plugin: PluginInfo,
}

/// The record of an installed plugin kept in the registry.
#[derive(Debug)]
pub struct InstalledPlugin {
    pub name: String,
    pub scope: String,
    pub version: String,
    pub installed: bool,
    pub commands: Vec<String>,
    pub last_checked: String,
}

/// The mathematical value of an `InstalledPlugin`.
pub struct InstalledPluginView {
    pub name: Seq<char>,
    pub scope: Seq<char>,
    pub version: Seq<char>,
    pub installed: bool,
    pub commands: Seq<Seq<char>>,
    pub last_checked: Seq<char>,
}

impl View for InstalledPlugin {
    type V = InstalledPluginView;

    open spec fn view(&self) -> InstalledPluginView {
        InstalledPluginView {
            name: self.name@,
            scope: self.scope@,
            version: self.version@,
            installed: self.installed,
            commands: self.commands@.map_values(|c: String| c@),
            last_checked: self.last_checked@,
        }
    }
}

/// The mathematical value of a `PluginInfo`.
pub struct PluginInfoView {
    pub name: Seq<char>,
    pub scope: Seq<char>,
    pub version: Seq<char>,
    pub description: Seq<char>,
    pub author: Seq<char>,
    pub repository: Seq<char>,
    pub commands: Seq<(Seq<char>, Seq<char>)>,
}

impl View for PluginInfo {
    type V = PluginInfoView;

    open spec fn view(&self) -> PluginInfoView {
        PluginInfoView {
            name: self.name@,
            scope: self.scope@,
            version: self.version@,
            description: self.description@,
            author: self.author@,
            repository: self.repository@,
            commands: self.commands@.map_values(|c: (String, String)| (c.0@, c.1@)),
        }
    }
}

/// No command name occurs twice among `commands`.
pub open spec fn commands_distinct(commands: Seq<(Seq<char>, Seq<char>)>) -> bool {
    forall|i: int, j: int| 0 <= i < j < commands.len() ==> commands[i].0 != commands[j].0
}

impl PluginInfo {
    /// The record is a table: its command names are distinct.
    pub open spec fn wf(&self) -> bool {
        commands_distinct(self@.commands)
    }
}

/// The scope that a reference without `@scope/` names.
pub open spec fn default_scope() -> Seq<char> {
    "proto"@
}

/// Scope and name of a plugin reference: `@scope/name` gives `scope` and the
/// rest after the first `/`; `@name` and a bare `name` give the scope `proto`.
pub open spec fn plugin_ref_spec(reference: Seq<char>) -> (Seq<char>, Seq<char>) {
    if reference.len() > 0 && reference[0] == '@' {
        let w = reference.drop_first();
        match find_char(w, '/') {
            Some(k) => (w.take(k), w.skip(k + 1)),
            None => (default_scope(), w),
        }
    } else {
        (default_scope(), reference)
    }
}

/// Splits a plugin reference into scope and name.
pub fn parse_plugin_ref(reference: &str) -> (res: (String, String))
    ensures
        (res.0@, res.1@) == plugin_ref_spec(reference@),
{
    let n = reference.unicode_len();
    if n > 0 && reference.get_char(0) == '@' {
        let without_at = substring(reference, 1, n);
        assert(without_at@ =~= reference@.drop_first());
        match index_of_char(without_at.as_str(), '/') {
            Some(k) => {
                proof {
                    lemma_find_char(without_at@, '/');
                }
                let m = without_at.unicode_len();
                let scope = substring(without_at.as_str(), 0, k);
                let name = substring(without_at.as_str(), k + 1, m);
                assert(scope@ =~= without_at@.take(k as int));
                assert(name@ =~= without_at@.skip(k + 1));
                (scope, name)
            },
            None => (String::from_str("proto"), without_at),
        }
    } else {
        (String::from_str("proto"), String::from_str(reference))
    }
}

/// A reference `@scope/name` whose scope holds no `/` is read back as that
/// scope and name.
pub proof fn lemma_plugin_ref_scoped(scope: Seq<char>, name: Seq<char>)
    requires
        forall|i: int| 0 <= i < scope.len() ==> scope[i] != '/',
    ensures
        plugin_ref_spec(seq!['@'] + scope + seq!['/'] + name) == (scope, name),
{
    let r = seq!['@'] + scope + seq!['/'] + name;
    let w = r.drop_first();
    assert(w =~= scope + seq!['/'] + name);
    assert(w[scope.len() as int] == '/');
    assert forall|j: int| 0 <= j < scope.len() implies w[j] != '/' by {
        assert(w[j] == scope[j]);
    }
    lemma_find_char(w, '/');
    match find_char(w, '/') {
        Some(k) => {
            if k < scope.len() {
                assert(w[k] == scope[k]);
            }
            assert(k == scope.len());
            assert(w.take(k) =~= scope);
            assert(w.skip(k + 1) =~= name);
        },
        None => {},
    }
}

/// A reference that does not start with `@` names a plugin of the default scope.
pub proof fn lemma_plugin_ref_unscoped(reference: Seq<char>)
    requires
        reference.len() == 0 || reference[0] != '@',
    ensures
        plugin_ref_spec(reference) == (default_scope(), reference),
{
}

/// Name of a plugin's directory: `scope-name`.
pub open spec fn plugin_dir_name_spec(scope: Seq<char>, name: Seq<char>) -> Seq<char> {
    scope + seq!['-'] + name
}

/// Directory that holds the installed plugins, under the configuration directory.
pub fn plugins_dir(config_dir: &str) -> (res: String)
    ensures
        res@ == join_path_spec(config_dir@, "plugins"@),
{
    join_path(config_dir, "plugins")
}

/// The plugin registry file, under the configuration directory.
pub fn registry_file(config_dir: &str) -> (res: String)
    ensures
        res@ == join_path_spec(config_dir@, "registry.toml"@),
{
    join_path(config_dir, "registry.toml")
}

/// Directory of the plugin `name` of `scope`: `plugins/scope-name`.
pub fn plugin_dir(config_dir: &str, scope: &str, name: &str) -> (res: String)
    ensures
        res@ == join_path_spec(
            join_path_spec(config_dir@, "plugins"@),
            plugin_dir_name_spec(scope@, name@),
        ),
{
    let root = plugins_dir(config_dir);
    let mut dir_name = String::from_str(scope);
    dir_name.append("-");
    dir_name.append(name);
    proof {
        reveal_strlit("-");
    }
    assert(dir_name@ =~= plugin_dir_name_spec(scope@, name@));
    join_path(root.as_str(), dir_name.as_str())
}

} // verus!
