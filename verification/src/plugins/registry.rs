//! The registry of installed plugins: an ordered list of records, looked up
//! by plugin name (the first record with that name) and by command.

use vstd::prelude::*;
use crate::plugins::{InstalledPlugin, InstalledPluginView};
use crate::seqs::{first_where, lemma_first_where, lemma_first_where_at, lemma_first_where_none};
use crate::text::str_eq;

verus! {

/// The list of installed-plugin records kept in `registry.toml`.
#[derive(Debug)]
pub struct PluginRegistry {
    pub plugins: Vec<InstalledPlugin>,
}

impl View for PluginRegistry {
    type V = Seq<InstalledPluginView>;

    open spec fn view(&self) -> Seq<InstalledPluginView> {
        self.plugins@.map_values(|p: InstalledPlugin| p@)
    }
}

impl Default for PluginRegistry {
    fn default() -> (res: PluginRegistry)
        ensures
            res@ == Seq::<InstalledPluginView>::empty(),
    {
        let res = PluginRegistry { plugins: Vec::new() };
        assert(res@ =~= Seq::<InstalledPluginView>::empty());
        res
    }
}

/// The predicate "has the name `n`".
pub open spec fn named(n: Seq<char>) -> spec_fn(InstalledPluginView) -> bool {
    |p: InstalledPluginView| p.name == n
}

/// The first record named `n`.
pub open spec fn lookup(s: Seq<InstalledPluginView>, n: Seq<char>) -> Option<InstalledPluginView> {
    match first_where(s, named(n)) {
        Some(i) => Some(s[i]),
        None => None,
    }
}

/// The record `old` brought up to date from `new`: name and scope kept,
/// version, installed flag, commands and check time taken from `new`.
pub open spec fn refreshed(old: InstalledPluginView, new: InstalledPluginView) -> InstalledPluginView {
    InstalledPluginView {
        name: old.name,
        scope: old.scope,
        version: new.version,
        installed: new.installed,
        commands: new.commands,
        last_checked: new.last_checked,
    }
}

/// Registry after recording `p`: the first record of the same name is
/// refreshed from `p`, or `p` is appended when there is none.
pub open spec fn add_spec(s: Seq<InstalledPluginView>, p: InstalledPluginView) -> Seq<InstalledPluginView> {
    match first_where(s, named(p.name)) {
        Some(i) => s.update(i, refreshed(s[i], p)),
        None => s.push(p),
    }
}

/// Registry without every record named `n`, the others in order.
pub open spec fn without_named(s: Seq<InstalledPluginView>, n: Seq<char>) -> Seq<InstalledPluginView>
    decreases s.len(),
{
    if s.len() == 0 {
        s
    } else if s[0].name == n {
        without_named(s.drop_first(), n)
    } else {
        seq![s[0]] + without_named(s.drop_first(), n)
    }
}

/// The predicate "is installed and provides the command `cmd`".
pub open spec fn serves(cmd: Seq<char>) -> spec_fn(InstalledPluginView) -> bool {
    |p: InstalledPluginView| p.installed && p.commands.contains(cmd)
}

/// The first installed record that provides `cmd`.
pub open spec fn provider(s: Seq<InstalledPluginView>, cmd: Seq<char>) -> Option<InstalledPluginView> {
    match first_where(s, serves(cmd)) {
        Some(i) => Some(s[i]),
        None => None,
    }
}

/// No two records share a name.
pub open spec fn unique_names(s: Seq<InstalledPluginView>) -> bool {
    forall|i: int, j: int| 0 <= i < j < s.len() ==> s[i].name != s[j].name
}

/// Index of the first record named `name`.
fn index_of_name(plugins: &Vec<InstalledPlugin>, name: &String) -> (res: Option<usize>)
    ensures
        match res {
            Some(i) => i < plugins@.len() && first_where(plugins@.map_values(|p: InstalledPlugin| p@), named(name@)) == Some(i as int),
            None => first_where(plugins@.map_values(|p: InstalledPlugin| p@), named(name@)) is None,
        },
{
    let ghost s = plugins@.map_values(|p: InstalledPlugin| p@);
    let n = plugins.len();
    let mut i: usize = 0;
    while i < n
        invariant
            n == plugins@.len(),
            s == plugins@.map_values(|p: InstalledPlugin| p@),
            i <= n,
            forall|j: int| 0 <= j < i ==> !named(name@)(s[j]),
        decreases n - i,
    {
        if plugins[i].name == *name {
            proof {
                lemma_first_where_at(s, named(name@), i as int);
            }
            return Some(i);
        }
        i = i + 1;
    }
    proof {
        lemma_first_where_none(s, named(name@));
    }
    None
}

/// Records `plugin`: the first record of the same name is brought up to date
/// from it (its scope kept), or it is appended when there is none.
pub fn add_plugin(registry: &mut PluginRegistry, plugin: InstalledPlugin)
    ensures
        final(registry)@ == add_spec(old(registry)@, plugin@),
{
    let ghost s = registry@;
    let ghost p = plugin@;
    match index_of_name(&registry.plugins, &plugin.name) {
        Some(i) => {
            let name = registry.plugins[i].name.clone();
            let scope = registry.plugins[i].scope.clone();
            let updated = InstalledPlugin {
                name,
                scope,
                version: plugin.version,
                installed: plugin.installed,
                commands: plugin.commands,
                last_checked: plugin.last_checked,
            };
            assert(updated@ == refreshed(s[i as int], p));
            registry.plugins.set(i, updated);
            assert(registry@ =~= s.update(i as int, refreshed(s[i as int], p)));
        },
        None => {
            registry.plugins.push(plugin);
            assert(registry@ =~= s.push(p));
        },
    }
}

/// Drops every record named `name`, keeping the others in order.
pub fn remove_plugin(registry: &mut PluginRegistry, name: &str)
    ensures
        final(registry)@ == without_named(old(registry)@, name@),
{
    let ghost orig = registry@;
    let mut rest: Vec<InstalledPlugin> = Vec::new();
    std::mem::swap(&mut rest, &mut registry.plugins);
    let mut kept: Vec<InstalledPlugin> = Vec::new();
    assert(kept@.map_values(|p: InstalledPlugin| p@) + without_named(rest@.map_values(|p: InstalledPlugin| p@), name@) =~= orig.subrange(0, 0) + without_named(orig, name@));
    while rest.len() > 0
        invariant
            kept@.map_values(|p: InstalledPlugin| p@) + without_named(rest@.map_values(|p: InstalledPlugin| p@), name@)
                == without_named(orig, name@),
        decreases rest@.len(),
    {
        let ghost rv = rest@.map_values(|p: InstalledPlugin| p@);
        let ghost kv = kept@.map_values(|p: InstalledPlugin| p@);
        let p = rest.remove(0);
        assert(rest@.map_values(|p: InstalledPlugin| p@) =~= rv.drop_first());
        assert(rv[0] == p@);
        if !str_eq(p.name.as_str(), name) {
            kept.push(p);
            assert(kept@.map_values(|p: InstalledPlugin| p@) =~= kv.push(p@));
            assert(without_named(rv, name@) == seq![p@] + without_named(rv.drop_first(), name@));
            assert(kv.push(p@) + without_named(rv.drop_first(), name@) =~= kv + (seq![p@] + without_named(rv.drop_first(), name@)));
        }
    }
    assert(rest@.map_values(|p: InstalledPlugin| p@) =~= Seq::<InstalledPluginView>::empty());
    assert(kept@.map_values(|p: InstalledPlugin| p@) =~= without_named(orig, name@));
    registry.plugins = kept;
}

/// The first record named `name`, taken out of the registry.
pub fn get_plugin(registry: PluginRegistry, name: &str) -> (res: Option<InstalledPlugin>)
    ensures
        match res {
            Some(p) => lookup(registry@, name@) == Some(p@),
            None => lookup(registry@, name@) is None,
        },
{
    let ghost s = registry@;
    let key = String::from_str(name);
    match index_of_name(&registry.plugins, &key) {
        Some(i) => {
            let mut plugins = registry.plugins;
            let p = plugins.swap_remove(i);
            assert(s[i as int] == p@);
            Some(p)
        },
        None => None,
    }
}

/// All records, in registry order.
pub fn list_plugins(registry: PluginRegistry) -> (res: Vec<InstalledPlugin>)
    ensures
        res@.map_values(|p: InstalledPlugin| p@) == registry@,
{
    registry.plugins
}

/// Whether the plugin record lists `command` among its commands.
pub fn provides_command(p: &InstalledPlugin, command: &str) -> (res: bool)
    ensures
        res == p@.commands.contains(command@),
{
    let ghost cs = p@.commands;
    let n = p.commands.len();
    let mut j: usize = 0;
    while j < n
        invariant
            n == p.commands@.len(),
            cs == p.commands@.map_values(|c: String| c@),
            j <= n,
            forall|k: int| 0 <= k < j ==> cs[k] != command@,
        decreases n - j,
    {
        if str_eq(p.commands[j].as_str(), command) {
            assert(cs[j as int] == command@);
            return true;
        }
        j = j + 1;
    }
    false
}

/// The first installed record that provides `command`, taken out of the registry.
pub fn find_plugin_for_command(registry: PluginRegistry, command: &str) -> (res: Option<InstalledPlugin>)
    ensures
        match res {
            Some(p) => provider(registry@, command@) == Some(p@),
            None => provider(registry@, command@) is None,
        },
{
    let ghost s = registry@;
    let mut plugins = registry.plugins;
    let n = plugins.len();
    let mut i: usize = 0;
    while i < n
        invariant
            n == plugins@.len(),
            s == registry@,
            s == plugins@.map_values(|p: InstalledPlugin| p@),
            i <= n,
            forall|j: int| 0 <= j < i ==> !serves(command@)(s[j]),
        decreases n - i,
    {
        if plugins[i].installed && provides_command(&plugins[i], command) {
            proof {
                lemma_first_where_at(s, serves(command@), i as int);
            }
            let ghost before = plugins@;
            let p = plugins.swap_remove(i);
            assert(s[i as int] == before[i as int]@);
            return Some(p);
        }
        i = i + 1;
    }
    proof {
        lemma_first_where_none(s, serves(command@));
    }
    None
}


/// `lookup` at the head of a non-empty registry.
pub proof fn lemma_lookup_cons(s: Seq<InstalledPluginView>, n: Seq<char>)
    requires
        s.len() > 0,
    ensures
        lookup(s, n) == if s[0].name == n { Some(s[0]) } else { lookup(s.drop_first(), n) },
{
    if s[0].name != n {
        match first_where(s.drop_first(), named(n)) {
            Some(i) => {
                lemma_first_where(s.drop_first(), named(n));
                assert(s.drop_first()[i] == s[i + 1]);
            },
            None => {},
        }
    }
}

/// After recording `p`, looking up its name finds `p`, or the record it
/// refreshed.
pub proof fn lemma_lookup_after_add(s: Seq<InstalledPluginView>, p: InstalledPluginView)
    ensures
        lookup(add_spec(s, p), p.name) == Some(
            match lookup(s, p.name) {
                Some(q) => refreshed(q, p),
                None => p,
            },
        ),
{
    let f = named(p.name);
    lemma_first_where(s, f);
    match first_where(s, f) {
        Some(i) => {
            let t = s.update(i, refreshed(s[i], p));
            assert forall|j: int| 0 <= j < i implies !f(t[j]) by {
                assert(t[j] == s[j]);
            }
            lemma_first_where_at(t, f, i);
        },
        None => {
            let t = s.push(p);
            assert forall|j: int| 0 <= j < s.len() implies !f(t[j]) by {
                assert(t[j] == s[j]);
            }
            lemma_first_where_at(t, f, s.len() as int);
        },
    }
}

/// Recording `p` leaves the lookup of every other name unchanged.
pub proof fn lemma_lookup_add_other(s: Seq<InstalledPluginView>, p: InstalledPluginView, m: Seq<char>)
    requires
        m != p.name,
    ensures
        lookup(add_spec(s, p), m) == lookup(s, m),
{
    let f = named(p.name);
    let g = named(m);
    let t = add_spec(s, p);
    lemma_first_where(s, f);
    lemma_first_where(s, g);
    assert(t.len() >= s.len());
    assert forall|j: int| 0 <= j < t.len() implies (t[j].name == m) == (j < s.len() && s[j].name == m) by {
        match first_where(s, f) {
            Some(i) => {
                if j != i {
                    assert(t[j] == s[j]);
                }
            },
            None => {
                if j < s.len() {
                    assert(t[j] == s[j]);
                }
            },
        }
    }
    match first_where(s, g) {
        Some(k) => {
            assert forall|j: int| 0 <= j < k implies !g(t[j]) by {}
            assert(g(t[k]));
            lemma_first_where_at(t, g, k);
            match first_where(s, f) {
                Some(i) => {
                    assert(k != i);
                    assert(t[k] == s[k]);
                },
                None => {
                    assert(t[k] == s[k]);
                },
            }
        },
        None => {
            assert forall|j: int| 0 <= j < t.len() implies !g(t[j]) by {}
            lemma_first_where_none(t, g);
        },
    }
}

/// After dropping the records named `n`, none is found under `n`, and every
/// other name is found as before.
pub proof fn lemma_lookup_after_remove(s: Seq<InstalledPluginView>, n: Seq<char>, m: Seq<char>)
    ensures
        lookup(without_named(s, n), m) == if m == n { None } else { lookup(s, m) },
    decreases s.len(),
{
    if s.len() == 0 {
    } else {
        let rest = s.drop_first();
        lemma_lookup_after_remove(rest, n, m);
        lemma_lookup_cons(s, m);
        if s[0].name == n {
        } else {
            let w = seq![s[0]] + without_named(rest, n);
            assert(w.drop_first() =~= without_named(rest, n));
            lemma_lookup_cons(w, m);
        }
    }
}

/// Recording the same plugin twice is the same as recording it once.
pub proof fn lemma_add_idempotent(s: Seq<InstalledPluginView>, p: InstalledPluginView)
    ensures
        add_spec(add_spec(s, p), p) == add_spec(s, p),
{
    let f = named(p.name);
    let t = add_spec(s, p);
    lemma_first_where(s, f);
    match first_where(s, f) {
        Some(i) => {
            assert forall|j: int| 0 <= j < i implies !f(t[j]) by {
                assert(t[j] == s[j]);
            }
            lemma_first_where_at(t, f, i);
            assert(refreshed(t[i], p) == t[i]);
            assert(t.update(i, refreshed(t[i], p)) =~= t);
        },
        None => {
            assert forall|j: int| 0 <= j < s.len() implies !f(t[j]) by {
                assert(t[j] == s[j]);
            }
            lemma_first_where_at(t, f, s.len() as int);
            assert(refreshed(t[s.len() as int], p) == t[s.len() as int]);
            assert(t.update(s.len() as int, refreshed(t[s.len() as int], p)) =~= t);
        },
    }
}

/// Recording a plugin keeps the names in the registry distinct.
pub proof fn lemma_add_keeps_names_unique(s: Seq<InstalledPluginView>, p: InstalledPluginView)
    requires
        unique_names(s),
    ensures
        unique_names(add_spec(s, p)),
{
    let f = named(p.name);
    let t = add_spec(s, p);
    lemma_first_where(s, f);
    match first_where(s, f) {
        Some(i) => {
            assert forall|a: int, b: int| 0 <= a < b < t.len() implies t[a].name != t[b].name by {
                assert(t[a].name == s[a].name);
                assert(t[b].name == s[b].name);
            }
        },
        None => {
            assert forall|a: int, b: int| 0 <= a < b < t.len() implies t[a].name != t[b].name by {
                assert(t[a] == s[a]);
                if b < s.len() {
                    assert(t[b] == s[b]);
                }
            }
        },
    }
}

/// Every record left after dropping the name `n` is a record of the given
/// registry and is not named `n`.
pub proof fn lemma_without_named_members(s: Seq<InstalledPluginView>, n: Seq<char>)
    ensures
        forall|k: int| 0 <= k < without_named(s, n).len() ==> (exists|j: int| 0 <= j < s.len() && #[trigger] without_named(s, n)[k] == s[j]),
        forall|k: int| 0 <= k < without_named(s, n).len() ==> (#[trigger] without_named(s, n)[k]).name != n,
    decreases s.len(),
{
    if s.len() > 0 {
        let rest = s.drop_first();
        lemma_without_named_members(rest, n);
        let w = without_named(s, n);
        let wr = without_named(rest, n);
        assert forall|k: int| 0 <= k < w.len() implies (exists|j: int| 0 <= j < s.len() && w[k] == s[j]) && w[k].name != n by {
            if s[0].name == n {
                let j = choose|j: int| 0 <= j < rest.len() && wr[k] == rest[j];
                assert(w[k] == s[j + 1]);
            } else if k == 0 {
                assert(w[0] == s[0]);
            } else {
                assert(w[k] == wr[k - 1]);
                let j = choose|j: int| 0 <= j < rest.len() && wr[k - 1] == rest[j];
                assert(w[k] == s[j + 1]);
            }
        }
    }
}

/// Dropping a name keeps the names in the registry distinct.
pub proof fn lemma_remove_keeps_names_unique(s: Seq<InstalledPluginView>, n: Seq<char>)
    requires
        unique_names(s),
    ensures
        unique_names(without_named(s, n)),
    decreases s.len(),
{
    if s.len() > 0 {
        let rest = s.drop_first();
        assert(unique_names(rest)) by {
            assert forall|a: int, b: int| 0 <= a < b < rest.len() implies rest[a].name != rest[b].name by {
                assert(rest[a] == s[a + 1]);
                assert(rest[b] == s[b + 1]);
            }
        }
        lemma_remove_keeps_names_unique(rest, n);
        if s[0].name != n {
            let wr = without_named(rest, n);
            let w = seq![s[0]] + wr;
            lemma_without_named_members(rest, n);
            assert forall|a: int, b: int| 0 <= a < b < w.len() implies w[a].name != w[b].name by {
                assert(w[b] == wr[b - 1]);
                let j = choose|j: int| 0 <= j < rest.len() && wr[b - 1] == rest[j];
                assert(rest[j] == s[j + 1]);
                if a == 0 {
                    assert(w[a] == s[0]);
                } else {
                    assert(w[a] == wr[a - 1]);
                }
            }
        }
    }
}

} // verus!
