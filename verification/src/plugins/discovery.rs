//! Finding installed plugins among those scanned from the plugins directory.

use vstd::prelude::*;
use crate::plugins::{PluginInfo, PluginInfoView};
use crate::seqs::{first_where, lemma_first_where_at, lemma_first_where_none};
use crate::text::{split_char, split_on_char, str_eq, views};
use crate::utils::{join_path, join_path_spec};

verus! {

/// The last of `pieces` that is neither empty nor `.`, if any.
pub open spec fn last_component(pieces: Seq<Seq<char>>) -> Option<Seq<char>>
    decreases pieces.len(),
{
    if pieces.len() == 0 {
        None
    } else if pieces.last().len() == 0 || pieces.last() == "."@ {
        last_component(pieces.drop_last())
    } else {
        Some(pieces.last())
    }
}

/// The final component of a path, as `Path::file_name` reads a path on
/// Unix: the last piece between `/`s that is neither empty nor `.`; `None`
/// when there is none (an empty path, a root, `.`) or when it is `..`.
pub open spec fn file_name_of(p: Seq<char>) -> Option<Seq<char>> {
    match last_component(split_char(p, '/')) {
        Some(c) => if c == ".."@ { None } else { Some(c) },
        None => None,
    }
}

/// The final component of the path `p`.
pub fn path_file_name(p: &str) -> (res: Option<String>)
    ensures
        match res {
            Some(n) => file_name_of(p@) == Some(n@),
            None => file_name_of(p@) is None,
        },
{
    let pieces = split_on_char(p, '/');
    let ghost v = views(pieces@);
    let mut k: usize = pieces.len();
    assert(v.take(k as int) =~= v);
    while k > 0
        invariant
            v == views(pieces@),
            v == split_char(p@, '/'),
            k <= pieces@.len(),
            last_component(v.take(k as int)) == last_component(v),
        decreases k,
    {
        let piece = pieces[k - 1].as_str();
        assert(v.take(k as int).drop_last() =~= v.take(k - 1));
        assert(v.take(k as int).last() == piece@);
        if piece.unicode_len() > 0 && !str_eq(piece, ".") {
            if str_eq(piece, "..") {
                return None;
            }
            return Some(String::from_str(piece));
        }
        k = k - 1;
    }
    assert(v.take(0) =~= Seq::<Seq<char>>::empty());
    None
}

/// Name of a plugin's binary: the file name of its first command's path,
/// else the plugin's name.
pub open spec fn binary_name_spec(info: PluginInfoView) -> Seq<char> {
    if info.commands.len() > 0 {
        match file_name_of(info.commands[0].1) {
            Some(n) => n,
            None => info.name,
        }
    } else {
        info.name
    }
}

/// Name of the plugin's binary.
pub fn binary_name(info: &PluginInfo) -> (res: String)
    ensures
        res@ == binary_name_spec(info@),
{
    if info.commands.len() > 0 {
        let rel = &info.commands[0].1;
        assert(info@.commands[0].1 == rel@);
        match path_file_name(rel.as_str()) {
            Some(n) => n,
            None => info.name.clone(),
        }
    } else {
        info.name.clone()
    }
}

/// Where a plugin's binary lives: `bin/` under its directory.
pub fn resolve_binary_path(plugin_dir: &str, info: &PluginInfo) -> (res: String)
    ensures
        res@ == join_path_spec(join_path_spec(plugin_dir@, "bin"@), binary_name_spec(info@)),
{
    let bin = join_path(plugin_dir, "bin");
    let name = binary_name(info);
    join_path(bin.as_str(), name.as_str())
}

/// The predicate "the plugin provides the command `cmd`".
pub open spec fn has_command(cmd: Seq<char>) -> spec_fn((PluginInfoView, Seq<char>)) -> bool {
    |e: (PluginInfoView, Seq<char>)| exists|k: int| 0 <= k < e.0.commands.len() && #[trigger] e.0.commands[k].0 == cmd
}

/// The views of scanned plugins with their binaries.
pub open spec fn scanned_views(v: Seq<(PluginInfo, String)>) -> Seq<(PluginInfoView, Seq<char>)> {
    v.map_values(|e: (PluginInfo, String)| (e.0@, e.1@))
}

fn info_has_command(info: &PluginInfo, command: &str) -> (res: Option<usize>)
    ensures
        match res {
            Some(k) => k < info@.commands.len() && info@.commands[k as int].0 == command@,
            None => forall|k: int| 0 <= k < info@.commands.len() ==> info@.commands[k].0 != command@,
        },
{
    let n = info.commands.len();
    let mut k: usize = 0;
    while k < n
        invariant
            n == info.commands@.len(),
            k <= n,
            forall|j: int| 0 <= j < k ==> info@.commands[j].0 != command@,
        decreases n - k,
    {
        if str_eq(info.commands[k].0.as_str(), command) {
            assert(info@.commands[k as int].0 == command@);
            return Some(k);
        }
        k = k + 1;
    }
    None
}

/// The first scanned plugin (with its binary) that provides `command`.
pub fn find_plugin_for_command(scanned: Vec<(PluginInfo, String)>, command: &str) -> (res: Option<(PluginInfo, String)>)
    ensures
        match res {
            Some(e) => match first_where(scanned_views(scanned@), has_command(command@)) {
                Some(i) => scanned_views(scanned@)[i] == (e.0@, e.1@),
                None => false,
            },
            None => first_where(scanned_views(scanned@), has_command(command@)) is None,
        },
{
    let ghost s = scanned_views(scanned@);
    let ghost orig = scanned@;
    let mut plugins = scanned;
    let n = plugins.len();
    let mut i: usize = 0;
    while i < n
        invariant
            n == plugins@.len(),
            plugins@ == orig,
            orig == scanned@,
            s == scanned_views(orig),
            i <= n,
            forall|j: int| 0 <= j < i ==> !has_command(command@)(s[j]),
        decreases n - i,
    {
        let found = info_has_command(&plugins[i].0, command);
        assert(s[i as int] == (plugins@[i as int].0@, plugins@[i as int].1@));
        if let Some(k) = found {
            assert(s[i as int].0.commands[k as int].0 == command@);
            proof {
                lemma_first_where_at(s, has_command(command@), i as int);
            }
            let ghost before = plugins@;
            let e = plugins.swap_remove(i);
            assert(e == before[i as int]);
            assert(s[i as int] == (e.0@, e.1@));
            return Some(e);
        }
        i = i + 1;
    }
    proof {
        lemma_first_where_none(s, has_command(command@));
    }
    None
}

} // verus!
