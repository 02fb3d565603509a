//! Installing and updating plugins: release selection, asset names and the
//! records kept for installed plugins.

use vstd::prelude::*;
use crate::commands::manage::has_suffix;
use crate::plugins::{InstalledPlugin, PluginInfo, PluginInfoView, PluginManifest};
use crate::seqs::{first_where, lemma_first_where_at, lemma_first_where_none};
use crate::text::{
    contains, contains_seq, has_prefix, matches_at, starts_with, str_eq, substring, trim_start_char,
    trim_start_matches_char, views,
};

verus! {

/// The plugin repository's GitHub API address.
pub open spec fn api_base() -> Seq<char> {
    "https://api.github.com/repos/proto-cli/plugins"@
}

/// The plugin repository's address.
pub open spec fn repo_base() -> Seq<char> {
    "https://github.com/proto-cli/plugins"@
}

/// The release-build target for an architecture and operating system
/// (64-bit x86 Linux, or Windows on Windows, when there is no build for them).
pub open spec fn platform_spec(arch: Seq<char>, os: Seq<char>) -> Seq<char> {
    if arch == "x86_64"@ && os == "linux"@ {
        "x86_64-unknown-linux-gnu"@
    } else if arch == "aarch64"@ && os == "linux"@ {
        "aarch64-unknown-linux-gnu"@
    } else if arch == "x86_64"@ && os == "macos"@ {
        "x86_64-apple-darwin"@
    } else if arch == "aarch64"@ && os == "macos"@ {
        "aarch64-apple-darwin"@
    } else if arch == "x86_64"@ && os == "windows"@ {
        "x86_64-pc-windows-msvc"@
    } else if os == "windows"@ {
        "x86_64-pc-windows-msvc"@
    } else {
        "x86_64-unknown-linux-gnu"@
    }
}

/// Name of a plugin's release asset: `name-platform`, with `.exe` on Windows.
pub open spec fn asset_name_spec(plugin_name: Seq<char>, arch: Seq<char>, os: Seq<char>) -> Seq<char> {
    plugin_name + "-"@ + platform_spec(arch, os) + if os == "windows"@ { ".exe"@ } else { Seq::empty() }
}

/// The operating-system part of a plugin build's platform.
pub open spec fn os_platform(os: Seq<char>) -> Seq<char> {
    if os == "linux"@ {
        "unknown-linux-gnu"@
    } else if os == "macos"@ {
        "apple-darwin"@
    } else {
        "pc-windows-msvc"@
    }
}

/// Whether plugins are built for the pair: x86_64 or aarch64 on linux and
/// macos, and x86_64 on windows.
pub open spec fn has_plugin_build(arch: Seq<char>, os: Seq<char>) -> bool {
    ||| (arch == "x86_64"@ || arch == "aarch64"@) && (os == "linux"@ || os == "macos"@)
    ||| arch == "x86_64"@ && os == "windows"@
}

/// The asset looked for names the machine it is for: on a pair with a
/// plugin build, a plugin's asset is its name, a dash, the architecture, a
/// dash and the system's part, with `.exe` on windows (an ARM Linux machine
/// asks for `name-aarch64-unknown-linux-gnu`).
pub proof fn lemma_asset_names_the_platform(name: Seq<char>, arch: Seq<char>, os: Seq<char>)
    requires
        has_plugin_build(arch, os),
    ensures
        asset_name_spec(name, arch, os) == name + "-"@ + arch + "-"@ + os_platform(os)
            + if os == "windows"@ { ".exe"@ } else { Seq::empty() },
{
    reveal_strlit("x86_64");
    reveal_strlit("aarch64");
    reveal_strlit("linux");
    reveal_strlit("macos");
    reveal_strlit("windows");
    reveal_strlit("-");
    reveal_strlit("unknown-linux-gnu");
    reveal_strlit("apple-darwin");
    reveal_strlit("pc-windows-msvc");
    reveal_strlit("x86_64-unknown-linux-gnu");
    reveal_strlit("aarch64-unknown-linux-gnu");
    reveal_strlit("x86_64-apple-darwin");
    reveal_strlit("aarch64-apple-darwin");
    reveal_strlit("x86_64-pc-windows-msvc");
    assert("x86_64"@[0] != "aarch64"@[0]);
    assert("linux"@[0] != "macos"@[0]);
    assert("linux"@[0] != "windows"@[0]);
    assert("macos"@[0] != "windows"@[0]);
    let plat = arch + "-"@ + os_platform(os);
    if arch == "x86_64"@ {
        if os == "linux"@ {
            assert("x86_64-unknown-linux-gnu"@ =~= plat);
        } else if os == "macos"@ {
            assert("x86_64-apple-darwin"@ =~= plat);
        } else {
            assert("x86_64-pc-windows-msvc"@ =~= plat);
        }
    } else {
        if os == "linux"@ {
            assert("aarch64-unknown-linux-gnu"@ =~= plat);
        } else {
            assert("aarch64-apple-darwin"@ =~= plat);
        }
    }
    assert(platform_spec(arch, os) == plat);
    assert(asset_name_spec(name, arch, os) =~= name + "-"@ + plat
        + if os == "windows"@ { ".exe"@ } else { Seq::empty() });
}

fn platform(arch: &str, os: &str) -> (res: &'static str)
    ensures
        res@ == platform_spec(arch@, os@),
{
    let x86 = str_eq(arch, "x86_64");
    let arm = str_eq(arch, "aarch64");
    let linux = str_eq(os, "linux");
    let macos = str_eq(os, "macos");
    let windows = str_eq(os, "windows");
    if x86 && linux {
        "x86_64-unknown-linux-gnu"
    } else if arm && linux {
        "aarch64-unknown-linux-gnu"
    } else if x86 && macos {
        "x86_64-apple-darwin"
    } else if arm && macos {
        "aarch64-apple-darwin"
    } else if x86 && windows {
        "x86_64-pc-windows-msvc"
    } else if windows {
        "x86_64-pc-windows-msvc"
    } else {
        "x86_64-unknown-linux-gnu"
    }
}

/// Name of the release asset of `plugin_name` for the given architecture and
/// operating system (as `std::env::consts` names them).
pub fn asset_name_for_platform(plugin_name: &str, arch: &str, os: &str) -> (res: String)
    ensures
        res@ == asset_name_spec(plugin_name@, arch@, os@),
{
    let mut s = String::from_str(plugin_name);
    s.append("-");
    s.append(platform(arch, os));
    if str_eq(os, "windows") {
        s.append(".exe");
    } else {
        assert(s@ =~= s@ + Seq::<char>::empty());
    }
    s
}

/// The owner and repository of a GitHub repository address: what follows
/// `https://github.com/`, `http://github.com/` or `github.com/` at its start,
/// without one trailing `/` and then without a trailing `.git`; `None` for
/// an address that starts with none of them.
pub open spec fn github_repo_path(repo: Seq<char>) -> Option<Seq<char>> {
    let rest = if has_prefix(repo, "https://github.com/"@) {
        Some(repo.skip("https://github.com/"@.len() as int))
    } else if has_prefix(repo, "http://github.com/"@) {
        Some(repo.skip("http://github.com/"@.len() as int))
    } else if has_prefix(repo, "github.com/"@) {
        Some(repo.skip("github.com/"@.len() as int))
    } else {
        None
    };
    match rest {
        Some(r) => Some(drop_suffix(drop_suffix(r, "/"@), ".git"@)),
        None => None,
    }
}

/// `s` without `p` at its end, when it ends with `p`.
pub open spec fn drop_suffix(s: Seq<char>, p: Seq<char>) -> Seq<char> {
    if has_suffix(s, p) {
        s.take(s.len() - p.len())
    } else {
        s
    }
}

/// The GitHub API address of a custom repository: for a GitHub repository
/// address, the API prefix followed by its owner and repository; any other
/// address is kept as it is.
pub open spec fn repo_api_address(repo: Seq<char>) -> Seq<char> {
    match github_repo_path(repo) {
        Some(path) => "https://api.github.com/repos/"@ + path,
        None => repo,
    }
}

/// `s` without the prefix `p`, when it starts with `p`.
fn strip_prefix_text(s: &str, p: &str) -> (res: Option<String>)
    ensures
        match res {
            Some(r) => has_prefix(s@, p@) && r@ == s@.skip(p@.len() as int),
            None => !has_prefix(s@, p@),
        },
{
    if starts_with(s, p) {
        Some(substring(s, p.unicode_len(), s.unicode_len()))
    } else {
        None
    }
}

/// `s` without `p` at its end, when it ends with `p`.
fn drop_suffix_text(s: &str, p: &str) -> (res: String)
    ensures
        res@ == drop_suffix(s@, p@),
{
    let n = s.unicode_len();
    let m = p.unicode_len();
    if m <= n && matches_at(s, p, n - m) {
        assert(s@.skip(s@.len() - p@.len()) =~= s@.subrange(n - m, n as int));
        substring(s, 0, n - m)
    } else {
        proof {
            if has_suffix(s@, p@) {
                assert(s@.skip(s@.len() - p@.len()) =~= s@.subrange(n - m, n as int));
            }
        }
        String::from_str(s)
    }
}

/// The GitHub API address of a custom repository.
pub fn repo_api_url(repo: &str) -> (res: String)
    ensures
        res@ == repo_api_address(repo@),
{
    let rest = match strip_prefix_text(repo, "https://github.com/") {
        Some(r) => Some(r),
        None => match strip_prefix_text(repo, "http://github.com/") {
            Some(r) => Some(r),
            None => strip_prefix_text(repo, "github.com/"),
        },
    };
    match rest {
        Some(r) => {
            let no_slash = drop_suffix_text(r.as_str(), "/");
            let path = drop_suffix_text(no_slash.as_str(), ".git");
            let mut url = String::from_str("https://api.github.com/repos/");
            url.append(path.as_str());
            url
        },
        None => String::from_str(repo),
    }
}

/// The suffix of a latest-release address.
pub open spec fn latest_suffix() -> Seq<char> {
    "/releases/latest"@
}

/// The custom repositories' release addresses, in order, leaving out those
/// whose API address already holds `/releases/latest`.
pub open spec fn custom_release_urls(repos: Seq<Seq<char>>) -> Seq<Seq<char>>
    decreases repos.len(),
{
    if repos.len() == 0 {
        Seq::empty()
    } else {
        let r = custom_release_urls(repos.drop_last());
        let api = repo_api_address(repos.last());
        if contains_seq(api, latest_suffix()) {
            r
        } else {
            r.push(api + latest_suffix())
        }
    }
}

/// Addresses to ask for a plugin's latest release: the plugin repository's
/// first, then the custom repositories'.
pub open spec fn release_urls_spec(custom_repos: Option<Seq<Seq<char>>>) -> Seq<Seq<char>> {
    seq![api_base() + latest_suffix()] + match custom_repos {
        Some(r) => custom_release_urls(r),
        None => Seq::empty(),
    }
}

/// The addresses of the latest-release queries, given the configured custom
/// repositories.
pub fn release_urls(custom_repos: &Option<Vec<String>>) -> (res: Vec<String>)
    ensures
        views(res@) == release_urls_spec(match custom_repos { Some(r) => Some(views(r@)), None => None }),
{
    let mut urls: Vec<String> = Vec::new();
    let mut first = String::from_str("https://api.github.com/repos/proto-cli/plugins");
    first.append("/releases/latest");
    urls.push(first);
    assert(views(urls@) =~= seq![api_base() + latest_suffix()]);
    match custom_repos {
        None => {
            assert(views(urls@) =~= seq![api_base() + latest_suffix()] + Seq::<Seq<char>>::empty());
        },
        Some(repos) => {
            let ghost rv = views(repos@);
            let mut i: usize = 0;
            assert(rv.take(0) =~= Seq::<Seq<char>>::empty());
            assert(views(urls@) =~= seq![api_base() + latest_suffix()] + custom_release_urls(rv.take(0)));
            while i < repos.len()
                invariant
                    rv == views(repos@),
                    i <= repos@.len(),
                    views(urls@) == seq![api_base() + latest_suffix()] + custom_release_urls(rv.take(i as int)),
                decreases repos@.len() - i,
            {
                assert(rv.take(i + 1).drop_last() =~= rv.take(i as int));
                assert(rv.take(i + 1).last() == repos@[i as int]@);
                let api = repo_api_url(repos[i].as_str());
                if !contains(api.as_str(), "/releases/latest") {
                    let ghost before = views(urls@);
                    let mut u = api;
                    u.append("/releases/latest");
                    urls.push(u);
                    assert(views(urls@) =~= before.push(u@));
                }
                i = i + 1;
            }
            assert(rv.take(repos@.len() as int) =~= rv);
        },
    }
    urls
}

/// The predicate "names an asset for `binary`".
pub open spec fn asset_for(binary: Seq<char>) -> spec_fn(Seq<char>) -> bool {
    |asset: Seq<char>| contains_seq(asset, binary)
}

/// Index of the first asset whose name holds `binary_name`.
pub fn find_asset(asset_names: &Vec<String>, binary_name: &str) -> (res: Option<usize>)
    ensures
        match res {
            Some(i) => first_where(views(asset_names@), asset_for(binary_name@)) == Some(i as int),
            None => first_where(views(asset_names@), asset_for(binary_name@)) is None,
        },
{
    let ghost v = views(asset_names@);
    let mut i: usize = 0;
    while i < asset_names.len()
        invariant
            v == views(asset_names@),
            i <= asset_names@.len(),
            forall|j: int| 0 <= j < i ==> !asset_for(binary_name@)(v[j]),
        decreases asset_names@.len() - i,
    {
        if contains(asset_names[i].as_str(), binary_name) {
            proof {
                lemma_first_where_at(v, asset_for(binary_name@), i as int);
            }
            return Some(i);
        }
        i = i + 1;
    }
    proof {
        lemma_first_where_none(v, asset_for(binary_name@));
    }
    None
}

/// Whether a release answer is usable: it has a tag and an asset for the binary.
pub fn release_has_binary(tag: &str, asset_names: &Vec<String>, binary_name: &str) -> (res: bool)
    ensures
        res == (tag@.len() > 0 && first_where(views(asset_names@), asset_for(binary_name@)) is Some),
{
    if tag.unicode_len() == 0 {
        return false;
    }
    match find_asset(asset_names, binary_name) {
        Some(_) => true,
        None => false,
    }
}

/// Whether the installed `version` is the release `tag` (without leading `v`s).
pub fn is_up_to_date(tag: &str, version: &str) -> (res: bool)
    ensures
        res == (trim_start_char(tag@, 'v') == version@),
{
    let latest = trim_start_matches_char(tag, 'v');
    str_eq(latest.as_str(), version)
}

/// The manifest written for a plugin built from source: version 0.1.0, one
/// command named after the plugin, served by `bin/<name>`.
pub fn default_manifest(name: &str, scope: &str) -> (res: PluginManifest)
    ensures
        res.plugin@ == (PluginInfoView {
            name: name@,
            scope: scope@,
            version: "0.1.0"@,
            description: name@ + " plugin for proto"@,
            author: "proto-cli"@,
            repository: repo_base() + "/tree/main/"@ + name@,
            commands: seq![(name@, "bin/"@ + name@)],
        }),
        res.plugin.wf(),
{
    let mut description = String::from_str(name);
    description.append(" plugin for proto");
    let mut repository = String::from_str("https://github.com/proto-cli/plugins/tree/main/");
    repository.append(name);
    proof {
        reveal_strlit("https://github.com/proto-cli/plugins/tree/main/");
        reveal_strlit("https://github.com/proto-cli/plugins");
        reveal_strlit("/tree/main/");
    }
    assert(repository@ =~= repo_base() + "/tree/main/"@ + name@);
    let mut bin = String::from_str("bin/");
    bin.append(name);
    let mut commands: Vec<(String, String)> = Vec::new();
    commands.push((String::from_str(name), bin));
    let info = PluginInfo {
        name: String::from_str(name),
        scope: String::from_str(scope),
        version: String::from_str("0.1.0"),
        description,
        author: String::from_str("proto-cli"),
        repository,
        commands,
    };
    assert(info@.commands =~= seq![(name@, "bin/"@ + name@)]);
    PluginManifest { plugin: info }
}

/// The registry record for a plugin just installed from its manifest:
/// installed, with the manifest's name, version and command names.
pub fn installed_from_info(info: &PluginInfo, scope: &str, last_checked: String) -> (res: InstalledPlugin)
    ensures
        res@.name == info@.name,
        res@.scope == scope@,
        res@.version == info@.version,
        res@.installed,
        res@.commands == info@.commands.map_values(|c: (Seq<char>, Seq<char>)| c.0),
        res@.last_checked == last_checked@,
        info.wf() ==> forall|i: int, j: int| 0 <= i < j < res@.commands.len() ==> res@.commands[i] != res@.commands[j],
{
    let mut commands: Vec<String> = Vec::new();
    let ghost cs = info@.commands.map_values(|c: (Seq<char>, Seq<char>)| c.0);
    let mut i: usize = 0;
    while i < info.commands.len()
        invariant
            i <= info.commands@.len(),
            cs == info@.commands.map_values(|c: (Seq<char>, Seq<char>)| c.0),
            views(commands@) == cs.take(i as int),
        decreases info.commands@.len() - i,
    {
        let ghost before = views(commands@);
        let c = info.commands[i].0.clone();
        assert(c@ == cs[i as int]);
        commands.push(c);
        assert(views(commands@) =~= before.push(c@));
        assert(views(commands@) =~= cs.take(i + 1));
        i = i + 1;
    }
    assert(cs.take(info.commands@.len() as int) =~= cs);
    InstalledPlugin {
        name: info.name.clone(),
        scope: String::from_str(scope),
        version: info.version.clone(),
        installed: true,
        commands,
        last_checked,
    }
}

/// Names of the installed records, in order.
pub open spec fn installed_names_spec(s: Seq<crate::plugins::InstalledPluginView>) -> Seq<Seq<char>>
    decreases s.len(),
{
    if s.len() == 0 {
        Seq::empty()
    } else {
        let r = installed_names_spec(s.drop_last());
        if s.last().installed {
            r.push(s.last().name)
        } else {
            r
        }
    }
}

/// Names of the plugins to update when no plugin is named: the installed ones.
pub fn installed_names(plugins: &Vec<InstalledPlugin>) -> (res: Vec<String>)
    ensures
        views(res@) == installed_names_spec(plugins@.map_values(|p: InstalledPlugin| p@)),
{
    let ghost s = plugins@.map_values(|p: InstalledPlugin| p@);
    let mut names: Vec<String> = Vec::new();
    let mut i: usize = 0;
    assert(s.take(0) =~= Seq::<crate::plugins::InstalledPluginView>::empty());
    while i < plugins.len()
        invariant
            s == plugins@.map_values(|p: InstalledPlugin| p@),
            i <= plugins@.len(),
            views(names@) == installed_names_spec(s.take(i as int)),
        decreases plugins@.len() - i,
    {
        assert(s.take(i + 1).drop_last() =~= s.take(i as int));
        assert(s.take(i + 1).last() == plugins@[i as int]@);
        if plugins[i].installed {
            let ghost before = views(names@);
            names.push(plugins[i].name.clone());
            assert(views(names@) =~= before.push(plugins@[i as int]@.name));
        }
        i = i + 1;
    }
    assert(s.take(plugins@.len() as int) =~= s);
    names
}

} // verus!
