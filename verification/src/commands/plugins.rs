//! Custom plugin repositories in the configuration.

use vstd::prelude::*;
use crate::plugins::search::contains_name;
use crate::plugins::{PluginInfo, PluginInfoView};
use crate::style::{apply, apply_spec, Theme};
use crate::text::{join, join_seqs, views};
use crate::utils::ProtoConfig;

verus! {

/// A subcommand of `proto plugins`.
#[derive(Debug)]
#[allow(inconsistent_fields)]
pub enum PluginsAction {
    /// List the installed plugins.
    List,
    /// Install a plugin.
    Add { plugin: String },
    /// Remove an installed plugin.
    Remove { plugin: String },
    /// Update one plugin, or all.
    Update { plugin: Option<String> },
    /// Add a custom plugin repository.
    AddRepo { url: String },
}

/// The configured custom repositories (none when unset).
pub open spec fn repos_of(config: ProtoConfig) -> Seq<Seq<char>> {
    match config.custom_repos {
        Some(r) => views(r@),
        None => Seq::empty(),
    }
}

/// Adds `url` to the custom repositories. Returns `false`, leaving the
/// configuration unchanged, when it is already listed; otherwise appends it
/// and returns `true`.
pub fn add_repo(config: &mut ProtoConfig, url: &str) -> (res: bool)
    ensures
        res == !repos_of(*old(config)).contains(url@),
        res ==> repos_of(*final(config)) == repos_of(*old(config)).push(url@),
        res ==> final(config).custom_repos is Some,
        !res ==> *final(config) == *old(config),
        final(config).default_pm == old(config).default_pm,
        final(config).install_dir == old(config).install_dir,
        final(config).color == old(config).color,
        final(config).completions_installed == old(config).completions_installed,
{
    let ghost before = repos_of(*config);
    let present = match &config.custom_repos {
        Some(r) => contains_name(r, url),
        None => false,
    };
    if present {
        return false;
    }
    let mut repos = match config.custom_repos.take() {
        Some(r) => r,
        None => {
            let v: Vec<String> = Vec::new();
            assert(views(v@) =~= Seq::<Seq<char>>::empty());
            v
        },
    };
    assert(views(repos@) == before);
    repos.push(String::from_str(url));
    assert(views(repos@) =~= before.push(url@));
    config.custom_repos = Some(repos);
    true
}

/// A repository is added at most once: once `add_repo` has added `url`, the
/// repositories contain it, so a second `add_repo` of it returns `false` and
/// leaves the configuration unchanged.
pub proof fn lemma_add_repo_once(before: ProtoConfig, after: ProtoConfig, url: Seq<char>)
    requires
        repos_of(after) == repos_of(before).push(url),
    ensures
        repos_of(after).contains(url),
{
    assert(repos_of(after)[repos_of(before).len() as int] == url);
}

/// `text` in the style `t`, always coloured.
pub open spec fn styled(text: Seq<char>, t: Theme) -> Seq<char> {
    apply_spec(text, t, true)
}

/// The three lines describing one installed plugin: `@scope/` and the name
/// with its version, its commands separated by commas, its description.
pub open spec fn plugin_card(info: PluginInfoView) -> Seq<Seq<char>> {
    seq![
        "  "@ + styled("@"@ + info.scope + "/"@, Theme::Accent) + " "@
            + styled(styled(info.name, Theme::Header), Theme::Bold) + " "@
            + styled("v"@ + info.version, Theme::Muted),
        "    "@ + styled("Commands:"@, Theme::Muted) + " "@
            + styled(join_seqs(info.commands.map_values(|c: (Seq<char>, Seq<char>)| c.0), ", "@), Theme::Success),
        "    "@ + styled(info.description, Theme::Muted),
    ]
}

/// The cards of the plugins, in order.
pub open spec fn plugin_cards(infos: Seq<PluginInfoView>) -> Seq<Seq<char>>
    decreases infos.len(),
{
    if infos.len() == 0 {
        Seq::empty()
    } else {
        plugin_cards(infos.drop_last()) + plugin_card(infos.last())
    }
}

/// The listing of the installed plugins: a heading, a blank line, a card
/// per plugin (or a hint to install one when there is none), a blank line,
/// and where to find more plugins.
pub open spec fn plugin_listing_spec(infos: Seq<PluginInfoView>) -> Seq<Seq<char>> {
    seq![styled(styled("Installed Plugins:"@, Theme::Header), Theme::Bold), Seq::empty()]
        + (if infos.len() == 0 {
            seq![
                "  "@ + styled("No plugins installed."@, Theme::Muted),
                "  "@ + styled("Run 'proto plugins add <name>' to install a plugin."@, Theme::Muted),
            ]
        } else {
            plugin_cards(infos)
        })
        + seq![
            Seq::empty(),
            styled(styled("Get more plugins:"@, Theme::Header), Theme::Bold),
            "  "@ + styled("https://github.com/proto-cli/plugins"@, Theme::Muted),
            "  "@ + styled("proto plugins add <name>  - Install a plugin"@, Theme::Muted),
            "  "@ + styled("Community plugins: @username/plugin-name"@, Theme::Muted),
        ]
}

fn strong_heading(text: &str) -> (res: String)
    ensures
        res@ == styled(styled(text@, Theme::Header), Theme::Bold),
{
    apply(apply(text, Theme::Header, true).as_str(), Theme::Bold, true)
}

fn indented_muted(text: &str) -> (res: String)
    ensures
        res@ == "  "@ + styled(text@, Theme::Muted),
{
    let mut l = String::from_str("  ");
    l.append(apply(text, Theme::Muted, true).as_str());
    l
}

fn card_lines(info: &PluginInfo) -> (res: Vec<String>)
    ensures
        views(res@) == plugin_card(info@),
{
    let mut owner = String::from_str("@");
    owner.append(info.scope.as_str());
    owner.append("/");
    let mut version = String::from_str("v");
    version.append(info.version.as_str());
    let mut first = String::from_str("  ");
    first.append(apply(owner.as_str(), Theme::Accent, true).as_str());
    first.append(" ");
    first.append(apply(apply(info.name.as_str(), Theme::Header, true).as_str(), Theme::Bold, true).as_str());
    first.append(" ");
    first.append(apply(version.as_str(), Theme::Muted, true).as_str());

    let ghost names = info@.commands.map_values(|c: (Seq<char>, Seq<char>)| c.0);
    let mut cmds: Vec<String> = Vec::new();
    let mut i: usize = 0;
    while i < info.commands.len()
        invariant
            i <= info.commands@.len(),
            names == info@.commands.map_values(|c: (Seq<char>, Seq<char>)| c.0),
            views(cmds@) == names.take(i as int),
        decreases info.commands@.len() - i,
    {
        let ghost before = views(cmds@);
        cmds.push(info.commands[i].0.clone());
        assert(views(cmds@) =~= before.push(names[i as int]));
        assert(names.take(i + 1) =~= names.take(i as int).push(names[i as int]));
        i = i + 1;
    }
    assert(names.take(info.commands@.len() as int) =~= names);
    let mut second = String::from_str("    ");
    second.append(apply("Commands:", Theme::Muted, true).as_str());
    second.append(" ");
    second.append(apply(join(&cmds, ", ").as_str(), Theme::Success, true).as_str());

    let mut third = String::from_str("    ");
    third.append(apply(info.description.as_str(), Theme::Muted, true).as_str());

    let mut out: Vec<String> = Vec::new();
    out.push(first);
    out.push(second);
    out.push(third);
    assert(views(out@) =~= plugin_card(info@));
    out
}

/// The listing of the installed plugins, one string per line.
pub fn plugin_listing(infos: &Vec<PluginInfo>) -> (res: Vec<String>)
    ensures
        views(res@) == plugin_listing_spec(infos@.map_values(|i: PluginInfo| i@)),
{
    let ghost iv = infos@.map_values(|i: PluginInfo| i@);
    let mut out: Vec<String> = Vec::new();
    out.push(strong_heading("Installed Plugins:"));
    out.push(String::new());
    let ghost head = views(out@);
    assert(head =~= seq![styled(styled("Installed Plugins:"@, Theme::Header), Theme::Bold), Seq::<char>::empty()]);
    if infos.len() == 0 {
        out.push(indented_muted("No plugins installed."));
        out.push(indented_muted("Run 'proto plugins add <name>' to install a plugin."));
        assert(views(out@) =~= head + seq![
            "  "@ + styled("No plugins installed."@, Theme::Muted),
            "  "@ + styled("Run 'proto plugins add <name>' to install a plugin."@, Theme::Muted),
        ]);
    } else {
        let mut k: usize = 0;
        assert(iv.take(0) =~= Seq::<PluginInfoView>::empty());
        assert(views(out@) =~= head + plugin_cards(iv.take(0)));
        while k < infos.len()
            invariant
                iv == infos@.map_values(|i: PluginInfo| i@),
                k <= infos@.len(),
                views(out@) == head + plugin_cards(iv.take(k as int)),
            decreases infos@.len() - k,
        {
            assert(iv.take(k + 1).drop_last() =~= iv.take(k as int));
            assert(iv.take(k + 1).last() == infos@[k as int]@);
            let card = card_lines(&infos[k]);
            let ghost before = views(out@);
            let ghost cv = views(card@);
            let mut j: usize = 0;
            while j < card.len()
                invariant
                    j <= card@.len(),
                    cv == views(card@),
                    views(out@) == before + cv.take(j as int),
                decreases card@.len() - j,
            {
                let ghost prev = views(out@);
                let line = card[j].clone();
                assert(line@ == cv[j as int]);
                out.push(line);
                assert(views(out@) =~= prev.push(cv[j as int]));
                assert(cv.take(j + 1) =~= cv.take(j as int).push(cv[j as int]));
                assert(views(out@) =~= before + cv.take(j + 1));
                j = j + 1;
            }
            assert(cv.take(card@.len() as int) =~= cv);
            assert(views(out@) =~= head + plugin_cards(iv.take(k + 1)));
            k = k + 1;
        }
        assert(iv.take(infos@.len() as int) =~= iv);
    }
    let ghost mid = views(out@);
    out.push(String::new());
    out.push(strong_heading("Get more plugins:"));
    out.push(indented_muted("https://github.com/proto-cli/plugins"));
    out.push(indented_muted("proto plugins add <name>  - Install a plugin"));
    out.push(indented_muted("Community plugins: @username/plugin-name"));
    assert(views(out@) =~= plugin_listing_spec(iv));
    out
}

} // verus!
