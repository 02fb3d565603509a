//! The help screens.

use vstd::prelude::*;
use crate::plugins::{InstalledPlugin, InstalledPluginView};
use crate::plugins::registry::{provides_command, serves};
use crate::seqs::{first_where, lemma_first_where_at, lemma_first_where_none};
use crate::style::{apply, apply_spec, banner_spec, error, proto_banner, Theme};
use crate::text::{pad_right, pad_right_spec, spec_to_lowercase, str_eq, to_lowercase, views};

verus! {

/// What `proto help` shows.
#[derive(Debug)]
pub enum HelpAction {
    /// The overview of all commands.
    All,
    /// The help of one command.
    For { command: String },
}

/// The commands with a help page of their own.
#[derive(Debug, Clone, Copy, PartialEq, Eq, Structural)]
pub enum HelpTopic {
    Help,
    System,
    Alias,
    Pkg,
    Git,
    Setup,
    Manage,
    Plugins,
    /// Any other command: a plugin's, or an unknown one.
    Other,
}

/// The topic a lower-cased command name names.
pub open spec fn topic_of(lower: Seq<char>) -> HelpTopic {
    if lower == "help"@ { HelpTopic::Help }
    else if lower == "system"@ { HelpTopic::System }
    else if lower == "alias"@ { HelpTopic::Alias }
    else if lower == "pkg"@ { HelpTopic::Pkg }
    else if lower == "git"@ { HelpTopic::Git }
    else if lower == "setup"@ { HelpTopic::Setup }
    else if lower == "manage"@ { HelpTopic::Manage }
    else if lower == "plugins"@ { HelpTopic::Plugins }
    else { HelpTopic::Other }
}

/// The help topic of `command`, compared in lower case.
pub fn help_topic(command: &str) -> (res: HelpTopic)
    ensures
        res == topic_of(spec_to_lowercase(command@)),
{
    let l = to_lowercase(command);
    let s = l.as_str();
    if str_eq(s, "help") { HelpTopic::Help }
    else if str_eq(s, "system") { HelpTopic::System }
    else if str_eq(s, "alias") { HelpTopic::Alias }
    else if str_eq(s, "pkg") { HelpTopic::Pkg }
    else if str_eq(s, "git") { HelpTopic::Git }
    else if str_eq(s, "setup") { HelpTopic::Setup }
    else if str_eq(s, "manage") { HelpTopic::Manage }
    else if str_eq(s, "plugins") { HelpTopic::Plugins }
    else { HelpTopic::Other }
}

/// One line of the command table: two spaces and the name in the accent
/// style, then either ten spaces (no arguments) or a space and the arguments
/// in bold; all that left-aligned in 40 columns, then the description muted.
pub open spec fn command_entry_spec(name: Seq<char>, args: Seq<char>, desc: Seq<char>, color: bool) -> Seq<char> {
    let name_part = if args.len() == 0 {
        "  "@ + apply_spec(name, Theme::Accent, color) + "          "@
    } else {
        "  "@ + apply_spec(name, Theme::Accent, color) + " "@ + apply_spec(args, Theme::Bold, color)
    };
    pad_right_spec(name_part, 40) + apply_spec(desc, Theme::Muted, color)
}

/// One line of the command table.
pub fn command_entry(name: &str, args: &str, desc: &str, color: bool) -> (res: String)
    ensures
        res@ == command_entry_spec(name@, args@, desc@, color),
{
    let mut part = String::from_str("  ");
    part.append(apply(name, Theme::Accent, color).as_str());
    if args.unicode_len() == 0 {
        part.append("          ");
    } else {
        part.append(" ");
        part.append(apply(args, Theme::Bold, color).as_str());
    }
    let mut line = pad_right(part.as_str(), 40);
    line.append(apply(desc, Theme::Muted, color).as_str());
    line
}

/// The plugin commands listed in the overview, as (command, `@scope/name`)
/// pairs: each command of each installed plugin, in order.
pub open spec fn plugin_entries_spec(s: Seq<InstalledPluginView>) -> Seq<(Seq<char>, Seq<char>)>
    decreases s.len(),
{
    if s.len() == 0 {
        Seq::empty()
    } else {
        let r = plugin_entries_spec(s.drop_last());
        let p = s.last();
        if p.installed {
            r + p.commands.map_values(|c: Seq<char>| (c, "@"@ + p.scope + "/"@ + p.name))
        } else {
            r
        }
    }
}

/// The plugin commands listed in the overview.
pub fn plugin_entries(plugins: &Vec<InstalledPlugin>) -> (res: Vec<(String, String)>)
    ensures
        res@.map_values(|e: (String, String)| (e.0@, e.1@)) == plugin_entries_spec(plugins@.map_values(|p: InstalledPlugin| p@)),
{
    let ghost s = plugins@.map_values(|p: InstalledPlugin| p@);
    let mut out: Vec<(String, String)> = Vec::new();
    let mut i: usize = 0;
    assert(s.take(0) =~= Seq::<InstalledPluginView>::empty());
    assert(out@.map_values(|e: (String, String)| (e.0@, e.1@)) =~= Seq::<(Seq<char>, Seq<char>)>::empty());
    while i < plugins.len()
        invariant
            s == plugins@.map_values(|p: InstalledPlugin| p@),
            i <= plugins@.len(),
            out@.map_values(|e: (String, String)| (e.0@, e.1@)) == plugin_entries_spec(s.take(i as int)),
        decreases plugins@.len() - i,
    {
        let p = &plugins[i];
        assert(s.take(i + 1).drop_last() =~= s.take(i as int));
        assert(s.take(i + 1).last() == p@);
        if p.installed {
            let mut owner = String::from_str("@");
            owner.append(p.scope.as_str());
            owner.append("/");
            owner.append(p.name.as_str());
            let ghost start = out@.map_values(|e: (String, String)| (e.0@, e.1@));
            let ghost f = |c: Seq<char>| (c, "@"@ + p@.scope + "/"@ + p@.name);
            let mut k: usize = 0;
            while k < p.commands.len()
                invariant
                    k <= p.commands@.len(),
                    owner@ == "@"@ + p@.scope + "/"@ + p@.name,
                    f == (|c: Seq<char>| (c, "@"@ + p@.scope + "/"@ + p@.name)),
                    out@.map_values(|e: (String, String)| (e.0@, e.1@)) == start + p@.commands.take(k as int).map_values(f),
                decreases p.commands@.len() - k,
            {
                let ghost before = out@.map_values(|e: (String, String)| (e.0@, e.1@));
                let c = p.commands[k].clone();
                out.push((c, owner.clone()));
                assert(out@.map_values(|e: (String, String)| (e.0@, e.1@)) =~= before.push(f(p@.commands[k as int])));
                assert(p@.commands.take(k + 1).map_values(f) =~= p@.commands.take(k as int).map_values(f).push(f(p@.commands[k as int])));
                k = k + 1;
            }
            assert(p@.commands.take(p.commands@.len() as int) =~= p@.commands);
        }
        i = i + 1;
    }
    assert(s.take(plugins@.len() as int) =~= s);
    out
}

/// Indices of the installed plugins that provide `command`, in order: those
/// whose `--help` is shown for it, the first one whose binary is found.
pub fn plugins_serving(plugins: &Vec<InstalledPlugin>, command: &str) -> (res: Vec<usize>)
    ensures
        forall|k: int| 0 <= k < res@.len() ==> res@[k] < plugins@.len() && serves(command@)(plugins@[res@[k] as int]@),
        forall|k: int, l: int| 0 <= k < l < res@.len() ==> res@[k] < res@[l],
        forall|j: int| 0 <= j < plugins@.len() && serves(command@)(plugins@[j]@) ==> res@.contains(j as usize),
{
    let mut out: Vec<usize> = Vec::new();
    let mut i: usize = 0;
    while i < plugins.len()
        invariant
            i <= plugins@.len(),
            forall|k: int| 0 <= k < out@.len() ==> out@[k] < i && serves(command@)(plugins@[out@[k] as int]@),
            forall|k: int, l: int| 0 <= k < l < out@.len() ==> out@[k] < out@[l],
            forall|j: int| 0 <= j < i && serves(command@)(plugins@[j]@) ==> out@.contains(j as usize),
        decreases plugins@.len() - i,
    {
        let p = &plugins[i];
        let provides = p.installed && provides_command(p, command);
        if provides {
            let ghost before = out@;
            out.push(i);
            assert(out@[out@.len() - 1] == i);
            assert forall|j: int| 0 <= j < i + 1 && serves(command@)(plugins@[j]@) implies out@.contains(j as usize) by {
                if j < i {
                    let t = choose|t: int| 0 <= t < before.len() && before[t] == j as usize;
                    assert(out@[t] == j as usize);
                } else {
                    assert(out@[out@.len() - 1] == j as usize);
                }
            }
        } else {
            assert(!serves(command@)(plugins@[i as int]@));
        }
        i = i + 1;
    }
    out
}

/// A heading of a help page: always in the header style.
pub open spec fn heading(title: Seq<char>) -> Seq<char> {
    apply_spec(title, Theme::Header, true)
}

fn push_heading(out: &mut Vec<String>, title: &str)
    ensures
        views(final(out)@) == views(old(out)@).push(heading(title@)),
{
    let ghost before = views(out@);
    out.push(apply(title, Theme::Header, true));
    assert(views(out@) =~= before.push(heading(title@)));
}

fn push_line(out: &mut Vec<String>, line: &str)
    ensures
        views(final(out)@) == views(old(out)@).push(line@),
{
    let ghost before = views(out@);
    out.push(String::from_str(line));
    assert(views(out@) =~= before.push(line@));
}

/// The lines of the help page of a built-in command (none for `Other`).
pub open spec fn command_help_spec(topic: HelpTopic) -> Seq<Seq<char>> {
    match topic {
        HelpTopic::Help => seq![
            heading("proto help"@),
            "  Display help for all commands or a specific command.\n"@,
            heading("USAGE:"@),
            "  proto help              Show general help"@,
            "  proto help <command>    Show help for a command\n"@,
            heading("EXAMPLES:"@),
            "  proto help system       Show system command help"@,
            "  proto help pkg          Show package manager help"@,
        ],
        HelpTopic::System => seq![
            heading("proto system"@),
            "  Display a beautiful overview of your system.\n"@,
            heading("USAGE:"@),
            "  proto system\n"@,
            heading("SHOWS:"@),
            "  OS, kernel, architecture, CPU, RAM, disk usage,"@,
            "  uptime, DE/WM, shell, terminal, and package count."@,
        ],
        HelpTopic::Alias => seq![
            heading("proto alias"@),
            "  Interactive shell alias builder for bash, zsh, and fish.\n"@,
            heading("USAGE:"@),
            "  proto alias create    Build a new alias interactively"@,
            "  proto alias list      Show all Proto-managed aliases"@,
            "  proto alias remove <NAME>  Remove an alias\n"@,
            heading("CREATE FLOW:"@),
            "  1. Enter alias name + command + description"@,
            "  2. Choose target shells (multi-select)"@,
            "  3. Choose permanent (writes to .bashrc/.zshrc/config.fish)"@,
            "     or session-only"@,
        ],
        HelpTopic::Pkg => seq![
            heading("proto pkg"@),
            "  Unified cross-distro package manager wrapper.\n"@,
            heading("USAGE:"@),
            "  proto pkg install <pkg>     Install a package"@,
            "  proto pkg search <query>    Search repositories"@,
            "  proto pkg remove <pkg>      Remove a package"@,
            "  proto pkg update [pkg]      Update all or specific packages"@,
            "  proto pkg list              List installed packages\n"@,
            heading("SUPPORTED:"@),
            "  pacman, yay, paru, apt, dnf, zypper, apk"@,
        ],
        HelpTopic::Git => seq![
            heading("proto git"@),
            "  Git workflow enhancements.\n"@,
            heading("USAGE:"@),
            "  proto git log               Pretty git log with graph"@,
            "  proto git stats             Repository statistics"@,
            "  proto git save <msg>        Quick WIP commit (add all + commit)"@,
            "  proto git undo              Undo last commit (soft reset)"@,
            "  proto git branch            Show branches with info"@,
        ],
        HelpTopic::Setup => seq![
            heading("proto setup"@),
            "  Interactive first-time configuration wizard.\n"@,
            heading("USAGE:"@),
            "  proto setup\n"@,
            heading("CONFIGURES:"@),
            "  Default package manager, color preferences,"@,
            "  shell completions, and more."@,
        ],
        HelpTopic::Manage => seq![
            heading("proto manage"@),
            "  Manage the Proto CLI itself.\n"@,
            heading("USAGE:"@),
            "  proto manage update                 Git pull + cargo build --release"@,
            "  proto manage uninstall              Remove the proto binary"@,
            "  proto manage uninstall --purge      Also delete the cloned repo"@,
            "  proto manage reset                  Remove proto config and state\n"@,
            heading("DETAILS:"@),
            "  Uses the compile-time repo path (env! CARGO_MANIFEST_DIR)"@,
            "  and updates the binary at this process's current_exe()."@,
        ],
        HelpTopic::Plugins => seq![
            heading("proto plugins"@),
            "  Install, update, and manage proto plugins.\n"@,
            heading("USAGE:"@),
            "  proto plugins list                    List all installed plugins"@,
            "  proto plugins add @scope/name         Install a plugin"@,
            "  proto plugins remove @scope/name      Uninstall a plugin"@,
            "  proto plugins update @scope/name      Update a plugin"@,
            "  proto plugins add-repo <url>          Add a custom plugin repository\n"@,
            heading("INFO:"@),
            "  Plugins are pre-compiled binaries installed to ~/.config/proto/plugins/"@,
            "  Registry is synced from GitHub: proto-cli/plugins"@,
        ],
        HelpTopic::Other => Seq::empty(),
    }
}

/// The help page of a built-in command, one string per printed line.
pub fn command_help(topic: HelpTopic) -> (res: Vec<String>)
    ensures
        views(res@) == command_help_spec(topic),
{
    let mut out: Vec<String> = Vec::new();
    assert(views(out@) =~= Seq::<Seq<char>>::empty());
    match topic {
        HelpTopic::Help => {
            push_heading(&mut out, "proto help");
            push_line(&mut out, "  Display help for all commands or a specific command.\n");
            push_heading(&mut out, "USAGE:");
            push_line(&mut out, "  proto help              Show general help");
            push_line(&mut out, "  proto help <command>    Show help for a command\n");
            push_heading(&mut out, "EXAMPLES:");
            push_line(&mut out, "  proto help system       Show system command help");
            push_line(&mut out, "  proto help pkg          Show package manager help");
        },
        HelpTopic::System => {
            push_heading(&mut out, "proto system");
            push_line(&mut out, "  Display a beautiful overview of your system.\n");
            push_heading(&mut out, "USAGE:");
            push_line(&mut out, "  proto system\n");
            push_heading(&mut out, "SHOWS:");
            push_line(&mut out, "  OS, kernel, architecture, CPU, RAM, disk usage,");
            push_line(&mut out, "  uptime, DE/WM, shell, terminal, and package count.");
        },
        HelpTopic::Alias => {
            push_heading(&mut out, "proto alias");
            push_line(&mut out, "  Interactive shell alias builder for bash, zsh, and fish.\n");
            push_heading(&mut out, "USAGE:");
            push_line(&mut out, "  proto alias create    Build a new alias interactively");
            push_line(&mut out, "  proto alias list      Show all Proto-managed aliases");
            push_line(&mut out, "  proto alias remove <NAME>  Remove an alias\n");
            push_heading(&mut out, "CREATE FLOW:");
            push_line(&mut out, "  1. Enter alias name + command + description");
            push_line(&mut out, "  2. Choose target shells (multi-select)");
            push_line(&mut out, "  3. Choose permanent (writes to .bashrc/.zshrc/config.fish)");
            push_line(&mut out, "     or session-only");
        },
        HelpTopic::Pkg => {
            push_heading(&mut out, "proto pkg");
            push_line(&mut out, "  Unified cross-distro package manager wrapper.\n");
            push_heading(&mut out, "USAGE:");
            push_line(&mut out, "  proto pkg install <pkg>     Install a package");
            push_line(&mut out, "  proto pkg search <query>    Search repositories");
            push_line(&mut out, "  proto pkg remove <pkg>      Remove a package");
            push_line(&mut out, "  proto pkg update [pkg]      Update all or specific packages");
            push_line(&mut out, "  proto pkg list              List installed packages\n");
            push_heading(&mut out, "SUPPORTED:");
            push_line(&mut out, "  pacman, yay, paru, apt, dnf, zypper, apk");
        },
        HelpTopic::Git => {
            push_heading(&mut out, "proto git");
            push_line(&mut out, "  Git workflow enhancements.\n");
            push_heading(&mut out, "USAGE:");
            push_line(&mut out, "  proto git log               Pretty git log with graph");
            push_line(&mut out, "  proto git stats             Repository statistics");
            push_line(&mut out, "  proto git save <msg>        Quick WIP commit (add all + commit)");
            push_line(&mut out, "  proto git undo              Undo last commit (soft reset)");
            push_line(&mut out, "  proto git branch            Show branches with info");
        },
        HelpTopic::Setup => {
            push_heading(&mut out, "proto setup");
            push_line(&mut out, "  Interactive first-time configuration wizard.\n");
            push_heading(&mut out, "USAGE:");
            push_line(&mut out, "  proto setup\n");
            push_heading(&mut out, "CONFIGURES:");
            push_line(&mut out, "  Default package manager, color preferences,");
            push_line(&mut out, "  shell completions, and more.");
        },
        HelpTopic::Manage => {
            push_heading(&mut out, "proto manage");
            push_line(&mut out, "  Manage the Proto CLI itself.\n");
            push_heading(&mut out, "USAGE:");
            push_line(&mut out, "  proto manage update                 Git pull + cargo build --release");
            push_line(&mut out, "  proto manage uninstall              Remove the proto binary");
            push_line(&mut out, "  proto manage uninstall --purge      Also delete the cloned repo");
            push_line(&mut out, "  proto manage reset                  Remove proto config and state\n");
            push_heading(&mut out, "DETAILS:");
            push_line(&mut out, "  Uses the compile-time repo path (env! CARGO_MANIFEST_DIR)");
            push_line(&mut out, "  and updates the binary at this process's current_exe().");
        },
        HelpTopic::Plugins => {
            push_heading(&mut out, "proto plugins");
            push_line(&mut out, "  Install, update, and manage proto plugins.\n");
            push_heading(&mut out, "USAGE:");
            push_line(&mut out, "  proto plugins list                    List all installed plugins");
            push_line(&mut out, "  proto plugins add @scope/name         Install a plugin");
            push_line(&mut out, "  proto plugins remove @scope/name      Uninstall a plugin");
            push_line(&mut out, "  proto plugins update @scope/name      Update a plugin");
            push_line(&mut out, "  proto plugins add-repo <url>          Add a custom plugin repository\n");
            push_heading(&mut out, "INFO:");
            push_line(&mut out, "  Plugins are pre-compiled binaries installed to ~/.config/proto/plugins/");
            push_line(&mut out, "  Registry is synced from GitHub: proto-cli/plugins");
        },
        HelpTopic::Other => {},
    }
    out
}

/// The predicate "is installed".
pub open spec fn is_installed() -> spec_fn(InstalledPluginView) -> bool {
    |p: InstalledPluginView| p.installed
}

/// Whether some plugin of the list is installed.
fn any_installed(plugins: &Vec<InstalledPlugin>) -> (res: bool)
    ensures
        res == first_where(plugins@.map_values(|p: InstalledPlugin| p@), is_installed()) is Some,
{
    let ghost s = plugins@.map_values(|p: InstalledPlugin| p@);
    let ghost f = is_installed();
    let mut i: usize = 0;
    while i < plugins.len()
        invariant
            s == plugins@.map_values(|p: InstalledPlugin| p@),
            f == is_installed(),
            i <= plugins@.len(),
            forall|j: int| 0 <= j < i ==> !f(s[j]),
        decreases plugins@.len() - i,
    {
        if plugins[i].installed {
            proof {
                lemma_first_where_at(s, f, i as int);
            }
            return true;
        }
        i = i + 1;
    }
    proof {
        lemma_first_where_none(s, f);
    }
    false
}

fn push_entry(out: &mut Vec<String>, name: &str, args: &str, desc: &str)
    ensures
        views(final(out)@) == views(old(out)@).push(command_entry_spec(name@, args@, desc@, true)),
{
    let ghost before = views(out@);
    out.push(command_entry(name, args, desc, true));
    assert(views(out@) =~= before.push(command_entry_spec(name@, args@, desc@, true)));
}

/// The table line of a plugin command: the command, no arguments, the
/// plugin's `@scope/name` as description.
pub open spec fn plugin_entry_line(e: (Seq<char>, Seq<char>)) -> Seq<char> {
    command_entry_spec(e.0, ""@, e.1, true)
}

/// The plugin part of the overview: when some plugin is installed, a
/// `PLUGINS:` heading after a blank line, then a table line per command of
/// each installed plugin; nothing otherwise.
pub open spec fn plugin_lines_spec(s: Seq<InstalledPluginView>) -> Seq<Seq<char>> {
    if first_where(s, is_installed()) is Some {
        seq!["\n"@ + heading("PLUGINS:"@)] + plugin_entries_spec(s).map_values(|e: (Seq<char>, Seq<char>)| plugin_entry_line(e))
    } else {
        Seq::empty()
    }
}

/// The top of the overview: logo, title, tagline, usage and the built-in
/// commands.
pub open spec fn overview_head(color: bool) -> Seq<Seq<char>> {
    seq![
        banner_spec(color),
        apply_spec(heading("Proto CLI"@), Theme::Bold, true) + "\n"@,
        apply_spec("◆"@, Theme::Accent, true) + "  "@ + apply_spec("Your friendly protogen CLI companion\n"@, Theme::Muted, true),
        heading("USAGE:"@),
        "  "@ + apply_spec("proto"@, Theme::Accent, true) + " <command> [options]\n"@,
        heading("COMMANDS:"@),
        command_entry_spec("help"@, "[command]"@, "Show this help or help for a specific command"@, true),
        command_entry_spec("system"@, ""@, "Display beautiful system information"@, true),
        command_entry_spec("pkg"@, "<action>"@, "Cross-distro package manager wrapper"@, true),
        command_entry_spec("git"@, "<action>"@, "Git workflow enhancements"@, true),
        command_entry_spec("setup"@, ""@, "Interactive configuration wizard"@, true),
        command_entry_spec("alias"@, "create|list|remove"@, "Interactive shell alias builder"@, true),
        command_entry_spec("manage"@, "update|uninstall|reset"@, "Manage the Proto CLI itself"@, true),
        command_entry_spec("plugins"@, "list|add|remove|update"@, "Manage proto plugins"@, true),
    ]
}

/// The end of the overview: the plugin hint, the flags and the pointer to
/// per-command help.
pub open spec fn overview_tail() -> Seq<Seq<char>> {
    seq![
        "\n"@ + apply_spec("Run 'proto plugins list' to see available plugins."@, Theme::Muted, true),
        "\n"@ + heading("FLAGS:"@),
        command_entry_spec("--version"@, ""@, "Print version and exit"@, true),
        command_entry_spec("--help"@, ""@, "Print help information"@, true),
        "\n"@ + apply_spec("Run"@, Theme::Muted, true) + " "@
            + apply_spec("'proto help <command>' for more info."@, Theme::Muted, true) + "\n"@,
    ]
}

/// The overview of all commands, given the registry's records: only the logo
/// follows `color`; the rest is always styled.
pub open spec fn general_help_spec(s: Seq<InstalledPluginView>, color: bool) -> Seq<Seq<char>> {
    overview_head(color) + plugin_lines_spec(s) + overview_tail()
}

fn push_styled(out: &mut Vec<String>, before: &str, text: &str, theme: Theme, after: &str)
    ensures
        views(final(out)@) == views(old(out)@).push(before@ + apply_spec(text@, theme, true) + after@),
{
    let ghost old_out = views(out@);
    let mut l = String::from_str(before);
    l.append(apply(text, theme, true).as_str());
    l.append(after);
    out.push(l);
    assert(views(out@) =~= old_out.push(before@ + apply_spec(text@, theme, true) + after@));
}

fn overview_head_lines(color: bool) -> (res: Vec<String>)
    ensures
        views(res@) == overview_head(color),
{
    let mut out: Vec<String> = Vec::new();
    assert(views(out@) =~= Seq::<Seq<char>>::empty());
    out.push(proto_banner(color));
    let mut title = apply(apply("Proto CLI", Theme::Header, true).as_str(), Theme::Bold, true);
    title.append("\n");
    out.push(title);
    let mut tag = apply("◆", Theme::Accent, true);
    tag.append("  ");
    tag.append(apply("Your friendly protogen CLI companion\n", Theme::Muted, true).as_str());
    out.push(tag);
    assert(views(out@) =~= seq![
        banner_spec(color),
        apply_spec(heading("Proto CLI"@), Theme::Bold, true) + "\n"@,
        apply_spec("◆"@, Theme::Accent, true) + "  "@ + apply_spec("Your friendly protogen CLI companion\n"@, Theme::Muted, true),
    ]);
    push_heading(&mut out, "USAGE:");
    push_styled(&mut out, "  ", "proto", Theme::Accent, " <command> [options]\n");
    push_heading(&mut out, "COMMANDS:");
    push_entry(&mut out, "help", "[command]", "Show this help or help for a specific command");
    push_entry(&mut out, "system", "", "Display beautiful system information");
    push_entry(&mut out, "pkg", "<action>", "Cross-distro package manager wrapper");
    push_entry(&mut out, "git", "<action>", "Git workflow enhancements");
    push_entry(&mut out, "setup", "", "Interactive configuration wizard");
    push_entry(&mut out, "alias", "create|list|remove", "Interactive shell alias builder");
    push_entry(&mut out, "manage", "update|uninstall|reset", "Manage the Proto CLI itself");
    push_entry(&mut out, "plugins", "list|add|remove|update", "Manage proto plugins");
    out
}

fn push_plugin_lines(out: &mut Vec<String>, plugins: &Vec<InstalledPlugin>)
    ensures
        views(final(out)@) == views(old(out)@) + plugin_lines_spec(plugins@.map_values(|p: InstalledPlugin| p@)),
{
    let ghost s = plugins@.map_values(|p: InstalledPlugin| p@);
    let ghost first = views(out@);
    proof {
        reveal_strlit("");
        assert(""@ =~= Seq::<char>::empty());
    }
    if any_installed(plugins) {
        push_styled(out, "\n", "PLUGINS:", Theme::Header, "");
        let entries = plugin_entries(plugins);
        let ghost ev = entries@.map_values(|e: (String, String)| (e.0@, e.1@));
        let ghost f = |e: (Seq<char>, Seq<char>)| plugin_entry_line(e);
        let ghost start = views(out@);
        assert(start =~= first + seq!["\n"@ + heading("PLUGINS:"@)]);
        let mut k: usize = 0;
        assert(ev.take(0).map_values(f) =~= Seq::<Seq<char>>::empty());
        while k < entries.len()
            invariant
                ev == entries@.map_values(|e: (String, String)| (e.0@, e.1@)),
                ev == plugin_entries_spec(s),
                f == (|e: (Seq<char>, Seq<char>)| plugin_entry_line(e)),
                k <= entries@.len(),
                views(out@) == start + ev.take(k as int).map_values(f),
            decreases entries@.len() - k,
        {
            let e = &entries[k];
            assert(ev[k as int] == (e.0@, e.1@));
            push_entry(out, e.0.as_str(), "", e.1.as_str());
            assert(ev.take(k + 1).map_values(f) =~= ev.take(k as int).map_values(f).push(f(ev[k as int])));
            assert(views(out@) =~= start + ev.take(k + 1).map_values(f));
            k = k + 1;
        }
        assert(ev.take(entries@.len() as int) =~= ev);
        assert(views(out@) =~= first + plugin_lines_spec(s));
    } else {
        assert(views(out@) =~= first + plugin_lines_spec(s));
    }
}

fn push_overview_tail(out: &mut Vec<String>)
    ensures
        views(final(out)@) == views(old(out)@) + overview_tail(),
{
    let ghost first = views(out@);
    proof {
        reveal_strlit("");
        assert(""@ =~= Seq::<char>::empty());
    }
    push_styled(out, "\n", "Run 'proto plugins list' to see available plugins.", Theme::Muted, "");
    push_styled(out, "\n", "FLAGS:", Theme::Header, "");
    push_entry(out, "--version", "", "Print version and exit");
    push_entry(out, "--help", "", "Print help information");
    let mut last = String::from_str("\n");
    last.append(apply("Run", Theme::Muted, true).as_str());
    last.append(" ");
    last.append(apply("'proto help <command>' for more info.", Theme::Muted, true).as_str());
    last.append("\n");
    assert(last@ =~= "\n"@ + apply_spec("Run"@, Theme::Muted, true) + " "@
        + apply_spec("'proto help <command>' for more info."@, Theme::Muted, true) + "\n"@);
    let ghost before = views(out@);
    out.push(last);
    assert(views(out@) =~= before.push(last@));
    assert(views(out@) =~= first + overview_tail());
}

/// The overview of all commands, one string per printed line.
pub fn general_help(plugins: &Vec<InstalledPlugin>, color: bool) -> (res: Vec<String>)
    ensures
        views(res@) == general_help_spec(plugins@.map_values(|p: InstalledPlugin| p@), color),
{
    let mut out = overview_head_lines(color);
    push_plugin_lines(&mut out, plugins);
    push_overview_tail(&mut out);
    out
}

/// The lines shown for a command that is neither built in nor provided by an
/// installed plugin: an error mark (following `color`) and the lower-cased
/// command, then a pointer to `proto help`.
pub open spec fn unknown_command_spec(command: Seq<char>, color: bool) -> Seq<Seq<char>> {
    seq![
        apply_spec("✗"@, Theme::Error, color) + " "@ + " Unknown command: '"@
            + apply_spec(spec_to_lowercase(command), Theme::Accent, true) + "'"@,
        "Run "@ + apply_spec("proto help"@, Theme::Accent, true) + " to see all available commands."@,
    ]
}

/// The lines shown for an unknown command.
pub fn unknown_command(command: &str, color: bool) -> (res: Vec<String>)
    ensures
        views(res@) == unknown_command_spec(command@, color),
{
    let lower = to_lowercase(command);
    let mut first = error("", color);
    first.append(" Unknown command: '");
    first.append(apply(lower.as_str(), Theme::Accent, true).as_str());
    first.append("'");
    let mut out: Vec<String> = Vec::new();
    out.push(first);
    assert(views(out@) =~= seq![unknown_command_spec(command@, color)[0]]) by {
        reveal_strlit("");
        assert(""@ =~= Seq::<char>::empty());
    }
    push_styled(&mut out, "Run ", "proto help", Theme::Accent, " to see all available commands.");
    assert(views(out@) =~= unknown_command_spec(command@, color));
    out
}

/// The installed plugins whose `--help` may be shown for `command`: those
/// that provide its lower-case form, in order (indices into `plugins`).
pub fn help_candidates(plugins: &Vec<InstalledPlugin>, command: &str) -> (res: Vec<usize>)
    ensures
        forall|k: int| 0 <= k < res@.len() ==> res@[k] < plugins@.len()
            && serves(spec_to_lowercase(command@))(plugins@[res@[k] as int]@),
        forall|k: int, l: int| 0 <= k < l < res@.len() ==> res@[k] < res@[l],
        forall|j: int| 0 <= j < plugins@.len() && serves(spec_to_lowercase(command@))(plugins@[j]@)
            ==> res@.contains(j as usize),
{
    let lower = to_lowercase(command);
    plugins_serving(plugins, lower.as_str())
}

/// The help shown for a command depends on it only through its lower-case
/// form: two commands with the same lower-case form get the same page, the
/// same plugins to ask, and the same unknown-command lines.
pub proof fn lemma_help_follows_lower_case(a: Seq<char>, b: Seq<char>, color: bool)
    requires
        spec_to_lowercase(a) == spec_to_lowercase(b),
    ensures
        topic_of(spec_to_lowercase(a)) == topic_of(spec_to_lowercase(b)),
        command_help_spec(topic_of(spec_to_lowercase(a))) == command_help_spec(topic_of(spec_to_lowercase(b))),
        serves(spec_to_lowercase(a)) == serves(spec_to_lowercase(b)),
        unknown_command_spec(a, color) == unknown_command_spec(b, color),
{
}

} // verus!
