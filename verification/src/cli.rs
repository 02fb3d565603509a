//! The command line: its parsed form and which command it runs.

use vstd::prelude::*;
use crate::commands::alias::AliasAction;
use crate::commands::git::GitAction;
use crate::commands::help::HelpAction;
use crate::commands::manage::ManageAction;
use crate::commands::pkg::PkgAction;
use crate::commands::plugins::PluginsAction;
use crate::plugins::{parse_plugin_ref, plugin_ref_spec};
use crate::style::{apply, apply_spec, banner_spec, proto_banner, Theme};
use crate::text::views;

verus! {

/// The parsed command line.
#[derive(Debug)]
pub struct Cli {
    pub command: Option<Commands>,
    pub help_flag: bool,
    pub version_flag: bool,
    pub no_color: bool,
    pub quiet: bool,
    pub json: bool,
}

/// The commands.
#[derive(Debug)]
#[allow(inconsistent_fields)]
pub enum Commands {
    Help { command: Option<String> },
    System,
    Pkg { action: PkgAction },
    Git { action: GitAction },
    Setup,
    Alias { action: AliasAction },
    Manage { action: ManageAction },
    Plugins { action: PluginsAction },
    Completions { shell: String, install: bool },
    /// Any other command, with its arguments: run by a plugin.
    External(Vec<String>),
}

/// What a command line runs.
#[derive(Debug)]
pub enum Route {
    /// Print the version.
    Version,
    /// Print the help overview (for `-h`).
    ShortHelp,
    Help(HelpAction),
    System,
    Pkg(PkgAction),
    Git(GitAction),
    Setup,
    Alias(AliasAction),
    Manage(ManageAction),
    Plugins(PluginsAction),
    /// Install the completion scripts.
    InstallCompletions,
    /// Print the completion script of `shell`.
    Completions { shell: String },
    /// Run the plugin that `command` names or provides, with `args`.
    Plugin { command: String, scope: String, name: String, args: Vec<String> },
    /// An external command line without a command: nothing to do.
    Nothing,
}

/// Chooses what the command line runs: `--version` first, then `--help`,
/// then the command; no command shows the help overview.
pub fn route(cli: Cli) -> (res: Route)
    ensures
        cli.version_flag ==> res is Version,
        !cli.version_flag && cli.help_flag ==> res is ShortHelp,
        !cli.version_flag && !cli.help_flag ==> match cli.command {
            None => res == Route::Help(HelpAction::All),
            Some(Commands::Help { command: None }) => res == Route::Help(HelpAction::All),
            Some(Commands::Help { command: Some(c) }) => res == Route::Help(HelpAction::For { command: c }),
            Some(Commands::System) => res is System,
            Some(Commands::Pkg { action }) => res == Route::Pkg(action),
            Some(Commands::Git { action }) => res == Route::Git(action),
            Some(Commands::Setup) => res is Setup,
            Some(Commands::Alias { action }) => res == Route::Alias(action),
            Some(Commands::Manage { action }) => res == Route::Manage(action),
            Some(Commands::Plugins { action }) => res == Route::Plugins(action),
            Some(Commands::Completions { shell, install }) =>
                if install { res is InstallCompletions } else { res == Route::Completions { shell } },
            Some(Commands::External(args)) =>
                if args@.len() == 0 {
                    res is Nothing
                } else {
                    &&& res is Plugin
                    &&& res->command@ == args@[0]@
                    &&& (res->scope@, res->name@) == plugin_ref_spec(args@[0]@)
                    &&& views(res->Plugin_args@) == views(args@).drop_first()
                },
        },
{
    if cli.version_flag {
        return Route::Version;
    }
    if cli.help_flag {
        return Route::ShortHelp;
    }
    match cli.command {
        None => Route::Help(HelpAction::All),
        Some(Commands::Help { command }) => match command {
            Some(c) => Route::Help(HelpAction::For { command: c }),
            None => Route::Help(HelpAction::All),
        },
        Some(Commands::System) => Route::System,
        Some(Commands::Pkg { action }) => Route::Pkg(action),
        Some(Commands::Git { action }) => Route::Git(action),
        Some(Commands::Setup) => Route::Setup,
        Some(Commands::Alias { action }) => Route::Alias(action),
        Some(Commands::Manage { action }) => Route::Manage(action),
        Some(Commands::Plugins { action }) => Route::Plugins(action),
        Some(Commands::Completions { shell, install }) => {
            if install {
                Route::InstallCompletions
            } else {
                Route::Completions { shell }
            }
        },
        Some(Commands::External(args)) => {
            if args.len() == 0 {
                return Route::Nothing;
            }
            let ghost v = views(args@);
            let mut rest = args;
            let command = rest.remove(0);
            assert(views(rest@) =~= v.drop_first());
            let (scope, name) = parse_plugin_ref(command.as_str());
            Route::Plugin { command, scope, name, args: rest }
        },
    }
}

/// What `--version` prints, one string per line: the logo (following
/// `color`), `proto` and the version, and the tagline (always styled).
pub open spec fn version_lines_spec(version: Seq<char>, color: bool) -> Seq<Seq<char>> {
    seq![
        banner_spec(color),
        apply_spec(apply_spec("proto"@, Theme::Header, true), Theme::Bold, true) + " "@
            + apply_spec(version, Theme::Muted, true),
        apply_spec("Your friendly protogen CLI companion"@, Theme::Muted, true),
    ]
}

/// The lines that `--version` prints for `version`.
pub fn version_lines(version: &str, color: bool) -> (res: Vec<String>)
    ensures
        views(res@) == version_lines_spec(version@, color),
{
    let mut name = apply(apply("proto", Theme::Header, true).as_str(), Theme::Bold, true);
    name.append(" ");
    name.append(apply(version, Theme::Muted, true).as_str());
    let mut out: Vec<String> = Vec::new();
    out.push(proto_banner(color));
    out.push(name);
    out.push(apply("Your friendly protogen CLI companion", Theme::Muted, true));
    assert(views(out@) =~= version_lines_spec(version@, color));
    out
}

} // verus!
