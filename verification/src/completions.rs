//! Shells that completion scripts are generated for.

use vstd::prelude::*;
use crate::style::{apply, apply_spec, Theme};
use crate::text::{str_eq, views};
use crate::utils::{join_path, join_path_spec};

verus! {

/// A shell with generated completions.
#[derive(Debug, Clone, Copy, PartialEq, Eq, Structural)]
pub enum Shell {
    Bash,
    Zsh,
    Fish,
}

/// The shell that a name names: `bash`, `zsh` or `fish`, nothing else.
pub open spec fn parse_shell_spec(name: Seq<char>) -> Option<Shell> {
    if name == "bash"@ {
        Some(Shell::Bash)
    } else if name == "zsh"@ {
        Some(Shell::Zsh)
    } else if name == "fish"@ {
        Some(Shell::Fish)
    } else {
        None
    }
}

/// The shell named `name`.
pub fn parse_shell(name: &str) -> (res: Option<Shell>)
    ensures
        res == parse_shell_spec(name@),
{
    if str_eq(name, "bash") {
        Some(Shell::Bash)
    } else if str_eq(name, "zsh") {
        Some(Shell::Zsh)
    } else if str_eq(name, "fish") {
        Some(Shell::Fish)
    } else {
        None
    }
}

/// The message for a shell without completions.
pub fn unsupported_shell_message(name: &str) -> (res: String)
    ensures
        res@ == "Unsupported shell: "@ + name@,
{
    let mut s = String::from_str("Unsupported shell: ");
    s.append(name);
    s
}

/// Where the completion scripts are installed: a `completions` directory in
/// the configuration directory, with `proto.bash`, `proto.zsh` and
/// `fish/proto.fish` in it.
pub struct CompletionFiles {
    pub dir: String,
    pub bash: String,
    pub zsh: String,
    pub fish_dir: String,
    pub fish: String,
}

/// The completions directory under the configuration directory `config_dir`.
pub open spec fn completions_dir_spec(config_dir: Seq<char>) -> Seq<char> {
    join_path_spec(config_dir, "completions"@)
}

/// The install locations of the completion scripts.
pub fn completion_files(config_dir: &str) -> (res: CompletionFiles)
    ensures
        res.dir@ == completions_dir_spec(config_dir@),
        res.bash@ == join_path_spec(res.dir@, "proto.bash"@),
        res.zsh@ == join_path_spec(res.dir@, "proto.zsh"@),
        res.fish_dir@ == join_path_spec(res.dir@, "fish"@),
        res.fish@ == join_path_spec(res.fish_dir@, "proto.fish"@),
{
    let dir = join_path(config_dir, "completions");
    let bash = join_path(dir.as_str(), "proto.bash");
    let zsh = join_path(dir.as_str(), "proto.zsh");
    let fish_dir = join_path(dir.as_str(), "fish");
    let fish = join_path(fish_dir.as_str(), "proto.fish");
    CompletionFiles { dir, bash, zsh, fish_dir, fish }
}

/// `text` in the style `t`, always coloured.
pub open spec fn lit(text: Seq<char>, t: Theme) -> Seq<char> {
    apply_spec(text, t, true)
}

/// What is shown after installing the completion scripts: where each one
/// is and how to load it in its shell.
pub open spec fn completion_install_lines_spec(dir: Seq<char>, bash: Seq<char>, zsh: Seq<char>, fish: Seq<char>) -> Seq<Seq<char>> {
    seq![
        lit(lit("Shell completions generated:"@, Theme::Header), Theme::Bold),
        Seq::empty(),
        "  "@ + lit("Bash:"@, Theme::Muted) + " "@ + bash,
        "    "@ + lit("source "@ + bash, Theme::Accent),
        Seq::empty(),
        "  "@ + lit("Zsh:"@, Theme::Muted) + " "@ + zsh,
        "    "@ + lit("fpath=("@ + dir + " $fpath)"@, Theme::Accent),
        "    "@ + lit("autoload -Uz compinit && compinit"@, Theme::Accent),
        Seq::empty(),
        "  "@ + lit("Fish:"@, Theme::Muted) + " "@ + fish,
        "    "@ + lit("fish_add_path "@ + dir, Theme::Accent),
        "    "@ + lit("cp "@ + fish + " ~/.config/fish/completions/proto.fish"@, Theme::Accent),
    ]
}

fn labelled(label: &str, path: &str) -> (res: String)
    ensures
        res@ == "  "@ + lit(label@, Theme::Muted) + " "@ + path@,
{
    let mut l = String::from_str("  ");
    l.append(apply(label, Theme::Muted, true).as_str());
    l.append(" ");
    l.append(path);
    l
}

fn hint(before: &str, path: &str, after: &str) -> (res: String)
    ensures
        res@ == "    "@ + lit(before@ + path@ + after@, Theme::Accent),
{
    let mut t = String::from_str(before);
    t.append(path);
    t.append(after);
    let mut l = String::from_str("    ");
    l.append(apply(t.as_str(), Theme::Accent, true).as_str());
    l
}

/// What is shown after installing the completion scripts at `files`.
pub fn completion_install_lines(files: &CompletionFiles) -> (res: Vec<String>)
    ensures
        views(res@) == completion_install_lines_spec(files.dir@, files.bash@, files.zsh@, files.fish@),
{
    proof {
        reveal_strlit("");
    }
    let mut out: Vec<String> = Vec::new();
    out.push(apply(apply("Shell completions generated:", Theme::Header, true).as_str(), Theme::Bold, true));
    out.push(String::new());
    out.push(labelled("Bash:", files.bash.as_str()));
    out.push(hint("source ", files.bash.as_str(), ""));
    out.push(String::new());
    out.push(labelled("Zsh:", files.zsh.as_str()));
    out.push(hint("fpath=(", files.dir.as_str(), " $fpath)"));
    let mut load = String::from_str("    ");
    load.append(apply("autoload -Uz compinit && compinit", Theme::Accent, true).as_str());
    out.push(load);
    out.push(String::new());
    out.push(labelled("Fish:", files.fish.as_str()));
    out.push(hint("fish_add_path ", files.dir.as_str(), ""));
    out.push(hint("cp ", files.fish.as_str(), " ~/.config/fish/completions/proto.fish"));
    assert(("source "@ + files.bash@ + ""@) =~= "source "@ + files.bash@);
    assert(("fish_add_path "@ + files.dir@ + ""@) =~= "fish_add_path "@ + files.dir@);
    assert(views(out@) =~= completion_install_lines_spec(files.dir@, files.bash@, files.zsh@, files.fish@));
    out
}

} // verus!
