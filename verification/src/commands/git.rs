//! Git workflow helpers: log arguments, status counts and branch listing.

use vstd::prelude::*;
use crate::style::{apply, apply_spec, label_value, label_value_spec, Theme};
use crate::text::{decimal, has_prefix, lines, lines_of, starts_with, trim, trim_white, u64_to_decimal, views};

verus! {

/// A subcommand of `proto git`.
#[derive(Debug)]
pub enum GitAction {
    /// Pretty log of the last `count` commits.
    Log { count: usize },
    /// Repository statistics.
    Stats,
    /// Stage everything and commit with `message`.
    Save { message: String },
    /// Undo the last commit, keeping its changes staged.
    Undo,
    /// Branches with their last commit.
    Branch,
}

/// Arguments of the pretty log of `count` commits.
pub open spec fn log_args_spec(count: nat) -> Seq<Seq<char>> {
    seq![
        "log"@,
        "--graph"@,
        "--color=always"@,
        "-n"@ + decimal(count),
        "--format=format:%h %<(20,trunc)%an %s %C(auto)%d"@,
    ]
}

/// Arguments of `git log` for the pretty log of `count` commits.
pub fn git_log_args(count: usize) -> (res: Vec<String>)
    ensures
        views(res@) == log_args_spec(count as nat),
{
    let mut n = String::from_str("-n");
    n.append(u64_to_decimal(count as u64).as_str());
    let mut v: Vec<String> = Vec::new();
    v.push(String::from_str("log"));
    v.push(String::from_str("--graph"));
    v.push(String::from_str("--color=always"));
    v.push(n);
    v.push(String::from_str("--format=format:%h %<(20,trunc)%an %s %C(auto)%d"));
    assert(views(v@) =~= log_args_spec(count as nat));
    v
}

/// Arguments of `git commit` for a quick save with `message`.
pub fn git_save_args(message: &str) -> (res: Vec<String>)
    ensures
        views(res@) == seq!["commit"@, "-m"@, message@],
{
    let mut v: Vec<String> = Vec::new();
    v.push(String::from_str("commit"));
    v.push(String::from_str("-m"));
    v.push(String::from_str(message));
    assert(views(v@) =~= seq!["commit"@, "-m"@, message@]);
    v
}

/// The number of non-empty lines among `ls`.
pub open spec fn nonempty_count(ls: Seq<Seq<char>>) -> nat
    decreases ls.len(),
{
    if ls.len() == 0 {
        0
    } else {
        nonempty_count(ls.drop_last()) + if ls.last().len() > 0 { 1nat } else { 0nat }
    }
}

/// Number of changed files in `git status --porcelain` output: its non-empty lines.
pub fn count_changed_files(porcelain: &str) -> (res: usize)
    ensures
        res == nonempty_count(lines_of(porcelain@)),
{
    let ls = lines(porcelain);
    let ghost v = views(ls@);
    let mut count: usize = 0;
    let mut i: usize = 0;
    assert(v.take(0) =~= Seq::<Seq<char>>::empty());
    while i < ls.len()
        invariant
            v == views(ls@),
            i <= ls@.len(),
            count <= i,
            count == nonempty_count(v.take(i as int)),
        decreases ls@.len() - i,
    {
        assert(v.take(i + 1).drop_last() =~= v.take(i as int));
        assert(v.take(i + 1).last() == ls@[i as int]@);
        if ls[i].unicode_len() > 0 {
            count = count + 1;
        }
        i = i + 1;
    }
    assert(v.take(ls@.len() as int) =~= v);
    count
}

/// The working-tree status shown in the statistics: "clean" in the success
/// style, or "<m> files" in the warning style.
pub fn status_text(changed: usize, color: bool) -> (res: String)
    ensures
        res@ == if changed == 0 {
            apply_spec("clean"@, Theme::Success, color)
        } else {
            apply_spec(decimal(changed as nat) + " files"@, Theme::Warn, color)
        },
{
    if changed == 0 {
        apply("clean", Theme::Success, color)
    } else {
        let mut t = u64_to_decimal(changed as u64);
        t.append(" files");
        apply(t.as_str(), Theme::Warn, color)
    }
}

/// Whether a trimmed line of `git branch -v` is the current branch: it is
/// marked with `* `, or starts with the current branch's name.
pub fn is_current_branch_line(trimmed: &str, current: &str) -> (res: bool)
    ensures
        res == (has_prefix(trimmed@, "* "@) || has_prefix(trimmed@, current@)),
{
    starts_with(trimmed, "* ") || starts_with(trimmed, current)
}

/// How a branch line is shown: the current branch after an accent `▶`, in
/// the accent style; any other indented, muted.
pub open spec fn branch_line(trimmed: Seq<char>, current: Seq<char>) -> Seq<char> {
    if has_prefix(trimmed, "* "@) || has_prefix(trimmed, current) {
        apply_spec("▶"@, Theme::Accent, true) + " "@ + apply_spec(trimmed, Theme::Accent, true)
    } else {
        "  "@ + apply_spec(trimmed, Theme::Muted, true)
    }
}

/// The branch listing shown for the lines `ls` of `git branch -v`: each line
/// trimmed, the empty ones left out.
pub open spec fn branch_listing_spec(ls: Seq<Seq<char>>, current: Seq<char>) -> Seq<Seq<char>>
    decreases ls.len(),
{
    if ls.len() == 0 {
        Seq::empty()
    } else {
        let r = branch_listing_spec(ls.drop_last(), current);
        let t = trim_white(ls.last());
        if t.len() == 0 {
            r
        } else {
            r.push(branch_line(t, current))
        }
    }
}

/// The lines shown for the output of `git branch -v`, given the current
/// branch's name.
pub fn branch_listing(output: &str, current: &str) -> (res: Vec<String>)
    ensures
        views(res@) == branch_listing_spec(lines_of(output@), current@),
{
    let ls = lines(output);
    let ghost v = views(ls@);
    let mut out: Vec<String> = Vec::new();
    let mut i: usize = 0;
    assert(v.take(0) =~= Seq::<Seq<char>>::empty());
    assert(views(out@) =~= Seq::<Seq<char>>::empty());
    while i < ls.len()
        invariant
            v == views(ls@),
            v == lines_of(output@),
            i <= ls@.len(),
            views(out@) == branch_listing_spec(v.take(i as int), current@),
        decreases ls@.len() - i,
    {
        assert(v.take(i + 1).drop_last() =~= v.take(i as int));
        assert(v.take(i + 1).last() == ls@[i as int]@);
        let t = trim(ls[i].as_str());
        if t.unicode_len() > 0 {
            let ghost before = views(out@);
            let line = if is_current_branch_line(t.as_str(), current) {
                let mut l = apply("▶", Theme::Accent, true);
                l.append(" ");
                l.append(apply(t.as_str(), Theme::Accent, true).as_str());
                l
            } else {
                let mut l = String::from_str("  ");
                l.append(apply(t.as_str(), Theme::Muted, true).as_str());
                l
            };
            assert(line@ == branch_line(t@, current@));
            out.push(line);
            assert(views(out@) =~= before.push(branch_line(t@, current@)));
        }
        i = i + 1;
    }
    assert(v.take(ls@.len() as int) =~= v);
    out
}

/// What the repository statistics are made from: the outputs of the git
/// commands that could be run (`None` for one that could not).
pub struct RepoFacts {
    /// `git branch --show-current`.
    pub branch: Option<String>,
    /// `git remote get-url origin`.
    pub remote: Option<String>,
    /// `git rev-list --count HEAD`.
    pub commits: Option<String>,
    /// `git shortlog -sn HEAD`.
    pub shortlog: Option<String>,
    /// `git ls-files`.
    pub files: Option<String>,
    /// `git status --porcelain`.
    pub porcelain: Option<String>,
}

/// A labelled line for a value that may be missing.
pub open spec fn fact_line(label: Seq<char>, value: Option<Seq<char>>, color: bool) -> Seq<Seq<char>> {
    match value {
        Some(v) => seq![label_value_spec(label, v, color)],
        None => Seq::empty(),
    }
}

/// The text's view, when there is one.
pub open spec fn opt_view(v: Option<String>) -> Option<Seq<char>> {
    match v {
        Some(s) => Some(s@),
        None => None,
    }
}

/// The number of lines of a command's output, in decimal.
pub open spec fn line_count_text(v: Option<String>) -> Option<Seq<char>> {
    match v {
        Some(s) => Some(decimal(lines_of(s@).len())),
        None => None,
    }
}

/// The working-tree status shown for `git status --porcelain` output.
pub open spec fn status_of(v: Option<String>) -> Option<Seq<char>> {
    match v {
        Some(s) => Some(if nonempty_count(lines_of(s@)) == 0 {
            apply_spec("clean"@, Theme::Success, true)
        } else {
            apply_spec(decimal(nonempty_count(lines_of(s@))) + " files"@, Theme::Warn, true)
        }),
        None => None,
    }
}

/// The statistics lines: branch, remote, number of commits, number of
/// contributors (lines of the short log), number of tracked files and the
/// status, each only when its command could be run.
pub open spec fn repo_stats_spec(f: RepoFacts, color: bool) -> Seq<Seq<char>> {
    fact_line("Branch"@, opt_view(f.branch), color)
        + fact_line("Remote"@, opt_view(f.remote), color)
        + fact_line("Commits"@, opt_view(f.commits), color)
        + fact_line("Contributors"@, line_count_text(f.shortlog), color)
        + fact_line("Tracked files"@, line_count_text(f.files), color)
        + fact_line("Status"@, status_of(f.porcelain), color)
}

fn push_fact(out: &mut Vec<String>, label: &str, value: &Option<String>, color: bool)
    ensures
        views(final(out)@) == views(old(out)@) + fact_line(label@, opt_view(*value), color),
{
    let ghost before = views(out@);
    match value {
        Some(v) => {
            out.push(label_value(label, v.as_str(), color));
            assert(views(out@) =~= before + fact_line(label@, opt_view(*value), color));
        },
        None => {
            assert(views(out@) =~= before + fact_line(label@, opt_view(*value), color));
        },
    }
}

fn count_text(v: &Option<String>) -> (res: Option<String>)
    ensures
        opt_view(res) == line_count_text(*v),
{
    match v {
        Some(s) => Some(u64_to_decimal(lines(s.as_str()).len() as u64)),
        None => None,
    }
}

/// The repository statistics, one string per line.
pub fn repo_stats(facts: &RepoFacts, color: bool) -> (res: Vec<String>)
    ensures
        views(res@) == repo_stats_spec(*facts, color),
{
    let mut out: Vec<String> = Vec::new();
    assert(views(out@) =~= Seq::<Seq<char>>::empty());
    push_fact(&mut out, "Branch", &facts.branch, color);
    push_fact(&mut out, "Remote", &facts.remote, color);
    push_fact(&mut out, "Commits", &facts.commits, color);
    let contributors = count_text(&facts.shortlog);
    push_fact(&mut out, "Contributors", &contributors, color);
    let files = count_text(&facts.files);
    push_fact(&mut out, "Tracked files", &files, color);
    let status = match &facts.porcelain {
        Some(p) => Some(status_text(count_changed_files(p.as_str()), true)),
        None => None,
    };
    assert(opt_view(status) == status_of(facts.porcelain));
    push_fact(&mut out, "Status", &status, color);
    assert(views(out@) =~= repo_stats_spec(*facts, color));
    out
}

} // verus!
