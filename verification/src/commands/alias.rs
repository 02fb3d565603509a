//! Shell aliases kept in the shells' configuration files, each one after a
//! `# proto alias` marker line.

use vstd::prelude::*;
use crate::plugins::discovery::{file_name_of, path_file_name};
use crate::text::{
    contains, contains_seq, has_prefix, join, join_seqs, lines, lines_of, occurs_at, split_char, starts_with,
    strip_cr, trim, trim_end_by, trim_start_by, trim_white, views, is_white, lemma_split_char_concat, lemma_split_char_last, lemma_split_char_len,
    lemma_split_char_none, lemma_trim_start_suffix, lemma_trim_end_prefix,
};

verus! {

/// A subcommand of `proto alias`.
#[derive(Debug)]
pub enum AliasAction {
    /// Build a new alias interactively.
    Create,
    /// List the aliases proto wrote.
    List,
    /// Remove the alias `name`.
    Remove { name: String },
}

/// The line that precedes every alias that proto writes.
pub open spec fn marker() -> Seq<char> {
    "# proto alias"@
}

/// A shell that aliases can be written for.
#[derive(Debug, Clone, Copy, PartialEq, Eq, Structural)]
pub enum AliasShell {
    Bash,
    Zsh,
    Fish,
}

/// The shell's name.
pub open spec fn shell_name(sh: AliasShell) -> Seq<char> {
    match sh {
        AliasShell::Bash => "bash"@,
        AliasShell::Zsh => "zsh"@,
        AliasShell::Fish => "fish"@,
    }
}

impl AliasShell {
    /// The shell's name.
    pub fn name(&self) -> (res: &'static str)
        ensures
            res@ == shell_name(*self),
    {
        match self {
            AliasShell::Bash => "bash",
            AliasShell::Zsh => "zsh",
            AliasShell::Fish => "fish",
        }
    }

    /// The shell's configuration file, relative to the home directory.
    pub fn config_file(&self) -> (res: &'static str)
        ensures
            res@ == match *self {
                AliasShell::Bash => ".bashrc"@,
                AliasShell::Zsh => ".zshrc"@,
                AliasShell::Fish => ".config/fish/config.fish"@,
            },
    {
        match self {
            AliasShell::Bash => ".bashrc",
            AliasShell::Zsh => ".zshrc",
            AliasShell::Fish => ".config/fish/config.fish",
        }
    }
}

/// An alias name must be one non-empty word without spaces.
pub fn valid_alias_name(name: &str) -> (res: bool)
    ensures
        res == (name@.len() > 0 && !contains_seq(name@, " "@)),
{
    !contains(name, " ") && name.unicode_len() > 0
}

/// The alias definition for `sh`: `alias name='command'`, followed by
/// ` # desc` (bash, zsh) when there is a description; fish writes
/// `alias name 'command' --description 'desc'` then.
pub open spec fn alias_line_spec(sh: AliasShell, name: Seq<char>, command: Seq<char>, desc: Seq<char>) -> Seq<char> {
    if desc.len() == 0 {
        "alias "@ + name + "='"@ + command + "'"@
    } else if sh == AliasShell::Fish {
        "alias "@ + name + " '"@ + command + "' --description '"@ + desc + "'"@
    } else {
        "alias "@ + name + "='"@ + command + "' # "@ + desc
    }
}

/// The alias definition line for the shell.
pub fn alias_line(sh: AliasShell, name: &str, command: &str, desc: &str) -> (res: String)
    ensures
        res@ == alias_line_spec(sh, name@, command@, desc@),
{
    let mut s = String::from_str("alias ");
    s.append(name);
    if desc.unicode_len() == 0 {
        s.append("='");
        s.append(command);
        s.append("'");
    } else {
        match sh {
            AliasShell::Fish => {
                s.append(" '");
                s.append(command);
                s.append("' --description '");
                s.append(desc);
                s.append("'");
            },
            _ => {
                s.append("='");
                s.append(command);
                s.append("' # ");
                s.append(desc);
            },
        }
    }
    s
}

/// The name of the shell running now: the file name of `$SHELL` (empty when
/// it has none, or when `$SHELL` is not set, which is given as empty).
pub fn current_shell(shell_var: &str) -> (res: String)
    ensures
        res@ == match file_name_of(shell_var@) {
            Some(n) => n,
            None => Seq::empty(),
        },
{
    match path_file_name(shell_var) {
        Some(n) => n,
        None => String::new(),
    }
}

/// The alias command to run in the current session: fish's
/// `alias name 'command'`, or `alias name='command'` in any other shell.
pub fn session_alias_command(current_shell: &str, name: &str, command: &str) -> (res: String)
    ensures
        res@ == if current_shell@ == "fish"@ {
            "alias "@ + name@ + " '"@ + command@ + "'"@
        } else {
            "alias "@ + name@ + "='"@ + command@ + "'"@
        },
{
    let mut s = String::from_str("alias ");
    s.append(name);
    if crate::text::str_eq(current_shell, "fish") {
        s.append(" '");
    } else {
        s.append("='");
    }
    s.append(command);
    s.append("'");
    s
}

/// The text appended to a configuration file for one alias: a newline, the
/// marker line, the alias line, each ended by a newline.
pub open spec fn alias_block_spec(line: Seq<char>) -> Seq<char> {
    "\n"@ + marker() + "\n"@ + line + "\n"@
}

/// The text appended to a configuration file for one alias.
pub fn alias_block(line: &str) -> (res: String)
    ensures
        res@ == alias_block_spec(line@),
{
    let mut s = String::from_str("\n# proto alias\n");
    s.append(line);
    s.append("\n");
    proof {
        reveal_strlit("\n# proto alias\n");
        reveal_strlit("\n");
        reveal_strlit("# proto alias");
    }
    assert(s@ =~= "\n"@ + marker() + "\n"@ + line@ + "\n"@);
    s
}

/// New content of a file when `content` is appended to `existing`: `None`
/// (no change) when `existing` already holds `content` without its
/// surrounding white space.
pub open spec fn appended_spec(existing: Seq<char>, content: Seq<char>) -> Option<Seq<char>> {
    if contains_seq(existing, trim_white(content)) {
        None
    } else {
        Some(existing + content)
    }
}

/// The new content of a file after appending `content`, or `None` when it is
/// already there.
pub fn appended_content(existing: &str, content: &str) -> (res: Option<String>)
    ensures
        match res {
            Some(s) => appended_spec(existing@, content@) == Some(s@),
            None => appended_spec(existing@, content@) is None,
        },
{
    let t = trim(content);
    if contains(existing, t.as_str()) {
        None
    } else {
        let mut s = String::from_str(existing);
        s.append(content);
        Some(s)
    }
}

/// Trimming white space leaves a contiguous part of the text.
pub proof fn lemma_trim_white_is_part(s: Seq<char>) -> (r: (int, int))
    ensures
        0 <= r.0 <= r.1 <= s.len(),
        trim_white(s) == s.subrange(r.0, r.1),
{
    let p = |c: char| is_white(c);
    let a = lemma_trim_start_suffix(s, p);
    let t = s.skip(a);
    let b = lemma_trim_end_prefix(t, p);
    assert(t.take(b) =~= s.subrange(a, a + b));
    (a, a + b)
}

/// Appending the same alias block twice changes the file only once.
pub proof fn lemma_append_idempotent(existing: Seq<char>, content: Seq<char>)
    ensures
        match appended_spec(existing, content) {
            Some(n) => appended_spec(n, content) is None,
            None => true,
        },
{
    if let Some(n) = appended_spec(existing, content) {
        let (a, b) = lemma_trim_white_is_part(content);
        let t = trim_white(content);
        let i = existing.len() + a;
        assert(n.subrange(i, i + t.len()) =~= t);
        assert(crate::text::occurs_at(n, t, i));
    }
}

/// The marker line is one line.
proof fn lemma_marker_line()
    ensures
        !marker().contains('\n'),
        marker().len() > 0,
        marker().last() != '\r',
        contains_seq(marker(), marker()),
{
    reveal_strlit("# proto alias");
    let m = marker();
    assert(m =~= seq!['#', ' ', 'p', 'r', 'o', 't', 'o', ' ', 'a', 'l', 'i', 'a', 's']);
    assert(m.subrange(0, m.len() as int) =~= m);
    assert(occurs_at(m, m, 0));
}

/// An alias line keeps its meaning without a trailing carriage return: it
/// still starts with `alias `, still lacks the marker, and trims the same.
proof fn lemma_alias_line_without_cr(line: Seq<char>)
    requires
        has_prefix(line, "alias "@),
        !contains_seq(line, marker()),
    ensures
        has_prefix(strip_cr(line), "alias "@),
        !contains_seq(strip_cr(line), marker()),
        trim_white(strip_cr(line)) == trim_white(line),
{
    reveal_strlit("alias ");
    let pre = "alias "@;
    assert(pre =~= seq!['a', 'l', 'i', 'a', 's', ' ']);
    let l2 = strip_cr(line);
    assert(line.take(6)[0] == line[0]);
    assert(line[0] == 'a');
    if line.len() > 0 && line.last() == '\r' {
        assert(line.len() > 6) by {
            if line.len() == 6 {
                assert(line.take(6)[5] == line[5]);
                assert(line[5] == ' ');
            }
        }
        assert(l2.take(6) =~= line.take(6));
        assert forall|i: int| occurs_at(l2, marker(), i) implies occurs_at(line, marker(), i) by {
            assert(line.subrange(i, i + marker().len()) =~= l2.subrange(i, i + marker().len()));
        }
        let p = |c: char| is_white(c);
        assert(!p(line[0]));
        assert(trim_start_by(line, p) == line);
        assert(l2[0] == 'a');
        assert(trim_start_by(l2, p) == l2);
        assert(is_white(line.last()));
        assert(line.drop_last() == l2);
        assert(trim_end_by(line, p) == trim_end_by(l2, p));
    }
}

/// The pieces between newlines of a file with an alias line's block
/// appended: those of the file's text, the marker line, the alias line, and
/// the empty rest after the final newline.
proof fn lemma_block_split(existing: Seq<char>, line: Seq<char>)
    requires
        !line.contains('\n'),
    ensures
        split_char(existing + alias_block_spec(line), '\n')
            == split_char(existing, '\n') + seq![marker(), line, Seq::<char>::empty()],
{
    lemma_marker_line();
    let m = marker();
    let e = Seq::<char>::empty();
    let tail = line + seq!['\n'] + e;
    let mid = m + seq!['\n'] + tail;
    assert(existing + alias_block_spec(line) =~= existing + seq!['\n'] + mid) by {
        reveal_strlit("\n");
    }
    lemma_split_char_concat(existing, mid, '\n');
    lemma_split_char_concat(m, tail, '\n');
    lemma_split_char_concat(line, e, '\n');
    lemma_split_char_none(m, '\n');
    lemma_split_char_none(line, '\n');
    assert(split_char(e, '\n') =~= seq![e]);
    assert(split_char(tail, '\n') =~= seq![line, e]);
    assert(split_char(mid, '\n') =~= seq![m, line, e]);
}

/// The lines of a file with an alias line's block appended: those of the
/// file's text up to the block, then the marker line and the alias line.
proof fn lemma_block_lines(existing: Seq<char>, line: Seq<char>)
    requires
        !line.contains('\n'),
    ensures
        lines_of(existing + alias_block_spec(line))
            == split_char(existing, '\n').map_values(|t: Seq<char>| strip_cr(t)) + seq![marker(), strip_cr(line)],
{
    lemma_marker_line();
    lemma_block_split(existing, line);
    let m = marker();
    let pe = split_char(existing, '\n');
    let p = split_char(existing + alias_block_spec(line), '\n');
    assert(strip_cr(m) == m);
    assert(p.drop_last() =~= pe + seq![m, line]);
    assert(p.last().len() == 0);
    assert(lines_of(existing + alias_block_spec(line)) =~= pe.map_values(|t: Seq<char>| strip_cr(t)) + seq![m, strip_cr(line)]);
}

/// What `proto alias create` writes is what `proto alias list` shows: once
/// the block of an alias line is appended to a file, the file holds a proto
/// marker and the last alias listed is that line, trimmed. This holds of a
/// single line that starts with `alias ` and does not itself hold the marker.
pub proof fn lemma_listed_after_append(existing: Seq<char>, line: Seq<char>)
    requires
        has_prefix(line, "alias "@),
        !line.contains('\n'),
        !contains_seq(line, marker()),
    ensures
        scan_run(lines_of(existing + alias_block_spec(line))).found,
        scan_run(lines_of(existing + alias_block_spec(line))).aliases.len() > 0,
        scan_run(lines_of(existing + alias_block_spec(line))).aliases.last() == trim_white(line),
{
    lemma_marker_line();
    lemma_alias_line_without_cr(line);
    lemma_block_lines(existing, line);
    let x = split_char(existing, '\n').map_values(|t: Seq<char>| strip_cr(t));
    let m = marker();
    let ls = lines_of(existing + alias_block_spec(line));
    assert(ls.drop_last() =~= x.push(m));
    assert(ls.last() == strip_cr(line));
    assert(x.push(m).drop_last() =~= x);
    assert(x.push(m).last() == m);
    let st1 = scan_run(x.push(m));
    assert(st1.in_proto && st1.found);
}

/// State while scanning a file for proto aliases: whether the last marker
/// still waits for its alias line, whether a marker was seen, and the alias
/// lines found.
pub struct ScanState {
    pub in_proto: bool,
    pub found: bool,
    pub aliases: Seq<Seq<char>>,
}

/// One line of the scan: a line holding the marker opens an entry; the next
/// line that starts with `alias ` or `abbr ` is the entry's alias.
pub open spec fn scan_step(st: ScanState, line: Seq<char>) -> ScanState {
    if contains_seq(line, marker()) {
        ScanState { in_proto: true, found: true, aliases: st.aliases }
    } else if st.in_proto && (has_prefix(line, "alias "@) || has_prefix(line, "abbr "@)) {
        ScanState { in_proto: false, found: st.found, aliases: st.aliases.push(trim_white(line)) }
    } else {
        st
    }
}

/// The scan over the lines `ls`.
pub open spec fn scan_run(ls: Seq<Seq<char>>) -> ScanState
    decreases ls.len(),
{
    if ls.len() == 0 {
        ScanState { in_proto: false, found: false, aliases: Seq::empty() }
    } else {
        scan_step(scan_run(ls.drop_last()), ls.last())
    }
}

/// The number of marker lines among `ls`.
pub open spec fn marker_count(ls: Seq<Seq<char>>) -> nat
    decreases ls.len(),
{
    if ls.len() == 0 {
        0
    } else {
        marker_count(ls.drop_last()) + if contains_seq(ls.last(), marker()) { 1nat } else { 0nat }
    }
}

/// Each marker line introduces at most one listed alias: the aliases
/// listed, plus one while a marker still waits for its alias, are never
/// more than the marker lines; and a marker has been seen whenever an
/// alias is listed.
pub proof fn lemma_scan_one_alias_per_marker(ls: Seq<Seq<char>>)
    ensures
        scan_run(ls).aliases.len() + (if scan_run(ls).in_proto { 1int } else { 0int }) <= marker_count(ls),
        scan_run(ls).aliases.len() <= marker_count(ls),
        scan_run(ls).aliases.len() > 0 ==> scan_run(ls).found,
        scan_run(ls).in_proto ==> scan_run(ls).found,
    decreases ls.len(),
{
    if ls.len() > 0 {
        lemma_scan_one_alias_per_marker(ls.drop_last());
    }
}

/// Once the alias after the last marker is listed, lines without a marker
/// list nothing more: only the first alias line after a marker is proto's.
pub proof fn lemma_scan_no_alias_without_marker(ls: Seq<Seq<char>>, l: Seq<char>)
    requires
        !scan_run(ls).in_proto,
        !contains_seq(l, marker()),
    ensures
        scan_run(ls.push(l)).aliases == scan_run(ls).aliases,
        !scan_run(ls.push(l)).in_proto,
{
    assert(ls.push(l).drop_last() =~= ls);
}

/// After a marker's alias is listed, the next line is not listed unless it
/// is itself a marker's alias: an alias line right after a listed alias is
/// the user's own.
pub proof fn lemma_scan_alias_ends_block(ls: Seq<Seq<char>>, a: Seq<char>, b: Seq<char>)
    requires
        scan_run(ls).in_proto,
        !contains_seq(a, marker()),
        has_prefix(a, "alias "@),
        !contains_seq(b, marker()),
    ensures
        scan_run(ls.push(a)).aliases == scan_run(ls).aliases.push(trim_white(a)),
        scan_run(ls.push(a).push(b)).aliases == scan_run(ls).aliases.push(trim_white(a)),
{
    assert(ls.push(a).drop_last() =~= ls);
    assert(ls.push(a).push(b).drop_last() =~= ls.push(a));
}

/// Whether `content` holds a proto marker, and the proto aliases it defines
/// (trimmed), in order.
pub fn scan_aliases(content: &str) -> (res: (bool, Vec<String>))
    ensures
        res.0 == scan_run(lines_of(content@)).found,
        views(res.1@) == scan_run(lines_of(content@)).aliases,
{
    let ls = lines(content);
    let ghost v = views(ls@);
    let mut in_proto = false;
    let mut found = false;
    let mut aliases: Vec<String> = Vec::new();
    let mut i: usize = 0;
    assert(v.take(0) =~= Seq::<Seq<char>>::empty());
    assert(views(aliases@) =~= Seq::<Seq<char>>::empty());
    while i < ls.len()
        invariant
            v == views(ls@),
            v == lines_of(content@),
            i <= ls@.len(),
            scan_run(v.take(i as int)) == (ScanState { in_proto, found, aliases: views(aliases@) }),
        decreases ls@.len() - i,
    {
        let line = ls[i].as_str();
        assert(v.take(i + 1).drop_last() =~= v.take(i as int));
        assert(v.take(i + 1).last() == line@);
        if contains(line, "# proto alias") {
            in_proto = true;
            found = true;
        } else if in_proto && (starts_with(line, "alias ") || starts_with(line, "abbr ")) {
            let ghost before = views(aliases@);
            aliases.push(trim(line));
            assert(views(aliases@) =~= before.push(trim_white(line@)));
            in_proto = false;
        }
        i = i + 1;
    }
    assert(v.take(ls@.len() as int) =~= v);
    (found, aliases)
}

/// Whether `line` is proto's definition of the alias `name`:
/// `alias name=…` (bash, zsh, and fish without a description) or
/// `alias name '…` (fish with a description).
pub open spec fn defines_alias(line: Seq<char>, name: Seq<char>) -> bool {
    has_prefix(line, "alias "@ + name + "="@) || has_prefix(line, "alias "@ + name + " "@)
}

/// State while removing an alias: the lines kept, a marker line held back
/// until the line after it is seen, and how many aliases were removed.
pub struct RemovalState {
    pub kept: Seq<Seq<char>>,
    pub held: Option<Seq<char>>,
    pub removed: nat,
}

/// A line that does not follow a held marker: a marker line is held back,
/// any other line is kept.
pub open spec fn removal_take(kept: Seq<Seq<char>>, removed: nat, line: Seq<char>) -> RemovalState {
    if contains_seq(line, marker()) {
        RemovalState { kept, held: Some(line), removed }
    } else {
        RemovalState { kept: kept.push(line), held: None, removed }
    }
}

/// The kept lines without the blank line that `create` writes before a
/// marker, when they end with one.
pub open spec fn drop_blank(kept: Seq<Seq<char>>) -> Seq<Seq<char>> {
    if kept.len() > 0 && kept.last().len() == 0 {
        kept.drop_last()
    } else {
        kept
    }
}

/// One line of the removal. A line after a held marker that defines the
/// alias `name` removes that alias: the marker, the line, and a blank line
/// just before the marker are dropped. Otherwise the held marker is kept
/// and the line is taken as any other.
pub open spec fn removal_step(st: RemovalState, line: Seq<char>, name: Seq<char>) -> RemovalState {
    match st.held {
        Some(m) => if defines_alias(line, name) {
            RemovalState { kept: drop_blank(st.kept), held: None, removed: st.removed + 1 }
        } else {
            removal_take(st.kept.push(m), st.removed, line)
        },
        None => removal_take(st.kept, st.removed, line),
    }
}

/// The removal over the lines `ls`.
pub open spec fn removal_run(ls: Seq<Seq<char>>, name: Seq<char>) -> RemovalState
    decreases ls.len(),
{
    if ls.len() == 0 {
        RemovalState { kept: Seq::empty(), held: None, removed: 0 }
    } else {
        removal_step(removal_run(ls.drop_last(), name), ls.last(), name)
    }
}

/// The lines left at the end: those kept, then a marker still held.
pub open spec fn removal_lines(st: RemovalState) -> Seq<Seq<char>> {
    match st.held {
        Some(m) => st.kept.push(m),
        None => st.kept,
    }
}

/// The file's new content (the lines left, each ended by a newline) and the
/// number of aliases removed.
pub open spec fn remove_alias_spec(content: Seq<char>, name: Seq<char>) -> (Seq<char>, nat) {
    let st = removal_run(lines_of(content), name);
    (join_seqs(removal_lines(st), "\n"@) + "\n"@, st.removed)
}

/// The removal never counts more aliases than there are lines.
pub proof fn lemma_removal_count(ls: Seq<Seq<char>>, name: Seq<char>)
    ensures
        removal_run(ls, name).removed <= ls.len(),
    decreases ls.len(),
{
    if ls.len() > 0 {
        lemma_removal_count(ls.drop_last(), name);
    }
}

fn defines_alias_exec(line: &str, name: &str) -> (res: bool)
    ensures
        res == defines_alias(line@, name@),
{
    let mut eq = String::from_str("alias ");
    eq.append(name);
    let mut sp = eq.clone();
    eq.append("=");
    sp.append(" ");
    starts_with(line, eq.as_str()) || starts_with(line, sp.as_str())
}

/// Removes the alias `name` from a configuration file's content.
pub fn remove_alias(content: &str, name: &str) -> (res: (String, usize))
    ensures
        (res.0@, res.1 as nat) == remove_alias_spec(content@, name@),
{
    let ls = lines(content);
    let ghost v = views(ls@);
    let mut kept: Vec<String> = Vec::new();
    let mut held: Option<String> = None;
    let mut removed: usize = 0;
    let mut i: usize = 0;
    assert(v.take(0) =~= Seq::<Seq<char>>::empty());
    assert(views(kept@) =~= Seq::<Seq<char>>::empty());
    while i < ls.len()
        invariant
            v == views(ls@),
            v == lines_of(content@),
            i <= ls@.len(),
            removed <= i,
            removal_run(v.take(i as int), name@) == (RemovalState {
                kept: views(kept@),
                held: match held { Some(m) => Some(m@), None => None },
                removed: removed as nat,
            }),
        decreases ls@.len() - i,
    {
        let line = ls[i].as_str();
        assert(v.take(i + 1).drop_last() =~= v.take(i as int));
        assert(v.take(i + 1).last() == line@);
        let ghost before = views(kept@);
        let mut take = true;
        match held.take() {
            Some(m) => {
                if defines_alias_exec(line, name) {
                    take = false;
                    if kept.len() > 0 && kept[kept.len() - 1].unicode_len() == 0 {
                        kept.pop();
                        assert(views(kept@) =~= before.drop_last());
                    }
                    assert(views(kept@) == drop_blank(before));
                    removed = removed + 1;
                } else {
                    let ghost mv = m@;
                    kept.push(m);
                    assert(views(kept@) =~= before.push(mv));
                }
            },
            None => {},
        }
        if take {
            let ghost mid = views(kept@);
            if contains(line, "# proto alias") {
                held = Some(String::from_str(line));
            } else {
                kept.push(String::from_str(line));
                assert(views(kept@) =~= mid.push(line@));
            }
        }
        i = i + 1;
    }
    assert(v.take(ls@.len() as int) =~= v);
    let ghost kv = views(kept@);
    match held {
        Some(m) => {
            kept.push(m);
        },
        None => {},
    }
    assert(views(kept@) == removal_lines(removal_run(v, name@))) by {
        assert(views(kept@) =~= removal_lines(RemovalState {
            kept: kv,
            held: match held { Some(m) => Some(m@), None => None },
            removed: removed as nat,
        }));
    }
    let mut out = join(&kept, "\n");
    out.append("\n");
    (out, removed)
}

/// A file without marker lines keeps all its lines and loses no alias.
pub proof fn lemma_remove_without_markers(ls: Seq<Seq<char>>, name: Seq<char>)
    requires
        forall|i: int| 0 <= i < ls.len() ==> !contains_seq(ls[i], marker()),
    ensures
        removal_run(ls, name) == (RemovalState { kept: ls, held: None, removed: 0 }),
    decreases ls.len(),
{
    if ls.len() > 0 {
        let init = ls.drop_last();
        assert forall|i: int| 0 <= i < init.len() implies !contains_seq(init[i], marker()) by {
            assert(init[i] == ls[i]);
        }
        lemma_remove_without_markers(init, name);
        assert(!contains_seq(ls[ls.len() - 1], marker()));
        assert(init.push(ls.last()) =~= ls);
    } else {
        assert(ls =~= Seq::<Seq<char>>::empty());
    }
}

/// A prefix that does not end with a carriage return survives dropping one.
proof fn lemma_prefix_without_cr(line: Seq<char>, q: Seq<char>)
    requires
        has_prefix(line, q),
        q.len() > 0,
        q.last() != '\r',
    ensures
        has_prefix(strip_cr(line), q),
{
    if line.len() > 0 && line.last() == '\r' {
        if line.len() == q.len() {
            assert(line.take(q.len() as int)[q.len() - 1] == line.last());
        }
        assert(strip_cr(line).take(q.len() as int) =~= line.take(q.len() as int));
    }
}

/// Removing an alias undoes creating it: in a file whose lines hold no
/// proto marker, once the block of a line defining the alias `name` is
/// appended, removing `name` removes one alias and leaves exactly the
/// file's own lines. This holds of a single alias line and of a file that
/// does not end in a carriage return.
pub proof fn lemma_remove_undoes_create(existing: Seq<char>, line: Seq<char>, name: Seq<char>)
    requires
        defines_alias(line, name),
        !line.contains('\n'),
        existing.len() == 0 || existing.last() != '\r',
        forall|i: int| 0 <= i < lines_of(existing).len() ==> !contains_seq(#[trigger] lines_of(existing)[i], marker()),
    ensures
        removal_run(lines_of(existing + alias_block_spec(line)), name)
            == (RemovalState { kept: lines_of(existing), held: None, removed: 1 }),
        remove_alias_spec(existing + alias_block_spec(line), name) == (join_seqs(lines_of(existing), "\n"@) + "\n"@, 1nat),
{
    lemma_marker_line();
    lemma_block_lines(existing, line);
    lemma_split_char_len(existing, '\n');
    lemma_split_char_last(existing, '\n');
    let pe = split_char(existing, '\n');
    let d = pe.drop_last().map_values(|t: Seq<char>| strip_cr(t));
    let x = pe.map_values(|t: Seq<char>| strip_cr(t));
    let le = lines_of(existing);
    assert(x =~= d.push(strip_cr(pe.last())));
    if pe.last().len() > 0 {
        assert(strip_cr(pe.last()) == pe.last());
        assert(x =~= le);
    } else {
        assert(strip_cr(pe.last()) =~= Seq::<char>::empty());
        assert(x =~= le.push(Seq::<char>::empty()));
    }
    assert forall|i: int| 0 <= i < x.len() implies !contains_seq(x[i], marker()) by {
        if i < le.len() {
            assert(x[i] == le[i]);
        } else {
            assert(x[i].len() == 0);
            if contains_seq(x[i], marker()) {
                let k = choose|k: int| occurs_at(x[i], marker(), k);
            }
        }
    }
    lemma_remove_without_markers(x, name);
    let m = marker();
    let l2 = strip_cr(line);
    reveal_strlit("=");
    reveal_strlit(" ");
    if has_prefix(line, "alias "@ + name + "="@) {
        lemma_prefix_without_cr(line, "alias "@ + name + "="@);
    } else {
        lemma_prefix_without_cr(line, "alias "@ + name + " "@);
    }
    assert(defines_alias(l2, name));
    let ls = lines_of(existing + alias_block_spec(line));
    assert(ls =~= x + seq![m, l2]);
    assert(ls.drop_last() =~= x.push(m));
    assert(x.push(m).drop_last() =~= x);
    assert(x.push(m).last() == m);
    assert(removal_run(x.push(m), name) == (RemovalState { kept: x, held: Some(m), removed: 0 }));
    assert(drop_blank(x) =~= le);
}

} // verus!
