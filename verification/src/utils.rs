//! Configuration, package managers and system facts.

use vstd::prelude::*;
use crate::seqs::{first_where, lemma_first_where, lemma_first_where_at, lemma_first_where_none};
use crate::text::{
    decimal, has_prefix, join, join_seqs, lines, lines_of, starts_with_pred, spec_to_lowercase, split_char, split_on_char, starts_with,
    substring, to_lowercase, trim_char, trim_matches_char, u64_to_decimal, views,
    lemma_split_char_len,
};

verus! {

/// `base` joined with the path `comp`, as `Path::join` joins on Unix: an
/// absolute `comp` replaces `base`; otherwise a `/` is put between them
/// unless `base` is empty or already ends with one.
pub open spec fn join_path_spec(base: Seq<char>, comp: Seq<char>) -> Seq<char> {
    if comp.len() > 0 && comp[0] == '/' {
        comp
    } else if base.len() == 0 {
        comp
    } else if base.last() == '/' {
        base + comp
    } else {
        base + seq!['/'] + comp
    }
}

/// Joins the path `comp` to `base`.
pub fn join_path(base: &str, comp: &str) -> (res: String)
    ensures
        res@ == join_path_spec(base@, comp@),
{
    let n = base.unicode_len();
    if comp.unicode_len() > 0 && comp.get_char(0) == '/' {
        String::from_str(comp)
    } else if n == 0 {
        String::from_str(comp)
    } else if base.get_char(n - 1) == '/' {
        let mut s = String::from_str(base);
        s.append(comp);
        s
    } else {
        let mut s = String::from_str(base);
        s.append("/");
        s.append(comp);
        proof {
            reveal_strlit("/");
        }
        assert(s@ =~= base@ + seq!['/'] + comp@);
        s
    }
}


/// The user's configuration file, `config.toml`.
pub struct ProtoConfig {
    pub default_pm: Option<String>,
    pub install_dir: Option<String>,
    pub color: Option<bool>,
    pub completions_installed: Option<bool>,
    pub custom_repos: Option<Vec<String>>,
}

impl Default for ProtoConfig {
    /// Colour on, completions not installed, nothing else set.
    fn default() -> (res: ProtoConfig)
        ensures
            res.default_pm is None,
            res.install_dir is None,
            res.color == Some(true),
            res.completions_installed == Some(false),
            res.custom_repos is None,
    {
        ProtoConfig {
            default_pm: None,
            install_dir: None,
            color: Some(true),
            completions_installed: Some(false),
            custom_repos: None,
        }
    }
}

/// The configuration directory `proto` under the user's configuration
/// directory, or under `~/.config` when there is none.
pub fn config_dir(user_config_dir: Option<String>) -> (res: String)
    ensures
        res@ == join_path_spec(
            match user_config_dir {
                Some(d) => d@,
                None => "~/.config"@,
            },
            "proto"@,
        ),
{
    match user_config_dir {
        Some(d) => join_path(d.as_str(), "proto"),
        None => join_path("~/.config", "proto"),
    }
}

/// The configuration file in the configuration directory.
pub fn config_file(config_dir: &str) -> (res: String)
    ensures
        res@ == join_path_spec(config_dir@, "config.toml"@),
{
    join_path(config_dir, "config.toml")
}

/// A supported package manager.
#[derive(Debug, Clone, Copy, PartialEq, Eq, Structural)]
pub enum PackageManager {
    Pacman,
    Yay,
    Paru,
    Apt,
    Dnf,
    Zypper,
    Apk,
    Unknown,
}

/// The command name of a package manager.
pub open spec fn pm_name(pm: PackageManager) -> Seq<char> {
    match pm {
        PackageManager::Pacman => "pacman"@,
        PackageManager::Yay => "yay"@,
        PackageManager::Paru => "paru"@,
        PackageManager::Apt => "apt"@,
        PackageManager::Dnf => "dnf"@,
        PackageManager::Zypper => "zypper"@,
        PackageManager::Apk => "apk"@,
        PackageManager::Unknown => "unknown"@,
    }
}

/// Whether a package manager is an AUR helper (yay or paru).
pub open spec fn is_aur_helper_spec(pm: PackageManager) -> bool {
    pm == PackageManager::Yay || pm == PackageManager::Paru
}

impl PackageManager {
    /// The command name of the package manager.
    pub fn name(&self) -> (res: &'static str)
        ensures
            res@ == pm_name(*self),
    {
        match self {
            PackageManager::Pacman => "pacman",
            PackageManager::Yay => "yay",
            PackageManager::Paru => "paru",
            PackageManager::Apt => "apt",
            PackageManager::Dnf => "dnf",
            PackageManager::Zypper => "zypper",
            PackageManager::Apk => "apk",
            PackageManager::Unknown => "unknown",
        }
    }

    /// Whether the package manager is an AUR helper.
    pub fn is_aur_helper(&self) -> (res: bool)
        ensures
            res == is_aur_helper_spec(*self),
    {
        match self {
            PackageManager::Yay | PackageManager::Paru => true,
            _ => false,
        }
    }
}

/// The package managers looked for, in order; each is found by its command name.
pub open spec fn candidates() -> Seq<PackageManager> {
    seq![
        PackageManager::Pacman,
        PackageManager::Yay,
        PackageManager::Paru,
        PackageManager::Apt,
        PackageManager::Dnf,
        PackageManager::Zypper,
        PackageManager::Apk,
    ]
}

/// The package managers looked for, in order.
pub fn package_manager_candidates() -> (res: Vec<PackageManager>)
    ensures
        res@ == candidates(),
{
    let res = vec![
        PackageManager::Pacman,
        PackageManager::Yay,
        PackageManager::Paru,
        PackageManager::Apt,
        PackageManager::Dnf,
        PackageManager::Zypper,
        PackageManager::Apk,
    ];
    assert(res@ =~= candidates());
    res
}

/// The first `k` candidates that are marked available (a missing mark counts
/// as not available).
pub open spec fn available_prefix(available: Seq<bool>, k: nat) -> Seq<PackageManager>
    decreases k,
{
    if k == 0 {
        Seq::empty()
    } else {
        let r = available_prefix(available, (k - 1) as nat);
        if k - 1 < available.len() && available[k - 1] {
            r.push(candidates()[k - 1])
        } else {
            r
        }
    }
}

/// The available candidates in order, or just `Unknown` when none is.
pub open spec fn detected_spec(available: Seq<bool>) -> Seq<PackageManager> {
    let f = available_prefix(available, 7);
    if f.len() == 0 {
        seq![PackageManager::Unknown]
    } else {
        f
    }
}

/// The package managers found, given for each candidate (in candidate order)
/// whether its command is on the system.
pub fn detect_package_managers(available: &Vec<bool>) -> (res: Vec<PackageManager>)
    ensures
        res@ == detected_spec(available@),
{
    let cands = package_manager_candidates();
    let mut managers: Vec<PackageManager> = Vec::new();
    let mut k: usize = 0;
    while k < 7
        invariant
            cands@ == candidates(),
            k <= 7,
            managers@ == available_prefix(available@, k as nat),
        decreases 7 - k,
    {
        if k < available.len() && available[k] {
            managers.push(cands[k]);
        }
        k = k + 1;
    }
    if managers.len() == 0 {
        managers.push(PackageManager::Unknown);
        assert(managers@ =~= seq![PackageManager::Unknown]);
    }
    managers
}

/// The predicate "is an AUR helper".
pub open spec fn aur_helper() -> spec_fn(PackageManager) -> bool {
    |pm: PackageManager| is_aur_helper_spec(pm)
}

/// The package manager to use: the first AUR helper, else the first manager,
/// else `Unknown`.
pub open spec fn default_pm_spec(managers: Seq<PackageManager>) -> PackageManager {
    match first_where(managers, aur_helper()) {
        Some(i) => managers[i],
        None => if managers.len() > 0 { managers[0] } else { PackageManager::Unknown },
    }
}

/// Chooses the package manager to use among those found.
pub fn default_package_manager(managers: &Vec<PackageManager>) -> (res: PackageManager)
    ensures
        res == default_pm_spec(managers@),
{
    let ghost f = aur_helper();
    let n = managers.len();
    let mut i: usize = 0;
    while i < n
        invariant
            n == managers@.len(),
            f == aur_helper(),
            i <= n,
            forall|j: int| 0 <= j < i ==> !f(managers@[j]),
        decreases n - i,
    {
        if managers[i].is_aur_helper() {
            proof {
                lemma_first_where_at(managers@, f, i as int);
            }
            return managers[i];
        }
        i = i + 1;
    }
    proof {
        lemma_first_where_none(managers@, f);
    }
    if n > 0 {
        managers[0]
    } else {
        PackageManager::Unknown
    }
}

/// Which package manager is used, by what is installed: yay first, then paru,
/// then the first installed candidate in order, and `Unknown` when none is.
pub proof fn lemma_default_package_manager(available: Seq<bool>)
    requires
        available.len() == 7,
    ensures
        available[1] ==> default_pm_spec(detected_spec(available)) == PackageManager::Yay,
        !available[1] && available[2] ==> default_pm_spec(detected_spec(available)) == PackageManager::Paru,
        !available[1] && !available[2] ==> default_pm_spec(detected_spec(available)) == detected_spec(available)[0],
        (forall|i: int| 0 <= i < 7 ==> !available[i]) <==> default_pm_spec(detected_spec(available)) == PackageManager::Unknown,
{
    reveal_with_fuel(available_prefix, 8);
    reveal_with_fuel(first_where, 8);
    let d = detected_spec(available);
    assert(d.len() <= 7);
}

/// The command that lists the installed packages of `pm`, one per line, or
/// `None` for `Unknown`.
pub open spec fn package_count_command_spec(pm: PackageManager) -> Option<(Seq<char>, Seq<Seq<char>>)> {
    match pm {
        PackageManager::Pacman | PackageManager::Yay | PackageManager::Paru => Some(("pacman"@, seq!["-Q"@])),
        PackageManager::Apt => Some(("dpkg-query"@, seq!["-f"@, "${Package}\n"@, "-W"@])),
        PackageManager::Dnf | PackageManager::Zypper => Some(("rpm"@, seq!["-qa"@])),
        PackageManager::Apk => Some(("apk"@, seq!["info"@])),
        PackageManager::Unknown => None,
    }
}

/// A vector of owned strings made from string literals.
pub fn owned_strings(items: &[&str]) -> (res: Vec<String>)
    ensures
        views(res@) == items@.map_values(|s: &str| s@),
{
    let mut out: Vec<String> = Vec::new();
    let mut i: usize = 0;
    while i < items.len()
        invariant
            i <= items@.len(),
            views(out@) == items@.take(i as int).map_values(|s: &str| s@),
        decreases items@.len() - i,
    {
        let ghost before = views(out@);
        out.push(String::from_str(items[i]));
        assert(views(out@) =~= before.push(items@[i as int]@));
        assert(views(out@) =~= items@.take(i + 1).map_values(|s: &str| s@));
        i = i + 1;
    }
    assert(items@.take(items@.len() as int) =~= items@);
    out
}

/// The command that lists the installed packages of `pm`.
pub fn package_count_command(pm: PackageManager) -> (res: Option<(String, Vec<String>)>)
    ensures
        match res {
            Some((cmd, args)) => package_count_command_spec(pm) == Some((cmd@, views(args@))),
            None => package_count_command_spec(pm) is None,
        },
{
    match pm {
        PackageManager::Pacman | PackageManager::Yay | PackageManager::Paru => {
            let args = owned_strings(&["-Q"]);
            assert(views(args@) =~= seq!["-Q"@]);
            Some((String::from_str("pacman"), args))
        },
        PackageManager::Apt => {
            let args = owned_strings(&["-f", "${Package}\n", "-W"]);
            assert(views(args@) =~= seq!["-f"@, "${Package}\n"@, "-W"@]);
            Some((String::from_str("dpkg-query"), args))
        },
        PackageManager::Dnf | PackageManager::Zypper => {
            let args = owned_strings(&["-qa"]);
            assert(views(args@) =~= seq!["-qa"@]);
            Some((String::from_str("rpm"), args))
        },
        PackageManager::Apk => {
            let args = owned_strings(&["info"]);
            assert(views(args@) =~= seq!["info"@]);
            Some((String::from_str("apk"), args))
        },
        PackageManager::Unknown => None,
    }
}

/// Number of lines in `s`.
pub fn count_lines(s: &str) -> (res: usize)
    ensures
        res == lines_of(s@).len(),
{
    let l = lines(s);
    l.len()
}

/// Number of installed packages: the lines of the listing command's output,
/// or `None` when the command could not be run.
pub fn get_package_count(output: Option<String>) -> (res: Option<usize>)
    ensures
        match output {
            Some(o) => res == Some(lines_of(o@).len() as usize),
            None => res is None,
        },
{
    match output {
        Some(o) => Some(count_lines(o.as_str())),
        None => None,
    }
}


/// The parts of an uptime of `t` seconds: whole days, hours and minutes, each
/// only when non-zero, or "just now" when all are zero.
pub open spec fn uptime_parts(t: nat) -> Seq<Seq<char>> {
    let d = t / 86400;
    let h = (t % 86400) / 3600;
    let m = (t % 3600) / 60;
    let p = (if d > 0 { seq![decimal(d) + "d"@] } else { Seq::empty() })
        + (if h > 0 { seq![decimal(h) + "h"@] } else { Seq::empty() })
        + (if m > 0 { seq![decimal(m) + "m"@] } else { Seq::empty() });
    if p.len() == 0 {
        seq!["just now"@]
    } else {
        p
    }
}

/// Uptime as shown: the parts joined by spaces, or "Unknown" when it could
/// not be read.
pub open spec fn uptime_text(total_secs: Option<u64>) -> Seq<char> {
    match total_secs {
        Some(t) => join_seqs(uptime_parts(t as nat), " "@),
        None => "Unknown"@,
    }
}

fn number_with_unit(n: u64, unit: &str) -> (res: String)
    ensures
        res@ == decimal(n as nat) + unit@,
{
    let mut s = u64_to_decimal(n);
    s.append(unit);
    s
}

/// The uptime, given the whole seconds since boot (`None` when unknown).
pub fn get_uptime(total_secs: Option<u64>) -> (res: String)
    ensures
        res@ == uptime_text(total_secs),
{
    match total_secs {
        None => String::from_str("Unknown"),
        Some(t) => {
            let d = t / 86400;
            let h = (t % 86400) / 3600;
            let m = (t % 3600) / 60;
            let mut parts: Vec<String> = Vec::new();
            let ghost e = Seq::<Seq<char>>::empty();
            if d > 0 {
                parts.push(number_with_unit(d, "d"));
            }
            let ghost p1 = views(parts@);
            assert(p1 =~= (if d > 0 { seq![decimal(d as nat) + "d"@] } else { e }));
            if h > 0 {
                parts.push(number_with_unit(h, "h"));
            }
            let ghost p2 = views(parts@);
            assert(p2 =~= p1 + (if h > 0 { seq![decimal(h as nat) + "h"@] } else { e }));
            if m > 0 {
                parts.push(number_with_unit(m, "m"));
            }
            assert(views(parts@) =~= p2 + (if m > 0 { seq![decimal(m as nat) + "m"@] } else { e }));
            if parts.len() == 0 {
                parts.push(String::from_str("just now"));
                assert(views(parts@) =~= seq!["just now"@]);
            }
            join(&parts, " ")
        },
    }
}

/// Distribution name from the text of `/etc/os-release`: the first line that
/// starts with `PRETTY_NAME=`, after that prefix, without surrounding double
/// quotes; "Unknown" when there is no such line or no file.
pub open spec fn distro_name_spec(os_release: Option<Seq<char>>) -> Seq<char> {
    match os_release {
        None => "Unknown"@,
        Some(c) => {
            let ls = lines_of(c);
            match first_where(ls, starts_with_pred("PRETTY_NAME="@)) {
                Some(i) => trim_char(ls[i].skip("PRETTY_NAME="@.len() as int), '"'),
                None => "Unknown"@,
            }
        },
    }
}

/// The distribution's name from the text of `/etc/os-release`.
fn pretty_name_in(content: &str) -> (res: String)
    ensures
        res@ == distro_name_spec(Some(content@)),
{
    let ls = lines(content);
    let ghost v = views(ls@);
    let prefix = "PRETTY_NAME=";
    let ghost f = starts_with_pred(prefix@);
    let plen = prefix.unicode_len();
    let mut i: usize = 0;
    while i < ls.len()
        invariant
            v == views(ls@),
            v == lines_of(content@),
            f == starts_with_pred(prefix@),
            prefix@ == "PRETTY_NAME="@,
            plen == prefix@.len(),
            i <= ls@.len(),
            forall|j: int| 0 <= j < i ==> !f(v[j]),
        decreases ls@.len() - i,
    {
        let line = ls[i].as_str();
        if starts_with(line, prefix) {
            proof {
                lemma_first_where_at(v, f, i as int);
            }
            let rest = substring(line, plen, line.unicode_len());
            assert(rest@ =~= v[i as int].skip(plen as int));
            return trim_matches_char(rest.as_str(), '"');
        }
        i = i + 1;
    }
    proof {
        lemma_first_where_none(v, f);
    }
    String::from_str("Unknown")
}

/// The distribution's name from `/etc/os-release` (`None` when unreadable).
pub fn distro_name(os_release: Option<String>) -> (res: String)
    ensures
        res@ == distro_name_spec(match os_release { Some(c) => Some(c@), None => None }),
{
    match os_release {
        None => String::from_str("Unknown"),
        Some(content) => pretty_name_in(content.as_str()),
    }
}

/// The shell's name: the last `/`-separated piece of `$SHELL`, or of
/// "Unknown" when it is not set.
pub open spec fn shell_name_spec(shell_var: Option<Seq<char>>) -> Seq<char> {
    split_char(
        match shell_var {
            Some(s) => s,
            None => "Unknown"@,
        },
        '/',
    ).last()
}

/// The user's shell, given `$SHELL`.
pub fn get_shell(shell_var: Option<String>) -> (res: String)
    ensures
        res@ == shell_name_spec(match shell_var { Some(s) => Some(s@), None => None }),
{
    let v = match shell_var {
        Some(s) => s,
        None => String::from_str("Unknown"),
    };
    let mut pieces = split_on_char(v.as_str(), '/');
    proof {
        lemma_split_char_len(v@, '/');
    }
    let ghost p = views(pieces@);
    let last = pieces.pop();
    match last {
        Some(s) => {
            assert(s@ == p.last());
            s
        },
        None => String::new(),
    }
}

/// The predicate "is set and not empty".
pub open spec fn set_and_nonempty() -> spec_fn(Option<Seq<char>>) -> bool {
    |v: Option<Seq<char>>| v is Some && v->0.len() > 0
}

/// The optional strings' views.
pub open spec fn opt_views(v: Seq<Option<String>>) -> Seq<Option<Seq<char>>> {
    v.map_values(|o: Option<String>| match o { Some(s) => Some(s@), None => None })
}

/// Desktop environment or window manager: the first of the desktop variables
/// that is set and not empty, in lower case, or "tty" when none is.
pub open spec fn de_wm_spec(values: Seq<Option<Seq<char>>>) -> Seq<char> {
    match first_where(values, set_and_nonempty()) {
        Some(i) => spec_to_lowercase(values[i]->0),
        None => "tty"@,
    }
}

/// The desktop environment, given the values of `XDG_CURRENT_DESKTOP`,
/// `DESKTOP_SESSION` and `XDG_SESSION_DESKTOP`, in that order.
pub fn get_de_wm(values: &Vec<Option<String>>) -> (res: String)
    ensures
        res@ == de_wm_spec(opt_views(values@)),
{
    let ghost v = opt_views(values@);
    let ghost f = set_and_nonempty();
    let mut i: usize = 0;
    while i < values.len()
        invariant
            v == opt_views(values@),
            f == set_and_nonempty(),
            i <= values@.len(),
            forall|j: int| 0 <= j < i ==> !f(v[j]),
        decreases values@.len() - i,
    {
        match &values[i] {
            Some(val) => {
                if val.unicode_len() > 0 {
                    proof {
                        lemma_first_where_at(v, f, i as int);
                    }
                    return to_lowercase(val.as_str());
                }
            },
            None => {},
        }
        i = i + 1;
    }
    proof {
        lemma_first_where_none(v, f);
    }
    String::from_str("tty")
}

/// The value, or "Unknown" when it is absent.
pub open spec fn or_unknown(v: Option<Seq<char>>) -> Seq<char> {
    match v {
        Some(s) => s,
        None => "Unknown"@,
    }
}

fn value_or_unknown(v: Option<String>) -> (res: String)
    ensures
        res@ == or_unknown(match v { Some(s) => Some(s@), None => None }),
{
    match v {
        Some(s) => s,
        None => String::from_str("Unknown"),
    }
}

/// The terminal, given `$TERM`.
pub fn get_terminal(term_var: Option<String>) -> (res: String)
    ensures
        res@ == or_unknown(match term_var { Some(s) => Some(s@), None => None }),
{
    value_or_unknown(term_var)
}

/// The kernel release, given the output of `uname -r` (`None` when it could
/// not be run).
pub fn get_kernel(uname_output: Option<String>) -> (res: String)
    ensures
        res@ == or_unknown(match uname_output { Some(s) => Some(s@), None => None }),
{
    value_or_unknown(uname_output)
}

/// The machine architecture, given the output of `uname -m` (`None` when it
/// could not be run).
pub fn get_arch(uname_output: Option<String>) -> (res: String)
    ensures
        res@ == or_unknown(match uname_output { Some(s) => Some(s@), None => None }),
{
    value_or_unknown(uname_output)
}

} // verus!
