//! Updating proto from its GitHub releases: build targets, asset and
//! download addresses, and SHA-256 checksum verification.

use vstd::prelude::*;
use sha2::Digest;
use crate::seqs::{first_where, lemma_first_where_at, lemma_first_where_none};
use crate::text::{
    char_is_white, is_white, lemma_trim_start_by, matches_at, occurs_at, push_char, spec_to_lowercase,
    str_eq, substring, to_lowercase, trim_start_by,
};

verus! {

/// A subcommand of `proto manage`.
#[derive(Debug)]
pub enum ManageAction {
    /// Replace the running binary with the latest release.
    Update,
    /// Remove the binary, and with `purge` the cloned repository too.
    Uninstall { purge: bool },
    /// Remove proto's configuration and state directories.
    Reset,
}

/// The release build target for an architecture and operating system, or
/// the empty text when there is no release build for them.
pub open spec fn target_spec(arch: Seq<char>, os: Seq<char>) -> Seq<char> {
    if arch == "x86_64"@ && os == "linux"@ {
        "x86_64-unknown-linux-gnu"@
    } else if arch == "aarch64"@ && os == "linux"@ {
        "aarch64-unknown-linux-gnu"@
    } else if arch == "x86_64"@ && os == "macos"@ {
        "x86_64-apple-darwin"@
    } else if arch == "aarch64"@ && os == "macos"@ {
        "aarch64-apple-darwin"@
    } else if arch == "x86_64"@ && os == "windows"@ {
        "x86_64-pc-windows-msvc.exe"@
    } else if arch == "aarch64"@ && os == "windows"@ {
        "aarch64-pc-windows-msvc.exe"@
    } else {
        Seq::empty()
    }
}

/// The operating-system part of a release build target.
pub open spec fn os_target(os: Seq<char>) -> Seq<char> {
    if os == "linux"@ {
        "unknown-linux-gnu"@
    } else if os == "macos"@ {
        "apple-darwin"@
    } else {
        "pc-windows-msvc.exe"@
    }
}

/// Whether proto publishes a release build for the pair: x86_64 or aarch64,
/// on linux, macos or windows.
pub open spec fn has_release_build(arch: Seq<char>, os: Seq<char>) -> bool {
    (arch == "x86_64"@ || arch == "aarch64"@) && (os == "linux"@ || os == "macos"@ || os == "windows"@)
}

/// The target names the machine it is for: for a pair with a release build
/// it is the architecture, a dash and the system's part (an Apple-silicon Mac
/// gets `aarch64-apple-darwin`); for any other pair there is none.
pub proof fn lemma_target_names_the_platform(arch: Seq<char>, os: Seq<char>)
    ensures
        has_release_build(arch, os) ==> target_spec(arch, os) == arch + "-"@ + os_target(os),
        has_release_build(arch, os) ==> target_spec(arch, os).len() > arch.len(),
        !has_release_build(arch, os) ==> target_spec(arch, os).len() == 0,
{
    reveal_strlit("x86_64");
    reveal_strlit("aarch64");
    reveal_strlit("linux");
    reveal_strlit("macos");
    reveal_strlit("windows");
    reveal_strlit("-");
    reveal_strlit("unknown-linux-gnu");
    reveal_strlit("apple-darwin");
    reveal_strlit("pc-windows-msvc.exe");
    reveal_strlit("x86_64-unknown-linux-gnu");
    reveal_strlit("aarch64-unknown-linux-gnu");
    reveal_strlit("x86_64-apple-darwin");
    reveal_strlit("aarch64-apple-darwin");
    reveal_strlit("x86_64-pc-windows-msvc.exe");
    reveal_strlit("aarch64-pc-windows-msvc.exe");
    reveal_strlit("");
    assert("x86_64"@[0] != "aarch64"@[0]);
    assert("x86_64"@ != "aarch64"@);
    assert("linux"@[0] != "macos"@[0]);
    assert("linux"@ != "macos"@);
    assert("linux"@[0] != "windows"@[0]);
    assert("linux"@ != "windows"@);
    assert("macos"@[0] != "windows"@[0]);
    assert("macos"@ != "windows"@);
    if has_release_build(arch, os) {
        if arch == "x86_64"@ {
            if os == "linux"@ {
                assert("x86_64-unknown-linux-gnu"@ =~= arch + "-"@ + os_target(os));
            } else if os == "macos"@ {
                assert("x86_64-apple-darwin"@ =~= arch + "-"@ + os_target(os));
            } else {
                assert("x86_64-pc-windows-msvc.exe"@ =~= arch + "-"@ + os_target(os));
            }
        } else {
            if os == "linux"@ {
                assert("aarch64-unknown-linux-gnu"@ =~= arch + "-"@ + os_target(os));
            } else if os == "macos"@ {
                assert("aarch64-apple-darwin"@ =~= arch + "-"@ + os_target(os));
            } else {
                assert("aarch64-pc-windows-msvc.exe"@ =~= arch + "-"@ + os_target(os));
            }
        }
    }
}

/// The release build target for the architecture and operating system (as
/// `std::env::consts` names them); empty when there is none.
pub fn detect_target(arch: &str, os: &str) -> (res: String)
    ensures
        res@ == target_spec(arch@, os@),
{
    let x86 = str_eq(arch, "x86_64");
    let arm = str_eq(arch, "aarch64");
    let linux = str_eq(os, "linux");
    let macos = str_eq(os, "macos");
    let windows = str_eq(os, "windows");
    let t = if x86 && linux {
        "x86_64-unknown-linux-gnu"
    } else if arm && linux {
        "aarch64-unknown-linux-gnu"
    } else if x86 && macos {
        "x86_64-apple-darwin"
    } else if arm && macos {
        "aarch64-apple-darwin"
    } else if x86 && windows {
        "x86_64-pc-windows-msvc.exe"
    } else if arm && windows {
        "aarch64-pc-windows-msvc.exe"
    } else {
        ""
    };
    proof {
        reveal_strlit("");
    }
    String::from_str(t)
}

/// Whether `p` ends `s`.
pub open spec fn has_suffix(s: Seq<char>, p: Seq<char>) -> bool {
    p.len() <= s.len() && s.skip(s.len() - p.len()) == p
}

/// `s` with trailing copies of the non-empty `p` removed, as `str::trim_end_matches`.
pub open spec fn trim_end_str(s: Seq<char>, p: Seq<char>) -> Seq<char>
    decreases s.len(),
{
    if p.len() > 0 && has_suffix(s, p) {
        trim_end_str(s.take(s.len() - p.len()), p)
    } else {
        s
    }
}

/// `s` with trailing copies of the non-empty `p` removed.
pub fn trim_end_matches_str(s: &str, p: &str) -> (res: String)
    requires
        p@.len() > 0,
    ensures
        res@ == trim_end_str(s@, p@),
{
    let m = p.unicode_len();
    let mut end = s.unicode_len();
    assert(s@.take(end as int) =~= s@);
    while end >= m && matches_at(s, p, end - m)
        invariant
            m == p@.len(),
            m > 0,
            end <= s@.len(),
            trim_end_str(s@.take(end as int), p@) == trim_end_str(s@, p@),
        decreases end,
    {
        let ghost t = s@.take(end as int);
        assert(t.skip(t.len() - m) =~= s@.subrange(end - m, end as int));
        assert(t.take(t.len() - m) =~= s@.take(end - m));
        end = end - m;
    }
    proof {
        let t = s@.take(end as int);
        if end >= m {
            assert(t.skip(t.len() - m) =~= s@.subrange(end - m, end as int));
            assert(!occurs_at(s@, p@, end - m));
        }
        assert(s@.take(s@.len() as int) =~= s@);
    }
    substring(s, 0, end)
}

/// The release asset of proto for a build target: `proto-<target>` without
/// `.exe`, then `.exe` on Windows.
pub open spec fn release_asset_spec(target: Seq<char>, windows: bool) -> Seq<char> {
    "proto-"@ + trim_end_str(target, ".exe"@) + if windows { ".exe"@ } else { Seq::empty() }
}

/// Name of proto's release asset for `target`.
pub fn release_asset_name(target: &str, windows: bool) -> (res: String)
    ensures
        res@ == release_asset_spec(target@, windows),
{
    proof {
        reveal_strlit(".exe");
    }
    let base = trim_end_matches_str(target, ".exe");
    let mut s = String::from_str("proto-");
    s.append(base.as_str());
    if windows {
        s.append(".exe");
    } else {
        assert(s@ =~= s@ + Seq::<char>::empty());
    }
    s
}

/// The download address of a release asset.
pub fn release_download_url(tag: &str, asset: &str) -> (res: String)
    ensures
        res@ == "https://github.com/proto-cli/proto-cli/releases/download/"@ + tag@ + "/"@ + asset@,
{
    let mut s = String::from_str("https://github.com/proto-cli/proto-cli/releases/download/");
    s.append(tag);
    s.append("/");
    s.append(asset);
    s
}

/// The address of the published checksum of a download.
pub fn checksum_url(download_url: &str) -> (res: String)
    ensures
        res@ == download_url@ + ".sha256"@,
{
    let mut s = String::from_str(download_url);
    s.append(".sha256");
    s
}

/// The predicate "is white space".
pub open spec fn white() -> spec_fn(char) -> bool {
    |c: char| is_white(c)
}

/// The first white-space-separated word of `s`, as `split_whitespace().next()`.
pub open spec fn first_word(s: Seq<char>) -> Option<Seq<char>> {
    let t = trim_start_by(s, white());
    if t.len() == 0 {
        None
    } else {
        match first_where(t, white()) {
            Some(k) => Some(t.take(k)),
            None => Some(t),
        }
    }
}

/// The checksum a `.sha256` file publishes: its first word in lower case,
/// or the empty text when it has none.
pub open spec fn expected_checksum_spec(text: Seq<char>) -> Seq<char> {
    match first_word(text) {
        Some(w) => spec_to_lowercase(w),
        None => Seq::empty(),
    }
}

/// The checksum that a `.sha256` file publishes.
pub fn expected_checksum(text: &str) -> (res: String)
    ensures
        res@ == expected_checksum_spec(text@),
{
    let ghost p = white();
    let n = text.unicode_len();
    let mut a: usize = 0;
    while a < n && char_is_white(text.get_char(a))
        invariant
            n == text@.len(),
            p == white(),
            a <= n,
            forall|j: int| 0 <= j < a ==> p(text@[j]),
        decreases n - a,
    {
        a = a + 1;
    }
    proof {
        lemma_trim_start_by(text@, p, a as int);
    }
    if a == n {
        return String::new();
    }
    let ghost t = text@.skip(a as int);
    let mut b: usize = a;
    while b < n && !char_is_white(text.get_char(b))
        invariant
            n == text@.len(),
            p == white(),
            t == text@.skip(a as int),
            a <= b <= n,
            forall|j: int| 0 <= j < b - a ==> !p(t[j]),
        decreases n - b,
    {
        b = b + 1;
    }
    proof {
        if b < n {
            lemma_first_where_at(t, p, (b - a) as int);
        } else {
            lemma_first_where_none(t, p);
            assert(t.take((b - a) as int) =~= t);
        }
        assert(t.take((b - a) as int) =~= text@.subrange(a as int, b as int));
    }
    let word = substring(text, a, b);
    to_lowercase(word.as_str())
}

/// The SHA-256 digest of a sequence of bytes.
pub uninterp spec fn spec_sha256(data: Seq<u8>) -> Seq<u8>;

/// sha2's `Sha256::digest`. Trusted: the result is the SHA-256 digest of
/// `data`, a function of `data` alone named `spec_sha256`, and is 32 bytes long.
#[verifier::external_body]
fn sha256_digest(data: &[u8]) -> (res: Vec<u8>)
    ensures
        res@ == spec_sha256(data@),
        res@.len() == 32,
{
    sha2::Sha256::digest(data).to_vec()
}

/// The lower-case hexadecimal digit for `d` (`d < 16`).
pub open spec fn hex_digit(d: nat) -> char {
    if d < 10 {
        crate::text::digit_char(d)
    } else if d == 10 { 'a' }
    else if d == 11 { 'b' }
    else if d == 12 { 'c' }
    else if d == 13 { 'd' }
    else if d == 14 { 'e' }
    else { 'f' }
}

/// Two lower-case hexadecimal digits per byte, as `{:02x}` on each byte.
pub open spec fn hex_lower(bytes: Seq<u8>) -> Seq<char>
    decreases bytes.len(),
{
    if bytes.len() == 0 {
        Seq::empty()
    } else {
        hex_lower(bytes.drop_last()).push(hex_digit((bytes.last() / 16) as nat)).push(hex_digit((bytes.last() % 16) as nat))
    }
}

fn hex_char(d: u8) -> (c: char)
    requires
        d < 16,
    ensures
        c == hex_digit(d as nat),
{
    if d == 0 { '0' }
    else if d == 1 { '1' }
    else if d == 2 { '2' }
    else if d == 3 { '3' }
    else if d == 4 { '4' }
    else if d == 5 { '5' }
    else if d == 6 { '6' }
    else if d == 7 { '7' }
    else if d == 8 { '8' }
    else if d == 9 { '9' }
    else if d == 10 { 'a' }
    else if d == 11 { 'b' }
    else if d == 12 { 'c' }
    else if d == 13 { 'd' }
    else if d == 14 { 'e' }
    else { 'f' }
}

/// Lower-case hexadecimal notation of bytes.
pub fn to_hex_lower(bytes: &[u8]) -> (res: String)
    ensures
        res@ == hex_lower(bytes@),
{
    let mut s = String::new();
    let mut i: usize = 0;
    assert(bytes@.take(0) =~= Seq::<u8>::empty());
    while i < bytes.len()
        invariant
            i <= bytes@.len(),
            s@ == hex_lower(bytes@.take(i as int)),
        decreases bytes@.len() - i,
    {
        let b = bytes[i];
        assert(bytes@.take(i + 1).drop_last() =~= bytes@.take(i as int));
        assert(bytes@.take(i + 1).last() == b);
        push_char(&mut s, hex_char(b / 16));
        push_char(&mut s, hex_char(b % 16));
        i = i + 1;
    }
    assert(bytes@.take(bytes@.len() as int) =~= bytes@);
    s
}

/// The SHA-256 checksum of `data` in lower-case hexadecimal.
pub fn sha256_hex(data: &[u8]) -> (res: String)
    ensures
        res@ == hex_lower(spec_sha256(data@)),
        res@.len() == 64,
{
    let digest = sha256_digest(data);
    proof {
        lemma_hex_lower_len(spec_sha256(data@));
    }
    to_hex_lower(digest.as_slice())
}

/// Hexadecimal notation has two digits per byte.
pub proof fn lemma_hex_lower_len(bytes: Seq<u8>)
    ensures
        hex_lower(bytes).len() == 2 * bytes.len(),
    decreases bytes.len(),
{
    if bytes.len() > 0 {
        lemma_hex_lower_len(bytes.drop_last());
    }
}

/// The outcome of checking a download against its published checksum.
#[derive(Debug, Clone, Copy, PartialEq, Eq, Structural)]
pub enum ChecksumCheck {
    /// The checksum file held no checksum.
    Unparsable,
    /// The download matches.
    Verified,
    /// The download does not match.
    Mismatch,
}

/// Checks the download's checksum against the published one.
pub fn check_checksum(expected: &str, actual: &str) -> (res: ChecksumCheck)
    ensures
        res == if expected@.len() == 0 {
            ChecksumCheck::Unparsable
        } else if actual@ == expected@ {
            ChecksumCheck::Verified
        } else {
            ChecksumCheck::Mismatch
        },
{
    if expected.unicode_len() == 0 {
        ChecksumCheck::Unparsable
    } else if str_eq(actual, expected) {
        ChecksumCheck::Verified
    } else {
        ChecksumCheck::Mismatch
    }
}

} // verus!
