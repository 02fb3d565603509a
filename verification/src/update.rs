//! Release-version comparison and the once-a-day update-check schedule.

use vstd::prelude::*;
use crate::utils::{join_path, join_path_spec};
use crate::text::{
    parse_u32, parse_u32_spec, parse_u64, parse_u64_spec, split_char, split_on_char, trim,
    trim_start_char, trim_start_matches_char, trim_white, views,
};

verus! {

/// Seconds between two update checks.
pub const CHECK_INTERVAL_SECS: u64 = 86400;

/// The numbers of the pieces that parse as `u32`, in order (pieces that do
/// not parse are left out).
pub open spec fn parse_each(pieces: Seq<Seq<char>>) -> Seq<u32>
    decreases pieces.len(),
{
    if pieces.len() == 0 {
        Seq::empty()
    } else {
        let r = parse_each(pieces.drop_last());
        match parse_u32_spec(pieces.last()) {
            Some(v) => r.push(v),
            None => r,
        }
    }
}

/// The numeric components of a version string: leading `v`s removed, split at
/// `.`, and the components that parse as `u32` kept.
pub open spec fn version_parts(s: Seq<char>) -> Seq<u32> {
    parse_each(split_char(trim_start_char(s, 'v'), '.'))
}

/// Whether the version numbered `lat` is newer than `cur`, judged on the first
/// three components.
pub open spec fn newer_than(lat: Seq<u32>, cur: Seq<u32>) -> bool {
    ||| lat[0] > cur[0]
    ||| (lat[0] == cur[0] && lat[1] > cur[1])
    ||| (lat[0] == cur[0] && lat[1] == cur[1] && lat[2] > cur[2])
}

/// `None` when either version has fewer than three numeric components, else
/// whether `latest` is newer than `current`.
pub open spec fn compare_versions_spec(current: Seq<char>, latest: Seq<char>) -> Option<bool> {
    let cur = version_parts(current);
    let lat = version_parts(latest);
    if cur.len() < 3 || lat.len() < 3 {
        None
    } else {
        Some(newer_than(lat, cur))
    }
}

/// The numeric components of a version string.
pub fn version_numbers(s: &str) -> (res: Vec<u32>)
    ensures
        res@ == version_parts(s@),
{
    let trimmed = trim_start_matches_char(s, 'v');
    let pieces = split_on_char(trimmed.as_str(), '.');
    let ghost p = views(pieces@);
    let mut out: Vec<u32> = Vec::new();
    let mut i: usize = 0;
    assert(p.take(0) =~= Seq::<Seq<char>>::empty());
    while i < pieces.len()
        invariant
            p == views(pieces@),
            i <= pieces@.len(),
            out@ == parse_each(p.take(i as int)),
        decreases pieces@.len() - i,
    {
        assert(p.take(i + 1).drop_last() =~= p.take(i as int));
        assert(p.take(i + 1).last() == pieces@[i as int]@);
        match parse_u32(pieces[i].as_str()) {
            Some(v) => out.push(v),
            None => {},
        }
        i = i + 1;
    }
    assert(p.take(pieces@.len() as int) =~= p);
    out
}

/// Whether the release `latest` is newer than the running `current` version;
/// `None` when either has fewer than three numeric components.
pub fn compare_versions(current: &str, latest: &str) -> (res: Option<bool>)
    ensures
        res == compare_versions_spec(current@, latest@),
{
    let cur = version_numbers(current);
    let lat = version_numbers(latest);
    if cur.len() < 3 || lat.len() < 3 {
        return None;
    }
    if lat[0] > cur[0] {
        return Some(true);
    }
    if lat[0] == cur[0] && lat[1] > cur[1] {
        return Some(true);
    }
    if lat[0] == cur[0] && lat[1] == cur[1] && lat[2] > cur[2] {
        return Some(true);
    }
    Some(false)
}

/// No version is newer than itself.
pub proof fn lemma_compare_irreflexive(v: Seq<char>)
    ensures
        compare_versions_spec(v, v) != Some(true),
{
}

/// If `b` is newer than `a`, then `a` is not newer than `b`.
pub proof fn lemma_compare_asymmetric(a: Seq<char>, b: Seq<char>)
    requires
        compare_versions_spec(a, b) == Some(true),
    ensures
        compare_versions_spec(b, a) == Some(false),
{
}

/// "Newer than" is transitive.
pub proof fn lemma_compare_transitive(a: Seq<char>, b: Seq<char>, c: Seq<char>)
    requires
        compare_versions_spec(a, b) == Some(true),
        compare_versions_spec(b, c) == Some(true),
    ensures
        compare_versions_spec(a, c) == Some(true),
{
}

/// The time of the last check recorded in `content`: its trimmed text as a
/// number of seconds since the Unix epoch.
pub fn parse_last_check(content: &str) -> (res: Option<u64>)
    ensures
        res == parse_u64_spec(trim_white(content@)),
{
    let t = trim(content);
    parse_u64(t.as_str())
}

/// Whether an update check is due at `now` (seconds since the Unix epoch),
/// given the time of the last one: skipped only when the last check is at
/// most `now` and less than a day before it.
pub open spec fn update_check_due_spec(last: Option<u64>, now: u64) -> bool {
    match last {
        Some(l) => !(l <= now && now - l < CHECK_INTERVAL_SECS),
        None => true,
    }
}

/// Whether an update check is due.
pub fn update_check_due(last: Option<u64>, now: u64) -> (res: bool)
    ensures
        res == update_check_due_spec(last, now),
{
    match last {
        Some(l) => !(l <= now && now - l < CHECK_INTERVAL_SECS),
        None => true,
    }
}

/// A release is newer when it is larger at the first of the three leading
/// components where the two differ: for every position `k` below three, if
/// the components before `k` agree and the release's `k`-th is larger, the
/// release is newer.
pub proof fn lemma_compare_first_difference(current: Seq<char>, latest: Seq<char>, k: int)
    requires
        version_parts(current).len() >= 3,
        version_parts(latest).len() >= 3,
        0 <= k < 3,
        forall|j: int| 0 <= j < k ==> version_parts(latest)[j] == version_parts(current)[j],
        version_parts(latest)[k] > version_parts(current)[k],
    ensures
        compare_versions_spec(current, latest) == Some(true),
{
    let cur = version_parts(current);
    let lat = version_parts(latest);
    if k == 1 {
        assert(lat[0] == cur[0]);
    } else if k == 2 {
        assert(lat[0] == cur[0]);
        assert(lat[1] == cur[1]);
    }
}

/// Any two comparable versions whose three leading components are not all
/// equal are ordered: one of them is newer than the other.
pub proof fn lemma_compare_total(a: Seq<char>, b: Seq<char>)
    requires
        version_parts(a).len() >= 3,
        version_parts(b).len() >= 3,
        exists|k: int| 0 <= k < 3 && version_parts(a)[k] != version_parts(b)[k],
    ensures
        compare_versions_spec(a, b) == Some(true) || compare_versions_spec(b, a) == Some(true),
{
}

/// Comparable versions whose three leading components are equal are
/// neither newer than the other.
pub proof fn lemma_compare_equal_parts(a: Seq<char>, b: Seq<char>)
    requires
        version_parts(a).len() >= 3,
        version_parts(b).len() >= 3,
        forall|k: int| 0 <= k < 3 ==> version_parts(a)[k] == version_parts(b)[k],
    ensures
        compare_versions_spec(a, b) == Some(false),
        compare_versions_spec(b, a) == Some(false),
{
    assert(version_parts(a)[0] == version_parts(b)[0]);
    assert(version_parts(a)[1] == version_parts(b)[1]);
    assert(version_parts(a)[2] == version_parts(b)[2]);
}

/// A leading `v` does not change a version: `v1.2.3` and `1.2.3` have the
/// same components, so they compare alike against any other version.
pub proof fn lemma_compare_ignores_leading_v(a: Seq<char>, b: Seq<char>)
    ensures
        version_parts(seq!['v'] + a) == version_parts(a),
        compare_versions_spec(seq!['v'] + a, b) == compare_versions_spec(a, b),
        compare_versions_spec(b, seq!['v'] + a) == compare_versions_spec(b, a),
{
    let va = seq!['v'] + a;
    assert(va.drop_first() =~= a);
    assert(trim_start_char(va, 'v') == trim_start_char(a, 'v'));
}

/// Two checks within a day: after one at `now`, none is due before a day has passed.
pub proof fn lemma_check_once_a_day(now: u64, later: u64)
    requires
        now <= later,
        later - now < CHECK_INTERVAL_SECS,
    ensures
        !update_check_due_spec(Some(now), later),
        update_check_due_spec(None, now),
{
}


/// The file that records the time of the last update check, in the
/// configuration directory.
pub fn version_file(config_dir: &str) -> (res: String)
    ensures
        res@ == join_path_spec(config_dir@, "last_update_check"@),
{
    join_path(config_dir, "last_update_check")
}

} // verus!
