//! The package section of the system overview.

use vstd::prelude::*;
use crate::style::{label_value, label_value_spec};
use crate::text::{decimal, u64_to_decimal, views};
use crate::utils::{pm_name, PackageManager};

verus! {

/// The package lines of the overview for the detected package managers and
/// their package counts (`None` where the count could not be read): when
/// some manager was detected, `<manager> pkgs` with the count for each one
/// whose count is known; otherwise one line saying that none was detected.
pub open spec fn package_lines_spec(pms: Seq<PackageManager>, counts: Seq<Option<usize>>, color: bool) -> Seq<Seq<char>> {
    if pms.len() > 0 && !pms.contains(PackageManager::Unknown) {
        counted_lines(pms, counts, color)
    } else {
        seq![label_value_spec("Packages"@, "Could not detect package manager"@, color)]
    }
}

/// One line per manager whose count is known, in order.
pub open spec fn counted_lines(pms: Seq<PackageManager>, counts: Seq<Option<usize>>, color: bool) -> Seq<Seq<char>>
    decreases pms.len(),
{
    if pms.len() == 0 || counts.len() == 0 {
        Seq::empty()
    } else {
        let r = counted_lines(pms.drop_last(), counts.drop_last(), color);
        match counts.last() {
            Some(c) => r.push(label_value_spec(pm_name(pms.last()) + " pkgs"@, decimal(c as nat), color)),
            None => r,
        }
    }
}

fn has_unknown(pms: &Vec<PackageManager>) -> (res: bool)
    ensures
        res == pms@.contains(PackageManager::Unknown),
{
    let mut i: usize = 0;
    while i < pms.len()
        invariant
            i <= pms@.len(),
            forall|j: int| 0 <= j < i ==> pms@[j] != PackageManager::Unknown,
        decreases pms@.len() - i,
    {
        if pms[i] == PackageManager::Unknown {
            assert(pms@[i as int] == PackageManager::Unknown);
            return true;
        }
        i = i + 1;
    }
    false
}

/// The package lines of the system overview.
pub fn package_lines(pms: &Vec<PackageManager>, counts: &Vec<Option<usize>>, color: bool) -> (res: Vec<String>)
    requires
        counts@.len() == pms@.len(),
    ensures
        views(res@) == package_lines_spec(pms@, counts@, color),
{
    let mut out: Vec<String> = Vec::new();
    if pms.len() == 0 || has_unknown(pms) {
        out.push(label_value("Packages", "Could not detect package manager", color));
        assert(views(out@) =~= package_lines_spec(pms@, counts@, color));
        return out;
    }
    let mut i: usize = 0;
    assert(pms@.take(0) =~= Seq::<PackageManager>::empty());
    assert(views(out@) =~= counted_lines(pms@.take(0), counts@.take(0), color));
    while i < pms.len()
        invariant
            counts@.len() == pms@.len(),
            i <= pms@.len(),
            views(out@) == counted_lines(pms@.take(i as int), counts@.take(i as int), color),
        decreases pms@.len() - i,
    {
        assert(pms@.take(i + 1).drop_last() =~= pms@.take(i as int));
        assert(counts@.take(i + 1).drop_last() =~= counts@.take(i as int));
        assert(pms@.take(i + 1).last() == pms@[i as int]);
        assert(counts@.take(i + 1).last() == counts@[i as int]);
        match counts[i] {
            Some(c) => {
                let ghost before = views(out@);
                let mut label = String::from_str(pms[i].name());
                label.append(" pkgs");
                let count = u64_to_decimal(c as u64);
                out.push(label_value(label.as_str(), count.as_str(), color));
                assert(views(out@) =~= before.push(label_value_spec(pm_name(pms@[i as int]) + " pkgs"@, decimal(c as nat), color)));
            },
            None => {},
        }
        i = i + 1;
    }
    assert(pms@.take(pms@.len() as int) =~= pms@);
    assert(counts@.take(counts@.len() as int) =~= counts@);
    out
}

} // verus!
