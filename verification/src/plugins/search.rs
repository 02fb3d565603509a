//! Browsing the plugins available in the plugin repository.

use vstd::prelude::*;
use crate::style::{apply, apply_spec, Theme};
use crate::text::{has_prefix, starts_with, str_eq, views};

verus! {

/// Whether an entry of the plugin repository's listing is a plugin: a
/// directory whose name does not start with `.` and is not `target`.
pub fn is_listed_plugin_dir(name: &str, entry_type: &str) -> (res: bool)
    ensures
        res == (entry_type@ == "dir"@ && !has_prefix(name@, "."@) && name@ != "target"@),
{
    str_eq(entry_type, "dir") && !starts_with(name, ".") && !str_eq(name, "target")
}

/// The choices offered by the plugin search: "← Back" first, then each
/// available plugin, marked " (installed)" when it is installed.
pub open spec fn search_items_spec(available: Seq<Seq<char>>, installed: Seq<Seq<char>>) -> Seq<Seq<char>> {
    seq!["← Back"@] + available.map_values(
        |name: Seq<char>| if installed.contains(name) { name + " (installed)"@ } else { name },
    )
}

/// Whether `name` is among `names`.
pub fn contains_name(names: &Vec<String>, name: &str) -> (res: bool)
    ensures
        res == views(names@).contains(name@),
{
    let ghost v = views(names@);
    let mut i: usize = 0;
    while i < names.len()
        invariant
            v == views(names@),
            i <= names@.len(),
            forall|j: int| 0 <= j < i ==> v[j] != name@,
        decreases names@.len() - i,
    {
        if str_eq(names[i].as_str(), name) {
            assert(v[i as int] == name@);
            return true;
        }
        i = i + 1;
    }
    false
}

/// The choices offered by the plugin search.
pub fn search_items(available: &Vec<String>, installed: &Vec<String>) -> (res: Vec<String>)
    ensures
        views(res@) == search_items_spec(views(available@), views(installed@)),
{
    let ghost a = views(available@);
    let ghost inst = views(installed@);
    let ghost f = |name: Seq<char>| if inst.contains(name) { name + " (installed)"@ } else { name };
    let mut items: Vec<String> = Vec::new();
    items.push(String::from_str("← Back"));
    let mut i: usize = 0;
    while i < available.len()
        invariant
            a == views(available@),
            inst == views(installed@),
            f == (|name: Seq<char>| if inst.contains(name) { name + " (installed)"@ } else { name }),
            i <= available@.len(),
            views(items@) == seq!["← Back"@] + a.take(i as int).map_values(f),
        decreases available@.len() - i,
    {
        let ghost before = views(items@);
        let mut item = available[i].clone();
        if contains_name(installed, available[i].as_str()) {
            item.append(" (installed)");
        }
        assert(item@ == f(a[i as int]));
        items.push(item);
        assert(views(items@) =~= before.push(f(a[i as int])));
        assert(a.take(i + 1).map_values(f) =~= a.take(i as int).map_values(f).push(f(a[i as int])));
        i = i + 1;
    }
    assert(a.take(available@.len() as int) =~= a);
    items
}

/// The plugin picked in the search: choice 0 is "← Back" and picks none;
/// choice `k` picks the `k`-th available plugin.
pub fn picked_plugin(available: &Vec<String>, choice: usize) -> (res: Option<String>)
    requires
        choice <= available@.len(),
    ensures
        choice == 0 ==> res is None,
        choice > 0 ==> (res matches Some(p) && p@ == available@[choice - 1]@),
{
    if choice == 0 {
        None
    } else {
        Some(available[choice - 1].clone())
    }
}

/// The line of one available plugin: `@proto/` and its name, with a check
/// mark when it is installed.
pub open spec fn available_line(name: Seq<char>, installed: Seq<Seq<char>>) -> Seq<char> {
    "  "@ + apply_spec("@proto/"@, Theme::Accent, true) + " "@
        + apply_spec(apply_spec(name, Theme::Header, true), Theme::Bold, true)
        + if installed.contains(name) { apply_spec(" ✔"@, Theme::Success, true) } else { Seq::empty() }
}

/// The listing of the available plugins: a heading after a blank line, a
/// blank line, a line per plugin, and a pointer to the interactive search.
pub open spec fn available_listing_spec(available: Seq<Seq<char>>, installed: Seq<Seq<char>>) -> Seq<Seq<char>> {
    seq![
        "\n"@ + apply_spec(apply_spec("Available Plugins:"@, Theme::Header, true), Theme::Bold, true),
        Seq::empty(),
    ] + available.map_values(|n: Seq<char>| available_line(n, installed))
        + seq!["\n"@ + apply_spec("Run 'proto plugins search' to install interactively."@, Theme::Muted, true)]
}

/// The listing of the available plugins, one string per line.
pub fn available_listing(available: &Vec<String>, installed: &Vec<String>) -> (res: Vec<String>)
    ensures
        views(res@) == available_listing_spec(views(available@), views(installed@)),
{
    let ghost a = views(available@);
    let ghost inst = views(installed@);
    let ghost f = |n: Seq<char>| available_line(n, inst);
    let mut out: Vec<String> = Vec::new();
    let mut title = String::from_str("\n");
    title.append(apply(apply("Available Plugins:", Theme::Header, true).as_str(), Theme::Bold, true).as_str());
    out.push(title);
    out.push(String::new());
    let ghost head = views(out@);
    assert(head =~= seq![
        "\n"@ + apply_spec(apply_spec("Available Plugins:"@, Theme::Header, true), Theme::Bold, true),
        Seq::<char>::empty(),
    ]);
    let mut i: usize = 0;
    assert(a.take(0).map_values(f) =~= Seq::<Seq<char>>::empty());
    while i < available.len()
        invariant
            a == views(available@),
            inst == views(installed@),
            f == (|n: Seq<char>| available_line(n, inst)),
            i <= available@.len(),
            views(out@) == head + a.take(i as int).map_values(f),
        decreases available@.len() - i,
    {
        let ghost before = views(out@);
        let name = available[i].as_str();
        let mut line = String::from_str("  ");
        line.append(apply("@proto/", Theme::Accent, true).as_str());
        line.append(" ");
        line.append(apply(apply(name, Theme::Header, true).as_str(), Theme::Bold, true).as_str());
        if contains_name(installed, name) {
            line.append(apply(" ✔", Theme::Success, true).as_str());
        } else {
            assert(line@ =~= line@ + Seq::<char>::empty());
        }
        assert(line@ == f(a[i as int]));
        out.push(line);
        assert(views(out@) =~= before.push(f(a[i as int])));
        assert(a.take(i + 1).map_values(f) =~= a.take(i as int).map_values(f).push(f(a[i as int])));
        i = i + 1;
    }
    assert(a.take(available@.len() as int) =~= a);
    let mut last = String::from_str("\n");
    last.append(apply("Run 'proto plugins search' to install interactively.", Theme::Muted, true).as_str());
    let ghost last_view = last@;
    let ghost mid = views(out@);
    out.push(last);
    assert(views(out@) =~= mid.push(last_view));
    assert(views(out@) =~= available_listing_spec(a, inst));
    out
}

} // verus!
