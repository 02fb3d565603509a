//! Package-manager command lines for install, search, remove, update and list.

use vstd::prelude::*;
use crate::utils::{owned_strings, pm_name, PackageManager};
use crate::text::views;

verus! {

/// A subcommand of `proto pkg`.
#[derive(Debug)]
pub enum PkgAction {
    /// Install one or more packages.
    Install { packages: Vec<String> },
    /// Search for a package.
    Search { query: String },
    /// Remove one or more packages.
    Remove { packages: Vec<String> },
    /// Update one package, or everything.
    Update { package: Option<String> },
    /// List the installed packages.
    List,
}

/// The message when the package manager's command fails.
pub fn exit_error_message(cmd: &str) -> (res: String)
    ensures
        res@ == cmd@ + " exited with error"@,
{
    let mut s = String::from_str(cmd);
    s.append(" exited with error");
    s
}

/// Options put before the package names to install them.
pub open spec fn install_prefix(pm: PackageManager) -> Seq<Seq<char>> {
    match pm {
        PackageManager::Pacman | PackageManager::Yay | PackageManager::Paru => seq!["-S"@, "--noconfirm"@],
        PackageManager::Apt | PackageManager::Dnf | PackageManager::Zypper => seq!["install"@, "-y"@],
        PackageManager::Apk => seq!["add"@],
        PackageManager::Unknown => Seq::empty(),
    }
}

/// Options put before the package names to remove them.
pub open spec fn remove_prefix(pm: PackageManager) -> Seq<Seq<char>> {
    match pm {
        PackageManager::Pacman | PackageManager::Yay | PackageManager::Paru => seq!["-R"@, "--noconfirm"@],
        PackageManager::Apt | PackageManager::Dnf | PackageManager::Zypper => seq!["remove"@, "-y"@],
        PackageManager::Apk => seq!["del"@],
        PackageManager::Unknown => Seq::empty(),
    }
}

/// Arguments to install `packages` (none for `Unknown`).
pub open spec fn install_args_spec(pm: PackageManager, packages: Seq<Seq<char>>) -> Seq<Seq<char>> {
    if pm == PackageManager::Unknown {
        Seq::empty()
    } else {
        install_prefix(pm) + packages
    }
}

/// Arguments to remove `packages` (none for `Unknown`).
pub open spec fn remove_args_spec(pm: PackageManager, packages: Seq<Seq<char>>) -> Seq<Seq<char>> {
    if pm == PackageManager::Unknown {
        Seq::empty()
    } else {
        remove_prefix(pm) + packages
    }
}

/// Arguments to search for `query` (none for `Unknown`).
pub open spec fn search_args_spec(pm: PackageManager, query: Seq<char>) -> Seq<Seq<char>> {
    match pm {
        PackageManager::Pacman | PackageManager::Yay | PackageManager::Paru => seq!["-Ss"@, query],
        PackageManager::Unknown => Seq::empty(),
        _ => seq!["search"@, query],
    }
}

/// Program and arguments to update one package, or to upgrade every
/// installed package without prompting when `package` is `None`.
pub open spec fn update_args_spec(pm: PackageManager, package: Option<Seq<char>>) -> (Seq<char>, Seq<Seq<char>>) {
    match pm {
        PackageManager::Pacman | PackageManager::Yay | PackageManager::Paru => {
            let cmd = if pm == PackageManager::Pacman { "pacman"@ } else if pm == PackageManager::Yay { "yay"@ } else { "paru"@ };
            match package {
                Some(p) => (cmd, seq!["-S"@, "--noconfirm"@, p]),
                None => (cmd, seq!["-Syu"@, "--noconfirm"@]),
            }
        },
        PackageManager::Apt => match package {
            Some(p) => ("apt"@, seq!["install"@, "--only-upgrade"@, "-y"@, p]),
            None => ("apt"@, seq!["upgrade"@, "-y"@]),
        },
        PackageManager::Dnf => match package {
            Some(p) => ("dnf"@, seq!["upgrade"@, "-y"@, p]),
            None => ("dnf"@, seq!["upgrade"@, "-y"@]),
        },
        PackageManager::Zypper => match package {
            Some(p) => ("zypper"@, seq!["update"@, "-y"@, p]),
            None => ("zypper"@, seq!["update"@, "-y"@]),
        },
        PackageManager::Apk => match package {
            Some(p) => ("apk"@, seq!["upgrade"@, p]),
            None => ("apk"@, seq!["upgrade"@]),
        },
        PackageManager::Unknown => ("echo"@, seq!["No package manager"@]),
    }
}

/// Program and arguments to list the installed packages.
pub open spec fn list_args_spec(pm: PackageManager) -> (Seq<char>, Seq<Seq<char>>) {
    match pm {
        PackageManager::Pacman => ("pacman"@, seq!["-Q"@]),
        PackageManager::Yay => ("yay"@, seq!["-Q"@]),
        PackageManager::Paru => ("paru"@, seq!["-Q"@]),
        PackageManager::Apt => ("dpkg-query"@, seq!["-W"@, "-f"@, "${Package} ${Version}\n"@]),
        PackageManager::Dnf | PackageManager::Zypper => ("rpm"@, seq!["-qa"@]),
        PackageManager::Apk => ("apk"@, seq!["info"@, "-v"@]),
        PackageManager::Unknown => ("echo"@, seq!["No package manager"@]),
    }
}

/// Copies the strings onto the end of `out`.
fn extend_cloned(out: &mut Vec<String>, items: &Vec<String>)
    ensures
        views(final(out)@) == views(old(out)@) + views(items@),
{
    let ghost start = views(out@);
    let mut i: usize = 0;
    while i < items.len()
        invariant
            i <= items@.len(),
            views(out@) == start + views(items@).take(i as int),
        decreases items@.len() - i,
    {
        let ghost before = views(out@);
        out.push(items[i].clone());
        assert(views(out@) =~= before.push(items@[i as int]@));
        assert(views(out@) =~= start + views(items@).take(i + 1));
        i = i + 1;
    }
    assert(views(items@).take(items@.len() as int) =~= views(items@));
}

/// Arguments to install `packages` with `pm`.
pub fn build_install_args(pm: PackageManager, packages: &Vec<String>) -> (res: Vec<String>)
    ensures
        views(res@) == install_args_spec(pm, views(packages@)),
{
    let mut v = match pm {
        PackageManager::Pacman | PackageManager::Yay | PackageManager::Paru => owned_strings(&["-S", "--noconfirm"]),
        PackageManager::Apt | PackageManager::Dnf | PackageManager::Zypper => owned_strings(&["install", "-y"]),
        PackageManager::Apk => owned_strings(&["add"]),
        PackageManager::Unknown => {
            let v: Vec<String> = Vec::new();
            assert(views(v@) =~= Seq::<Seq<char>>::empty());
            return v;
        },
    };
    assert(views(v@) =~= install_prefix(pm));
    extend_cloned(&mut v, packages);
    v
}

/// Arguments to remove `packages` with `pm`.
pub fn build_remove_args(pm: PackageManager, packages: &Vec<String>) -> (res: Vec<String>)
    ensures
        views(res@) == remove_args_spec(pm, views(packages@)),
{
    let mut v = match pm {
        PackageManager::Pacman | PackageManager::Yay | PackageManager::Paru => owned_strings(&["-R", "--noconfirm"]),
        PackageManager::Apt | PackageManager::Dnf | PackageManager::Zypper => owned_strings(&["remove", "-y"]),
        PackageManager::Apk => owned_strings(&["del"]),
        PackageManager::Unknown => {
            let v: Vec<String> = Vec::new();
            assert(views(v@) =~= Seq::<Seq<char>>::empty());
            return v;
        },
    };
    assert(views(v@) =~= remove_prefix(pm));
    extend_cloned(&mut v, packages);
    v
}

/// Arguments to search for `query` with `pm`.
pub fn build_search_args(pm: PackageManager, query: &str) -> (res: Vec<String>)
    ensures
        views(res@) == search_args_spec(pm, query@),
{
    let mut v: Vec<String> = Vec::new();
    match pm {
        PackageManager::Pacman | PackageManager::Yay | PackageManager::Paru => v.push(String::from_str("-Ss")),
        PackageManager::Unknown => {
            assert(views(v@) =~= Seq::<Seq<char>>::empty());
            return v;
        },
        _ => v.push(String::from_str("search")),
    }
    v.push(String::from_str(query));
    assert(views(v@) =~= search_args_spec(pm, query@));
    v
}

/// `base` followed by `package` when there is one.
fn with_package(base: &[&str], package: Option<&str>) -> (res: Vec<String>)
    ensures
        views(res@) == base@.map_values(|s: &str| s@) + match package {
            Some(p) => seq![p@],
            None => Seq::<Seq<char>>::empty(),
        },
{
    let mut v = owned_strings(base);
    let ghost b = views(v@);
    match package {
        Some(p) => {
            v.push(String::from_str(p));
            assert(views(v@) =~= b + seq![p@]);
        },
        None => {
            assert(views(v@) =~= b + Seq::<Seq<char>>::empty());
        },
    }
    v
}

/// Program and arguments to update `package`, or everything.
pub fn build_update_args(pm: PackageManager, package: Option<&str>) -> (res: (String, Vec<String>))
    ensures
        (res.0@, views(res.1@)) == update_args_spec(pm, match package { Some(p) => Some(p@), None => None }),
{
    let ghost e = Seq::<Seq<char>>::empty();
    match pm {
        PackageManager::Pacman | PackageManager::Yay | PackageManager::Paru => {
            let cmd = match pm {
                PackageManager::Pacman => "pacman",
                PackageManager::Yay => "yay",
                _ => "paru",
            };
            let args = match package {
                Some(_) => with_package(&["-S", "--noconfirm"], package),
                None => with_package(&["-Syu", "--noconfirm"], package),
            };
            proof {
                match package {
                    Some(p) => assert(views(args@) =~= seq!["-S"@, "--noconfirm"@, p@]),
                    None => assert(views(args@) =~= seq!["-Syu"@, "--noconfirm"@]),
                }
            }
            (String::from_str(cmd), args)
        },
        PackageManager::Apt => {
            let args = match package {
                Some(_) => with_package(&["install", "--only-upgrade", "-y"], package),
                None => with_package(&["upgrade", "-y"], package),
            };
            proof {
                match package {
                    Some(p) => assert(views(args@) =~= seq!["install"@, "--only-upgrade"@, "-y"@, p@]),
                    None => assert(views(args@) =~= seq!["upgrade"@, "-y"@]),
                }
            }
            (String::from_str("apt"), args)
        },
        PackageManager::Dnf => {
            let args = with_package(&["upgrade", "-y"], package);
            proof {
                match package {
                    Some(p) => assert(views(args@) =~= seq!["upgrade"@, "-y"@, p@]),
                    None => assert(views(args@) =~= seq!["upgrade"@, "-y"@]),
                }
            }
            (String::from_str("dnf"), args)
        },
        PackageManager::Zypper => {
            let args = with_package(&["update", "-y"], package);
            proof {
                match package {
                    Some(p) => assert(views(args@) =~= seq!["update"@, "-y"@, p@]),
                    None => assert(views(args@) =~= seq!["update"@, "-y"@]),
                }
            }
            (String::from_str("zypper"), args)
        },
        PackageManager::Apk => {
            let args = with_package(&["upgrade"], package);
            proof {
                match package {
                    Some(p) => assert(views(args@) =~= seq!["upgrade"@, p@]),
                    None => assert(views(args@) =~= seq!["upgrade"@]),
                }
            }
            (String::from_str("apk"), args)
        },
        PackageManager::Unknown => {
            let args = owned_strings(&["No package manager"]);
            assert(views(args@) =~= seq!["No package manager"@]);
            (String::from_str("echo"), args)
        },
    }
}

/// Program and arguments to list the installed packages of `pm`.
pub fn build_list_args(pm: PackageManager) -> (res: (String, Vec<String>))
    ensures
        (res.0@, views(res.1@)) == list_args_spec(pm),
{
    let (cmd, args) = match pm {
        PackageManager::Pacman => ("pacman", owned_strings(&["-Q"])),
        PackageManager::Yay => ("yay", owned_strings(&["-Q"])),
        PackageManager::Paru => ("paru", owned_strings(&["-Q"])),
        PackageManager::Apt => ("dpkg-query", owned_strings(&["-W", "-f", "${Package} ${Version}\n"])),
        PackageManager::Dnf | PackageManager::Zypper => ("rpm", owned_strings(&["-qa"])),
        PackageManager::Apk => ("apk", owned_strings(&["info", "-v"])),
        PackageManager::Unknown => ("echo", owned_strings(&["No package manager"])),
    };
    assert(views(args@) =~= list_args_spec(pm).1);
    (String::from_str(cmd), args)
}

/// Updating a named package hands that package to the manager itself: for
/// every known manager, the program run is the manager's (apt, dnf, ...),
/// the package is the last argument, the arguments before it do not depend
/// on which package it is, and they differ from those of a full upgrade.
pub proof fn lemma_update_names_the_package(pm: PackageManager, p: Seq<char>, q: Seq<char>)
    requires
        pm != PackageManager::Unknown,
    ensures
        update_args_spec(pm, Some(p)).0 == pm_name(pm),
        update_args_spec(pm, None).0 == pm_name(pm),
        update_args_spec(pm, Some(p)).1.len() > 0,
        update_args_spec(pm, Some(p)).1.last() == p,
        update_args_spec(pm, Some(p)).1.drop_last() == update_args_spec(pm, Some(q)).1.drop_last(),
        update_args_spec(pm, Some(p)).1 != update_args_spec(pm, None).1,
{
    let sp = update_args_spec(pm, Some(p)).1;
    let sq = update_args_spec(pm, Some(q)).1;
    let sn = update_args_spec(pm, None).1;
    assert(sp.drop_last() =~= sq.drop_last());
    assert(sp.len() != sn.len());
}

/// Installing or removing packages passes exactly those packages, in order,
/// after options that do not depend on them; searching passes the query last.
pub proof fn lemma_packages_are_passed(pm: PackageManager, packages: Seq<Seq<char>>, others: Seq<Seq<char>>, query: Seq<char>)
    requires
        pm != PackageManager::Unknown,
    ensures
        install_args_spec(pm, packages).len() >= packages.len(),
        install_args_spec(pm, packages).skip(install_args_spec(pm, packages).len() - packages.len()) == packages,
        install_args_spec(pm, packages).take(install_args_spec(pm, packages).len() - packages.len())
            == install_args_spec(pm, others).take(install_args_spec(pm, others).len() - others.len()),
        remove_args_spec(pm, packages).len() >= packages.len(),
        remove_args_spec(pm, packages).skip(remove_args_spec(pm, packages).len() - packages.len()) == packages,
        remove_args_spec(pm, packages).take(remove_args_spec(pm, packages).len() - packages.len())
            == remove_args_spec(pm, others).take(remove_args_spec(pm, others).len() - others.len()),
        install_args_spec(pm, packages) != remove_args_spec(pm, packages),
        search_args_spec(pm, query).len() > 0,
        search_args_spec(pm, query).last() == query,
{
    let i1 = install_args_spec(pm, packages);
    let i2 = install_args_spec(pm, others);
    let r1 = remove_args_spec(pm, packages);
    let r2 = remove_args_spec(pm, others);
    assert(i1.skip(i1.len() - packages.len()) =~= packages);
    assert(i1.take(i1.len() - packages.len()) =~= install_prefix(pm));
    assert(i2.take(i2.len() - others.len()) =~= install_prefix(pm));
    assert(r1.skip(r1.len() - packages.len()) =~= packages);
    assert(r1.take(r1.len() - packages.len()) =~= remove_prefix(pm));
    assert(r2.take(r2.len() - others.len()) =~= remove_prefix(pm));
    assert(i1[0] == install_prefix(pm)[0]);
    assert(r1[0] == remove_prefix(pm)[0]);
    reveal_strlit("-S");
    reveal_strlit("-R");
    reveal_strlit("install");
    reveal_strlit("remove");
    reveal_strlit("add");
    reveal_strlit("del");
    assert("-S"@[1] != "-R"@[1]);
    assert("install"@.len() != "remove"@.len());
    assert("add"@[0] != "del"@[0]);
    assert(install_prefix(pm)[0] != remove_prefix(pm)[0]);
}

} // verus!
