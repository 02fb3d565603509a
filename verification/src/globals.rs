//! The output switches given on the command line.

use vstd::prelude::*;
use crate::text::{str_eq, views};

verus! {

/// Whether non-essential output is suppressed and whether output is JSON.
#[derive(Debug, Clone, Copy, PartialEq, Eq, Structural)]
pub struct Flags {
    pub quiet: bool,
    pub json: bool,
}

impl Flags {
    /// Both switches off.
    pub fn new() -> (res: Flags)
        ensures
            !res.quiet,
            !res.json,
    {
        Flags { quiet: false, json: false }
    }

    /// Sets the quiet switch.
    pub fn set_quiet(&mut self, v: bool)
        ensures
            final(self).quiet == v,
            final(self).json == old(self).json,
    {
        self.quiet = v;
    }

    /// Sets the JSON switch.
    pub fn set_json(&mut self, v: bool)
        ensures
            final(self).json == v,
            final(self).quiet == old(self).quiet,
    {
        self.json = v;
    }

    /// Whether non-essential output is suppressed.
    pub fn is_quiet(&self) -> (res: bool)
        ensures
            res == self.quiet,
    {
        self.quiet
    }

    /// Whether output is JSON.
    pub fn is_json(&self) -> (res: bool)
        ensures
            res == self.json,
    {
        self.json
    }
}

/// Whether any argument is one of the given spellings.
fn any_arg_is(args: &Vec<String>, a: &str, b: &str) -> (res: bool)
    ensures
        res == exists|i: int| 0 <= i < args@.len() && (#[trigger] args@[i]@ == a@ || args@[i]@ == b@),
{
    let mut i: usize = 0;
    while i < args.len()
        invariant
            i <= args@.len(),
            forall|j: int| 0 <= j < i ==> args@[j]@ != a@ && args@[j]@ != b@,
        decreases args@.len() - i,
    {
        if str_eq(args[i].as_str(), a) || str_eq(args[i].as_str(), b) {
            return true;
        }
        i = i + 1;
    }
    false
}

/// The switches set by the raw command-line arguments: `--quiet` or `-q`,
/// and `--json`, anywhere among them.
pub fn flags_from_args(args: &Vec<String>) -> (res: Flags)
    ensures
        res.quiet == views(args@).contains("--quiet"@) || views(args@).contains("-q"@),
        res.json == views(args@).contains("--json"@),
{
    let quiet = any_arg_is(args, "--quiet", "-q");
    let json = any_arg_is(args, "--json", "--json");
    proof {
        let v = views(args@);
        if quiet {
            let i = choose|i: int| 0 <= i < args@.len() && (#[trigger] args@[i]@ == "--quiet"@ || args@[i]@ == "-q"@);
            assert(v[i] == args@[i]@);
        }
        if v.contains("--quiet"@) || v.contains("-q"@) {
            let i = choose|i: int| 0 <= i < v.len() && (v[i] == "--quiet"@ || v[i] == "-q"@);
            assert(args@[i]@ == v[i]);
        }
        if json {
            let i = choose|i: int| 0 <= i < args@.len() && (#[trigger] args@[i]@ == "--json"@ || args@[i]@ == "--json"@);
            assert(v[i] == args@[i]@);
        }
        if v.contains("--json"@) {
            let i = choose|i: int| 0 <= i < v.len() && v[i] == "--json"@;
            assert(args@[i]@ == v[i]);
        }
    }
    Flags { quiet, json }
}

/// Whether `--no-color` is among the raw command-line arguments.
pub fn no_color_requested(args: &Vec<String>) -> (res: bool)
    ensures
        res == views(args@).contains("--no-color"@),
{
    let r = any_arg_is(args, "--no-color", "--no-color");
    proof {
        let v = views(args@);
        if r {
            let i = choose|i: int| 0 <= i < args@.len() && (#[trigger] args@[i]@ == "--no-color"@ || args@[i]@ == "--no-color"@);
            assert(v[i] == args@[i]@);
        }
        if v.contains("--no-color"@) {
            let i = choose|i: int| 0 <= i < v.len() && v[i] == "--no-color"@;
            assert(args@[i]@ == v[i]);
        }
    }
    r
}

} // verus!
