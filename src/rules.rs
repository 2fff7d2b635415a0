//! Which libraries of a release a platform uses.
//!
//! Rules are read in order and the last one that decides for the platform
//! wins; a library whose rules decide nothing is used.

use vstd::prelude::*;
use crate::text::str_eq;
use crate::types::{Library, Rule};

verus! {

/// What a rule decides for `os`: a rule naming `os` includes the library when
/// it allows and excludes it when it disallows; an `allow` rule naming
/// another system excludes it; any other rule decides nothing.
pub open spec fn rule_decision(r: Rule, os: Seq<char>) -> Option<bool> {
    match r.os {
        Some(o) => if o.name@ == os {
            if r.action@ == "allow"@ {
                Some(true)
            } else if r.action@ == "disallow"@ {
                Some(false)
            } else {
                None
            }
        } else if r.action@ == "allow"@ {
            Some(false)
        } else {
            None
        },
        None => None,
    }
}

/// The decision of the last rule that decides anything for `os`.
pub open spec fn last_decision(rs: Seq<Rule>, os: Seq<char>) -> Option<bool>
    decreases rs.len(),
{
    if rs.len() == 0 {
        None
    } else {
        match rule_decision(rs.last(), os) {
            Some(b) => Some(b),
            None => last_decision(rs.drop_last(), os),
        }
    }
}

/// A library is used on `os` unless the last rule deciding for it excludes it.
pub open spec fn library_allowed(lib: Library, os: Seq<char>) -> bool {
    match lib.rules {
        None => true,
        Some(rs) => match last_decision(rs@, os) {
            Some(b) => b,
            None => true,
        },
    }
}

/// The operating system the launcher installs for.
pub const TARGET_OS: &'static str = "windows";

fn decide(rule: &Rule, os: &str) -> (r: Option<bool>)
    ensures
        r == rule_decision(*rule, os@),
{
    match &rule.os {
        Some(o) => {
            let allow = str_eq(rule.action.as_str(), "allow");
            if str_eq(o.name.as_str(), os) {
                if allow {
                    Some(true)
                } else if str_eq(rule.action.as_str(), "disallow") {
                    Some(false)
                } else {
                    None
                }
            } else if allow {
                Some(false)
            } else {
                None
            }
        },
        None => None,
    }
}

/// Whether `library` is used on the operating system `os`.
pub fn should_use_library(library: &Library, os: &str) -> (r: bool)
    ensures
        r == library_allowed(*library, os@),
{
    match &library.rules {
        None => true,
        Some(rules) => {
            let mut decision: Option<bool> = None;
            let mut i: usize = 0;
            while i < rules.len()
                invariant
                    i <= rules@.len(),
                    decision == last_decision(rules@.take(i as int), os@),
                decreases rules@.len() - i,
            {
                assert(rules@.take(i + 1).drop_last() =~= rules@.take(i as int));
                match decide(&rules[i], os) {
                    Some(b) => {
                        decision = Some(b);
                    },
                    None => {},
                }
                i = i + 1;
            }
            assert(rules@.take(i as int) =~= rules@);
            match decision {
                Some(b) => b,
                None => true,
            }
        },
    }
}

/// A library without rules is used everywhere.
pub proof fn lemma_no_rules_included(lib: Library, os: Seq<char>)
    requires
        lib.rules is None,
    ensures
        library_allowed(lib, os),
{
}

proof fn lemma_allow_other_decides_false(rs: Seq<Rule>, only: Seq<char>, os: Seq<char>, i: int)
    requires
        0 <= i < rs.len(),
        rs[i].action@ == "allow"@,
        rs[i].os is Some,
        rs[i].os.unwrap().name@ == only,
        os != only,
        forall|j: int| i < j < rs.len() && (#[trigger] rs[j]).os is Some ==> rs[j].os.unwrap().name@ != os,
    ensures
        last_decision(rs, os) == Some(false),
    decreases rs.len(),
{
    if rs.len() - 1 > i {
        let last = rs.last();
        assert(last == rs[rs.len() - 1]);
        if rule_decision(last, os) is None {
            let p = rs.drop_last();
            assert forall|j: int| i < j < p.len() && (#[trigger] p[j]).os is Some implies p[j].os.unwrap().name@ != os by {
                assert(p[j] == rs[j]);
            }
            lemma_allow_other_decides_false(p, only, os, i);
        }
    } else {
        assert(rs.last() == rs[i]);
    }
}

/// A library allowed for one system, with no later rule naming the target
/// system, is not used on any other system.
pub proof fn lemma_allow_only_excludes_others(lib: Library, only: Seq<char>, os: Seq<char>, i: int)
    requires
        lib.rules is Some,
        0 <= i < lib.rules.unwrap()@.len(),
        lib.rules.unwrap()@[i].action@ == "allow"@,
        lib.rules.unwrap()@[i].os is Some,
        lib.rules.unwrap()@[i].os.unwrap().name@ == only,
        os != only,
        forall|j: int|
            i < j < lib.rules.unwrap()@.len() && (#[trigger] lib.rules.unwrap()@[j]).os is Some
                ==> lib.rules.unwrap()@[j].os.unwrap().name@ != os,
    ensures
        !library_allowed(lib, os),
{
    lemma_allow_other_decides_false(lib.rules.unwrap()@, only, os, i);
}

} // verus!
