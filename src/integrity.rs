//! The integrity verifier: compares the prelude hash that an installed
//! archive expects with the one checked out in the project, and only ever
//! warns; the resolved binary is run either way.
use vstd::prelude::*;
use vstd::string::StringExecFns;
use crate::cache::expected_prelude_hash;
use crate::text::{concat3, str_eq, trimmed};

verus! {

/// Whether the prelude check is to run, given the value of the variable that
/// controls it: only the value `NO` turns it off.
pub fn prelude_check_enabled(setting: Option<&str>) -> (r: bool)
    ensures
        r == !(setting matches Some(s) && s@ == "NO"@),
{
    match setting {
        Some(s) => !str_eq(s, "NO"),
        None => true,
    }
}

/// Whether `base` is a leading part of `path`, segment by segment.
pub open spec fn is_prefix_of(base: Seq<String>, path: Seq<String>) -> bool {
    base.len() <= path.len() && forall|k: int| 0 <= k < base.len() ==> (#[trigger] base[k])@ == path[k]@
}

/// The segments of `path` below `base`, when `base` is a leading part of it.
pub fn strip_prefix(base: &Vec<String>, path: &Vec<String>) -> (r: Option<Vec<String>>)
    ensures
        match r {
            Some(rest) => is_prefix_of(base@, path@) && rest@ == path@.skip(base@.len() as int),
            None => !is_prefix_of(base@, path@),
        },
{
    if base.len() > path.len() {
        return None;
    }
    let mut k: usize = 0;
    while k < base.len()
        invariant
            base@.len() <= path@.len(),
            k <= base@.len(),
            forall|j: int| 0 <= j < k ==> (#[trigger] base@[j])@ == path@[j]@,
        decreases base@.len() - k,
    {
        if !str_eq(base[k].as_str(), path[k].as_str()) {
            return None;
        }
        k = k + 1;
    }
    let mut rest: Vec<String> = Vec::new();
    let mut i: usize = base.len();
    while i < path.len()
        invariant
            base@.len() <= i <= path@.len(),
            rest@ == path@.subrange(base@.len() as int, i as int),
        decreases path@.len() - i,
    {
        rest.push(path[i].clone());
        assert(rest@ =~= path@.subrange(base@.len() as int, i + 1));
        i = i + 1;
    }
    assert(rest@ =~= path@.skip(base@.len() as int));
    Some(rest)
}

/// The prelude checked out in the project is not the one the binary expects.
#[derive(Debug, Clone, PartialEq, Eq)]
pub struct PreludeMismatch {
    pub actual: String,
    pub expected: String,
}

impl PreludeMismatch {
    /// The warning for the user: what differs, and the commands that would
    /// check out the expected prelude in `prelude_dir`.
    pub fn message_lines(&self, prelude_dir: &str) -> (r: (String, String))
        ensures
            r.0@ == "buckle: Git submodule for prelude ("@ + self.actual@
                + ") is not the expected "@ + self.expected@ + "."@,
            r.1@ == "buckle: cd "@ + prelude_dir@ + " && git fetch && git checkout "@
                + self.expected@,
    {
        let mut first = concat3(
            "buckle: Git submodule for prelude (",
            self.actual.as_str(),
            ") is not the expected ",
        );
        first.append(self.expected.as_str());
        first.append(".");
        let mut second = concat3("buckle: cd ", prelude_dir, " && git fetch && git checkout ");
        second.append(self.expected.as_str());
        (first, second)
    }
}

/// Compares the hash checked out in the project with the one recorded in
/// the archive's marker file (surrounding whitespace ignored).
pub fn check_prelude(marker: &str, actual: &str) -> (r: Option<PreludeMismatch>)
    ensures
        match r {
            Some(m) => actual@ != trimmed(marker@) && m.actual@ == actual@ && m.expected@
                == trimmed(marker@),
            None => actual@ == trimmed(marker@),
        },
{
    let expected = expected_prelude_hash(marker);
    if str_eq(actual, expected.as_str()) {
        None
    } else {
        Some(PreludeMismatch { actual: String::from_str(actual), expected })
    }
}

/// What the launcher does once a binary is resolved: run it, after
/// printing the warning if there is one.
#[derive(Debug, Clone)]
pub struct LaunchPlan {
    pub binary: Vec<String>,
    pub warning: Option<PreludeMismatch>,
}

/// Combines a resolved binary with the outcome of the prelude check, where
/// one could be made (a marker file and a checked-out prelude were found).
/// A mismatch adds a warning; the binary is returned in every case.
pub fn plan_launch(binary: Vec<String>, marker: Option<String>, actual: Option<String>) -> (r:
    LaunchPlan)
    ensures
        r.binary == binary,
        match (marker, actual) {
            (Some(m), Some(a)) => match r.warning {
                Some(w) => a@ != trimmed(m@) && w.actual@ == a@ && w.expected@ == trimmed(m@),
                None => a@ == trimmed(m@),
            },
            _ => r.warning is None,
        },
{
    let warning = match (marker, actual) {
        (Some(m), Some(a)) => check_prelude(m.as_str(), a.as_str()),
        _ => None,
    };
    LaunchPlan { binary, warning }
}

} // verus!
