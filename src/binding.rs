//! Installation recipes and the binding resolver, which maps a requested
//! binary name to the archive that provides it.
use vstd::prelude::*;
use vstd::string::StringExecFns;
use crate::release::ReleaseDescriptor;
use crate::text::{concat2, str_eq};

verus! {

/// How an artifact is packaged.
#[derive(Debug, Clone, Copy, PartialEq, Eq)]
pub enum PackageType {
    /// The artifact is the executable itself.
    SingleFile,
    /// The artifact is the executable compressed as one zstd frame stream.
    ZstdSingleFile,
}

/// A named installation recipe: where an artifact comes from, how it is
/// named, and how it is packaged.
#[derive(Debug, Clone)]
pub struct ArchiveConfig {
    pub source: ReleaseDescriptor,
    pub artifact_pattern: String,
    pub package_type: PackageType,
}

/// A logical binary, and the archive that provides it.
#[derive(Debug, Clone)]
pub struct BindingConfig {
    pub provided_by: String,
}

/// An already-decoded configuration: archives and binaries, each by name.
/// Both are maps, so a well-formed configuration names each archive and
/// each binary once (see `wf`).
#[derive(Debug, Clone)]
pub struct Config {
    pub archives: Vec<(String, ArchiveConfig)>,
    pub binaries: Vec<(String, BindingConfig)>,
}

/// Whether no two entries share a name.
pub open spec fn unique_names<T>(entries: Seq<(String, T)>) -> bool {
    forall|i: int, j: int|
        0 <= i < j < entries.len() ==> (#[trigger] entries[i]).0@ != (#[trigger] entries[j]).0@
}

/// Checks that no two entries share a name.
pub fn names_unique<T>(entries: &Vec<(String, T)>) -> (r: bool)
    ensures
        r == unique_names(entries@),
{
    let n = entries.len();
    let mut j: usize = 0;
    while j < n
        invariant
            n == entries@.len(),
            j <= n,
            forall|a: int, b: int|
                0 <= a < b < j ==> (#[trigger] entries@[a]).0@ != (#[trigger] entries@[b]).0@,
        decreases n - j,
    {
        let mut i: usize = 0;
        while i < j
            invariant
                n == entries@.len(),
                i <= j < n,
                forall|a: int, b: int|
                    0 <= a < b < j ==> (#[trigger] entries@[a]).0@ != (#[trigger] entries@[b]).0@,
                forall|a: int| 0 <= a < i ==> (#[trigger] entries@[a]).0@ != entries@[j as int].0@,
            decreases j - i,
        {
            if str_eq(entries[i].0.as_str(), entries[j].0.as_str()) {
                assert(entries@[i as int].0@ == entries@[j as int].0@);
                return false;
            }
            i = i + 1;
        }
        j = j + 1;
    }
    true
}

impl Config {
    /// Each archive and each binary is named once.
    pub open spec fn wf(&self) -> bool {
        unique_names(self.archives@) && unique_names(self.binaries@)
    }

    /// Checks `wf`, for configurations built from a source that may repeat names.
    pub fn is_well_formed(&self) -> (r: bool)
        ensures
            r == self.wf(),
    {
        names_unique(&self.archives) && names_unique(&self.binaries)
    }
}

/// Why a binary could not be resolved to an archive.
#[derive(Debug, Clone, PartialEq, Eq)]
pub enum BindingError {
    /// No name was given, and the configuration does not declare exactly one binary.
    NoBinaryName,
    /// The named binary is not in the configuration.
    UnknownBinary { name: String },
    /// The binary names an archive that the configuration lacks.
    UnknownArchive { archive: String },
}

impl BindingError {
    pub fn message(&self) -> (r: String)
        ensures
            r@ == match self {
                BindingError::NoBinaryName => "no binary name provided"@,
                BindingError::UnknownBinary { name } => "unknown binary: "@ + name@,
                BindingError::UnknownArchive { archive } => "unknown archive: "@ + archive@,
            },
    {
        match self {
            BindingError::NoBinaryName => String::from_str("no binary name provided"),
            BindingError::UnknownBinary { name } => concat2("unknown binary: ", name.as_str()),
            BindingError::UnknownArchive { archive } => concat2(
                "unknown archive: ",
                archive.as_str(),
            ),
        }
    }
}

/// Whether `i` is the position of the first entry called `name`.
pub open spec fn first_named<T>(entries: Seq<(String, T)>, name: Seq<char>, i: int) -> bool {
    0 <= i < entries.len() && entries[i].0@ == name && forall|k: int|
        0 <= k < i ==> (#[trigger] entries[k]).0@ != name
}

/// Whether some entry is called `name`.
pub open spec fn has_entry<T>(entries: Seq<(String, T)>, name: Seq<char>) -> bool {
    exists|k: int| 0 <= k < entries.len() && (#[trigger] entries[k]).0@ == name
}

fn find_binary(entries: &Vec<(String, BindingConfig)>, name: &str) -> (r: Option<usize>)
    ensures
        match r {
            Some(i) => first_named(entries@, name@, i as int),
            None => !has_entry(entries@, name@),
        },
{
    let mut i: usize = 0;
    while i < entries.len()
        invariant
            i <= entries@.len(),
            forall|k: int| 0 <= k < i ==> (#[trigger] entries@[k]).0@ != name@,
        decreases entries@.len() - i,
    {
        if str_eq(entries[i].0.as_str(), name) {
            return Some(i);
        }
        i = i + 1;
    }
    None
}

fn find_archive(entries: &Vec<(String, ArchiveConfig)>, name: &str) -> (r: Option<usize>)
    ensures
        match r {
            Some(i) => first_named(entries@, name@, i as int),
            None => !has_entry(entries@, name@),
        },
{
    let mut i: usize = 0;
    while i < entries.len()
        invariant
            i <= entries@.len(),
            forall|k: int| 0 <= k < i ==> (#[trigger] entries@[k]).0@ != name@,
        decreases entries@.len() - i,
    {
        if str_eq(entries[i].0.as_str(), name) {
            return Some(i);
        }
        i = i + 1;
    }
    None
}

/// A resolved binding: positions of the binary and of its archive in the
/// configuration.
#[derive(Debug, Clone, Copy, PartialEq, Eq)]
pub struct Resolved {
    pub binary: usize,
    pub archive: usize,
}

/// The view of a requested name.
pub open spec fn requested(name: Option<&str>) -> Option<Seq<char>> {
    match name {
        Some(s) => Some(s@),
        None => None,
    }
}

/// The binary chosen for a request: the named one, or the only one.
pub open spec fn chosen_binary(c: Config, name: Option<Seq<char>>, i: int) -> bool {
    match name {
        Some(n) => first_named(c.binaries@, n, i),
        None => c.binaries@.len() == 1 && i == 0,
    }
}

/// Resolves a binary to the archive that provides it. Without a name, the
/// configuration's only binary is taken; with several, a name is required.
pub fn resolve_binding(config: &Config, name: Option<&str>) -> (r: Result<Resolved, BindingError>)
    requires
        config.wf(),
    ensures
        match r {
            Ok(res) => chosen_binary(*config, requested(name), res.binary as int)
                && first_named(
                config.archives@,
                config.binaries@[res.binary as int].1.provided_by@,
                res.archive as int,
            ),
            Err(BindingError::NoBinaryName) => name is None && config.binaries@.len() != 1,
            Err(BindingError::UnknownBinary { name: n }) => name matches Some(s) && n@ == s@
                && !has_entry(config.binaries@, s@),
            Err(BindingError::UnknownArchive { archive }) => exists|i: int|
                chosen_binary(*config, requested(name), i)
                    && archive@ == config.binaries@[i].1.provided_by@
                    && !has_entry(config.archives@, archive@),
        },
        name is None && config.binaries@.len() == 1 && has_entry(
            config.archives@,
            config.binaries@[0].1.provided_by@,
        ) ==> (r matches Ok(res) && res.binary == 0),
        name is None && config.binaries@.len() != 1 ==> r matches Err(BindingError::NoBinaryName),
{
    let b: usize = match name {
        Some(n) => match find_binary(&config.binaries, n) {
            Some(i) => i,
            None => {
                return Err(BindingError::UnknownBinary { name: String::from_str(n) });
            },
        },
        None => {
            if config.binaries.len() != 1 {
                return Err(BindingError::NoBinaryName);
            }
            0
        },
    };
    assert(chosen_binary(*config, requested(name), b as int));
    let provider = config.binaries[b].1.provided_by.as_str();
    match find_archive(&config.archives, provider) {
        Some(a) => Ok(Resolved { binary: b, archive: a }),
        None => Err(BindingError::UnknownArchive { archive: String::from_str(provider) }),
    }
}

} // verus!
