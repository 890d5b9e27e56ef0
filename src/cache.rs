//! The cache store's decisions: where the cache root lies, whether a cached
//! release list is still fresh, which directory is the project root, and
//! which version a project asks for.
use vstd::prelude::*;
use vstd::string::StringExecFns;
use crate::text::{str_eq, trim, trimmed};

verus! {

/// How long, in seconds, a cached release list stays valid after its last write.
pub const RELEASES_TTL_SECS: i64 = 3600;

/// The environment values the cache root is derived from.
#[derive(Debug, Clone)]
pub struct CacheEnv {
    /// An explicit cache root that overrides every convention.
    pub override_dir: Option<String>,
    /// The name of the running OS (`linux`, `macos`, `windows`, ...).
    pub os: String,
    pub xdg_cache_home: Option<String>,
    pub home: Option<String>,
    pub local_app_data: Option<String>,
}

/// Why no cache root could be derived.
#[derive(Debug, Clone, PartialEq, Eq)]
pub enum CacheRootError {
    /// On Linux, neither a cache-home nor a home directory is set.
    NoCacheHome,
    /// On macOS, no home directory is set.
    NoHome,
    /// On Windows, no local application data directory is set.
    NoLocalAppData,
    /// The OS has no known convention for a cache directory.
    UnsupportedOs { os: String },
}

/// The name of the directory the launcher keeps its cache in.
pub open spec fn cache_dir_name() -> Seq<char> {
    "buckle"@
}

/// The base directory under which the cache directory is placed, as path
/// segments, or the error for a missing convention.
pub open spec fn cache_base(e: CacheEnv) -> Result<Seq<Seq<char>>, CacheRootError> {
    match e.override_dir {
        Some(d) => Ok(seq![d@]),
        None => if e.os@ == "linux"@ {
            match (e.xdg_cache_home, e.home) {
                (Some(x), _) => Ok(seq![x@]),
                (None, Some(h)) => Ok(seq![h@, ".cache"@]),
                (None, None) => Err(CacheRootError::NoCacheHome),
            }
        } else if e.os@ == "macos"@ {
            match e.home {
                Some(h) => Ok(seq![h@, "Library"@, "Caches"@]),
                None => Err(CacheRootError::NoHome),
            }
        } else if e.os@ == "windows"@ {
            match e.local_app_data {
                Some(l) => Ok(seq![l@]),
                None => Err(CacheRootError::NoLocalAppData),
            }
        } else {
            Err(CacheRootError::UnsupportedOs { os: e.os })
        },
    }
}

/// The views of a list of path segments.
pub open spec fn segments(v: Seq<String>) -> Seq<Seq<char>> {
    v.map_values(|s: String| s@)
}

impl CacheRootError {
    pub fn message(&self) -> (r: String)
        ensures
            r@ == match self {
                CacheRootError::NoCacheHome =>
                    "neither $XDG_CACHE_HOME nor $HOME are defined. Either define them or specify a $BUCKLE_CACHE"@,
                CacheRootError::NoHome => "$HOME is not defined"@,
                CacheRootError::NoLocalAppData => "%LocalAppData% is not defined"@,
                CacheRootError::UnsupportedOs { os } =>
                    "'"@ + os@ + "' is currently an unsupported OS. Feel free to contribute a patch."@,
            },
    {
        match self {
            CacheRootError::NoCacheHome => String::from_str(
                "neither $XDG_CACHE_HOME nor $HOME are defined. Either define them or specify a $BUCKLE_CACHE",
            ),
            CacheRootError::NoHome => String::from_str("$HOME is not defined"),
            CacheRootError::NoLocalAppData => String::from_str("%LocalAppData% is not defined"),
            CacheRootError::UnsupportedOs { os } => crate::text::concat3(
                "'",
                os.as_str(),
                "' is currently an unsupported OS. Feel free to contribute a patch.",
            ),
        }
    }
}

fn cache_base_dir(e: &CacheEnv) -> (r: Result<Vec<String>, CacheRootError>)
    ensures
        match (r, cache_base(*e)) {
            (Ok(v), Ok(s)) => segments(v@) == s,
            (Err(x), Err(y)) => x == y,
            _ => false,
        },
{
    let mut v: Vec<String> = Vec::new();
    match &e.override_dir {
        Some(d) => {
            v.push(d.clone());
        },
        None => {
            if str_eq(e.os.as_str(), "linux") {
                match (&e.xdg_cache_home, &e.home) {
                    (Some(x), _) => {
                        v.push(x.clone());
                    },
                    (None, Some(h)) => {
                        v.push(h.clone());
                        v.push(String::from_str(".cache"));
                    },
                    (None, None) => {
                        return Err(CacheRootError::NoCacheHome);
                    },
                }
            } else if str_eq(e.os.as_str(), "macos") {
                match &e.home {
                    Some(h) => {
                        v.push(h.clone());
                        v.push(String::from_str("Library"));
                        v.push(String::from_str("Caches"));
                    },
                    None => {
                        return Err(CacheRootError::NoHome);
                    },
                }
            } else if str_eq(e.os.as_str(), "windows") {
                match &e.local_app_data {
                    Some(l) => {
                        v.push(l.clone());
                    },
                    None => {
                        return Err(CacheRootError::NoLocalAppData);
                    },
                }
            } else {
                return Err(CacheRootError::UnsupportedOs { os: e.os.clone() });
            }
        },
    }
    assert(segments(v@) =~= cache_base(*e)->Ok_0);
    Ok(v)
}

/// The cache root as path segments: the override if one is given, else the
/// OS's convention for cache directories, followed by the launcher's own
/// directory name.
pub fn cache_root(e: &CacheEnv) -> (r: Result<Vec<String>, CacheRootError>)
    ensures
        match (r, cache_base(*e)) {
            (Ok(v), Ok(s)) => segments(v@) == s.push(cache_dir_name()),
            (Err(x), Err(y)) => x == y,
            _ => false,
        },
{
    match cache_base_dir(e) {
        Ok(mut v) => {
            let ghost before = v@;
            v.push(String::from_str("buckle"));
            assert(segments(v@) =~= segments(before).push(cache_dir_name()));
            Ok(v)
        },
        Err(x) => Err(x),
    }
}

/// Whether a snapshot last written at `written` (seconds) may be reused at
/// `now`: at most one hour apart, in either direction. A write time more
/// than an hour in the future means the clock moved, and the snapshot's age
/// cannot be trusted, so it is refetched as a stale one would be.
pub open spec fn is_fresh(written: int, now: int) -> bool {
    written - RELEASES_TTL_SECS <= now <= written + RELEASES_TTL_SECS
}

/// A cached release list, with the time (seconds since the epoch) it was
/// last written.
#[derive(Debug, Clone)]
pub struct CachedReleases {
    pub written: i64,
    pub text: String,
}

/// Decides whether the cached release list can be used at time `now`:
/// hands its text back unchanged when fresh; `None` means it must be
/// fetched again.
pub fn reuse_cached_releases(cached: Option<CachedReleases>, now: i64) -> (r: Option<String>)
    ensures
        match cached {
            Some(c) => if is_fresh(c.written as int, now as int) {
                r == Some(c.text)
            } else {
                r is None
            },
            None => r is None,
        },
{
    match cached {
        Some(c) => {
            let lo = c.written as i128 - RELEASES_TTL_SECS as i128;
            let hi = c.written as i128 + RELEASES_TTL_SECS as i128;
            if lo <= now as i128 && now as i128 <= hi {
                Some(c.text)
            } else {
                None
            }
        },
        None => None,
    }
}

/// A snapshot written at `written` is reused for every read up to one hour
/// later, and is stale for every read after that.
pub proof fn lemma_staleness_window(written: int, now: int)
    ensures
        written <= now <= written + 3600 ==> is_fresh(written, now),
        now >= written + 3601 ==> !is_fresh(written, now),
{
}

/// What one directory on the way from the working directory up to the
/// filesystem root holds.
#[derive(Debug, Clone, Copy, PartialEq, Eq)]
pub struct RootMarkers {
    /// A marker that no project root lies above this directory.
    pub has_buckroot: bool,
    /// A project configuration file.
    pub has_buckconfig: bool,
}

/// Whether ancestor `i` is the project root: the nearest one that holds a
/// stop marker, or, when none does, the furthest one holding a configuration.
pub open spec fn is_project_root(m: Seq<RootMarkers>, i: int) -> bool {
    0 <= i < m.len() && if exists|k: int| 0 <= k < m.len() && (#[trigger] m[k]).has_buckroot {
        m[i].has_buckroot && forall|k: int| 0 <= k < i ==> !(#[trigger] m[k]).has_buckroot
    } else {
        m[i].has_buckconfig && forall|k: int| i < k < m.len() ==> !(#[trigger] m[k]).has_buckconfig
    }
}

/// Picks the project root among the ancestors of the working directory,
/// listed nearest first.
pub fn project_root(ancestors: &Vec<RootMarkers>) -> (r: Option<usize>)
    ensures
        match r {
            Some(i) => is_project_root(ancestors@, i as int),
            None => forall|i: int| !is_project_root(ancestors@, i),
        },
{
    let ghost m = ancestors@;
    let mut best: Option<usize> = None;
    let mut i: usize = 0;
    while i < ancestors.len()
        invariant
            m == ancestors@,
            i <= m.len(),
            forall|k: int| 0 <= k < i ==> !(#[trigger] m[k]).has_buckroot,
            match best {
                Some(b) => b < i && m[b as int].has_buckconfig && forall|k: int|
                    b < k < i ==> !(#[trigger] m[k]).has_buckconfig,
                None => forall|k: int| 0 <= k < i ==> !(#[trigger] m[k]).has_buckconfig,
            },
        decreases m.len() - i,
    {
        if ancestors[i].has_buckroot {
            assert(m[i as int].has_buckroot);
            return Some(i);
        }
        if ancestors[i].has_buckconfig {
            best = Some(i);
        }
        i = i + 1;
    }
    match best {
        Some(b) => {
            assert(is_project_root(m, b as int));
        },
        None => {
            assert forall|j: int| !is_project_root(m, j) by {
                if 0 <= j < m.len() {
                    assert(!m[j].has_buckconfig);
                }
            }
        },
    }
    best
}

/// The version to run: an explicit request wins, then the contents of the
/// project's version file without surrounding whitespace, else `latest`.
pub fn select_version(requested: Option<String>, version_file: Option<String>) -> (r: String)
    ensures
        r@ == match (requested, version_file) {
            (Some(v), _) => v@,
            (None, Some(f)) => trimmed(f@),
            (None, None) => "latest"@,
        },
{
    match requested {
        Some(v) => v,
        None => match version_file {
            Some(f) => trim(f.as_str()),
            None => String::from_str("latest"),
        },
    }
}

/// The expected prelude hash recorded in an installed archive's marker file,
/// without surrounding whitespace.
pub fn expected_prelude_hash(marker: &str) -> (r: String)
    ensures
        r@ == trimmed(marker@),
{
    trim(marker)
}

} // verus!
