//! Resolution of an archive to the artifact to install: its name on this
//! platform, where it is listed, and the directory it is installed in.
use vstd::prelude::*;
use crate::binding::ArchiveConfig;
use crate::pattern::{artifact_name, expand};
use crate::release::{
    install_dir, match_artifact, named, offers, releases_page_of, ArtifactMatch,
    NoMatchingArtifact, Release,
};
use crate::target::{is_target_error, triple_of, TargetError};

verus! {

/// Why an archive could not be resolved to an artifact.
#[derive(Debug, Clone, PartialEq, Eq)]
pub enum ResolveError {
    Target(TargetError),
    NoMatch(NoMatchingArtifact),
}

/// The artifact to install and where.
#[derive(Debug, Clone)]
pub struct Resolution {
    /// The artifact's name, as the archive's pattern gives it.
    pub artifact: String,
    /// Where the artifact is listed.
    pub found: ArtifactMatch,
    /// The directory (as path segments) the artifact is installed in.
    pub dir: Vec<String>,
}

/// Resolves `archive` against a release list, for a platform, with `base`
/// as the archive's cache directory.
pub fn resolve_artifact(
    releases: &Vec<Release>,
    archive: &ArchiveConfig,
    arch: &str,
    os: &str,
    base: &Vec<String>,
) -> (r: Result<Resolution, ResolveError>)
    ensures
        match triple_of(arch@, os@) {
            None => r matches Err(ResolveError::Target(e)) && is_target_error(arch@, os@, e),
            Some(t) => {
                let wanted = expand(
                    archive.artifact_pattern@,
                    archive.source.version@,
                    arch@,
                    os@,
                    t,
                );
                let version = archive.source.version@;
                match r {
                    Ok(res) => {
                        let m = res.found;
                        &&& res.artifact@ == wanted
                        &&& m.release < releases@.len()
                        &&& named(releases@[m.release as int], version)
                        &&& m.asset < releases@[m.release as int].assets@.len()
                        &&& releases@[m.release as int].assets@[m.asset as int].name@ == wanted
                        &&& forall|k: int|
                            0 <= k < m.release ==> !offers(#[trigger] releases@[k], version, wanted)
                        &&& forall|k: int|
                            0 <= k < m.asset
                                ==> (#[trigger] releases@[m.release as int].assets@[k]).name@
                                != wanted
                        &&& res.dir@ == if releases@[m.release as int].tag_name@ == version {
                            base@.push(releases@[m.release as int].target_commitish)
                        } else {
                            base@
                        }
                    },
                    Err(ResolveError::NoMatch(e)) => {
                        &&& forall|k: int|
                            0 <= k < releases@.len() ==> !offers(
                                #[trigger] releases@[k],
                                version,
                                wanted,
                            )
                        &&& e.version@ == version
                        &&& e.artifact@ == wanted
                        &&& e.releases_page@ == releases_page_of(
                            archive.source.owner@,
                            archive.source.repo@,
                        )
                    },
                    Err(ResolveError::Target(_)) => false,
                }
            },
        },
        (forall|k: int|
            0 <= k < releases@.len() ==> !named(#[trigger] releases@[k], archive.source.version@))
            ==> r is Err,
{
    let name = match artifact_name(
        archive.artifact_pattern.as_str(),
        archive.source.version.as_str(),
        arch,
        os,
    ) {
        Ok(n) => n,
        Err(e) => {
            return Err(ResolveError::Target(e));
        },
    };
    match match_artifact(releases, &archive.source, name.as_str()) {
        Ok(m) => {
            let dir = install_dir(base, &releases[m.release], archive.source.version.as_str());
            Ok(Resolution { artifact: name, found: m, dir })
        },
        Err(e) => Err(ResolveError::NoMatch(e)),
    }
}

} // verus!
