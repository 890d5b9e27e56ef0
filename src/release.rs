//! Release metadata as published by the release-listing endpoint, and the
//! artifact matcher that picks one asset out of it.
use vstd::prelude::*;
use vstd::string::StringExecFns;
use crate::text::{concat3, str_eq};
use url::Url;

verus! {

/// Declares url::Url, an opaque parsed URL: release records carry their
/// locations in it unchanged, and nothing here looks inside.
#[verifier::external_type_specification]
#[verifier::external_body]
pub struct ExUrl(url::Url);

/// Declares serde_json::Value, an opaque JSON document: a release's author
/// record is carried in it unchanged, and nothing here looks inside.
#[verifier::external_type_specification]
#[verifier::external_body]
pub struct ExJsonValue(serde_json::Value);

/// Relies on url::Url's `Clone`, used by the derived `Clone` of the records
/// below; nothing is stated of the copy.
pub assume_specification[ <Url as std::clone::Clone>::clone ](u: &Url) -> Url;

/// Relies on serde_json::Value's `Clone`, used by the derived `Clone` of
/// `Release`; nothing is stated of the copy.
pub assume_specification[ <serde_json::Value as std::clone::Clone>::clone ](v: &serde_json::Value) -> serde_json::Value;

/// One downloadable file of a release.
#[derive(Debug, Clone, PartialEq)]
pub struct Asset {
    pub name: String,
    pub browser_download_url: url::Url,
}

/// One published release.
#[derive(Debug, Clone, PartialEq)]
pub struct Release {
    pub url: url::Url,
    pub html_url: url::Url,
    pub assets_url: url::Url,
    pub upload_url: String,
    pub tarball_url: Option<url::Url>,
    pub zipball_url: Option<url::Url>,
    pub id: usize,
    pub node_id: String,
    pub tag_name: String,
    pub target_commitish: String,
    pub name: Option<String>,
    pub body: Option<String>,
    pub draft: bool,
    pub prerelease: bool,
    pub created_at: Option<String>,
    pub published_at: Option<String>,
    pub author: serde_json::Value,
    pub assets: Vec<Asset>,
}

/// Where a release's artifacts come from: a repository, and the version asked for.
#[derive(Debug, Clone, PartialEq, Eq)]
pub struct ReleaseDescriptor {
    pub owner: String,
    pub repo: String,
    pub version: String,
}

/// Whether the release is published under the name `version`.
pub open spec fn named(r: Release, version: Seq<char>) -> bool {
    r.name matches Some(n) && n@ == version
}

/// Whether the release lists an asset called `wanted`.
pub open spec fn lists_asset(r: Release, wanted: Seq<char>) -> bool {
    exists|j: int| 0 <= j < r.assets@.len() && (#[trigger] r.assets@[j]).name@ == wanted
}

/// Whether the release is a candidate: named `version` and holding `wanted`.
pub open spec fn offers(r: Release, version: Seq<char>, wanted: Seq<char>) -> bool {
    named(r, version) && lists_asset(r, wanted)
}

/// Where an artifact was found: the release's position in the list and the
/// asset's position in that release.
#[derive(Debug, Clone, Copy, PartialEq, Eq)]
pub struct ArtifactMatch {
    pub release: usize,
    pub asset: usize,
}

/// No release named after the requested version holds the wanted artifact.
#[derive(Debug, Clone, PartialEq, Eq)]
pub struct NoMatchingArtifact {
    pub version: String,
    pub artifact: String,
    pub releases_page: String,
}

impl NoMatchingArtifact {
    pub fn message(&self) -> (r: String)
        ensures
            r@ == self.artifact@ + " "@ + self.version@
                + " was not available. Please check '"@ + self.releases_page@
                + "' for available releases."@,
    {
        let mut s = concat3(self.artifact.as_str(), " ", self.version.as_str());
        let t = concat3(" was not available. Please check '", self.releases_page.as_str(),
            "' for available releases.");
        s.append(t.as_str());
        s
    }
}

/// The page where a repository's releases can be browsed.
pub open spec fn releases_page_of(owner: Seq<char>, repo: Seq<char>) -> Seq<char> {
    "https://github.com/"@ + owner + "/"@ + repo + "/tags"@
}

/// The API endpoint that lists a repository's releases.
pub open spec fn releases_endpoint_of(owner: Seq<char>, repo: Seq<char>) -> Seq<char> {
    "http://api.github.com/repos/"@ + owner + "/"@ + repo + "/releases"@
}

/// The download location of a file published with a release.
pub open spec fn release_file_url_of(
    owner: Seq<char>,
    repo: Seq<char>,
    version: Seq<char>,
    file: Seq<char>,
) -> Seq<char> {
    "https://github.com/"@ + owner + "/"@ + repo + "/releases/download/"@ + version + "/"@ + file
}

impl ReleaseDescriptor {
    pub fn releases_page(&self) -> (r: String)
        ensures
            r@ == releases_page_of(self.owner@, self.repo@),
    {
        let mut s = concat3("https://github.com/", self.owner.as_str(), "/");
        s.append(self.repo.as_str());
        s.append("/tags");
        s
    }

    pub fn releases_endpoint(&self) -> (r: String)
        ensures
            r@ == releases_endpoint_of(self.owner@, self.repo@),
    {
        let mut s = concat3("http://api.github.com/repos/", self.owner.as_str(), "/");
        s.append(self.repo.as_str());
        s.append("/releases");
        s
    }

    /// The download location of `file`, published with the requested version.
    pub fn release_file_url(&self, file: &str) -> (r: String)
        ensures
            r@ == release_file_url_of(self.owner@, self.repo@, self.version@, file@),
    {
        let mut s = concat3("https://github.com/", self.owner.as_str(), "/");
        s.append(self.repo.as_str());
        s.append("/releases/download/");
        s.append(self.version.as_str());
        s.append("/");
        s.append(file);
        s
    }
}

fn is_named(r: &Release, version: &str) -> (b: bool)
    ensures
        b == named(*r, version@),
{
    match &r.name {
        Some(n) => str_eq(n.as_str(), version),
        None => false,
    }
}

/// The position of the first asset of `r` called `wanted`.
fn find_in_release(r: &Release, wanted: &str) -> (j: Option<usize>)
    ensures
        match j {
            Some(j) => j < r.assets@.len() && r.assets@[j as int].name@ == wanted@
                && forall|k: int| 0 <= k < j ==> (#[trigger] r.assets@[k]).name@ != wanted@,
            None => !lists_asset(*r, wanted@),
        },
{
    let mut j: usize = 0;
    while j < r.assets.len()
        invariant
            j <= r.assets@.len(),
            forall|k: int| 0 <= k < j ==> (#[trigger] r.assets@[k]).name@ != wanted@,
        decreases r.assets@.len() - j,
    {
        if str_eq(r.assets[j].name.as_str(), wanted) {
            return Some(j);
        }
        j = j + 1;
    }
    None
}

/// Finds the artifact called `wanted` among the releases named `version`:
/// the first such release in listing order that holds it, and the first
/// asset of that name within it. No other version is ever considered.
pub fn find_artifact(releases: &Vec<Release>, version: &str, wanted: &str) -> (r: Option<
    ArtifactMatch,
>)
    ensures
        match r {
            Some(m) => {
                &&& m.release < releases@.len()
                &&& named(releases@[m.release as int], version@)
                &&& m.asset < releases@[m.release as int].assets@.len()
                &&& releases@[m.release as int].assets@[m.asset as int].name@ == wanted@
                &&& forall|k: int|
                    0 <= k < m.release ==> !offers(#[trigger] releases@[k], version@, wanted@)
                &&& forall|k: int|
                    0 <= k < m.asset ==> (#[trigger] releases@[m.release as int].assets@[k]).name@
                        != wanted@
            },
            None => forall|k: int|
                0 <= k < releases@.len() ==> !offers(#[trigger] releases@[k], version@, wanted@),
        },
{
    let mut i: usize = 0;
    while i < releases.len()
        invariant
            i <= releases@.len(),
            forall|k: int| 0 <= k < i ==> !offers(#[trigger] releases@[k], version@, wanted@),
        decreases releases@.len() - i,
    {
        if is_named(&releases[i], version) {
            match find_in_release(&releases[i], wanted) {
                Some(j) => {
                    return Some(ArtifactMatch { release: i, asset: j });
                },
                None => {},
            }
        }
        i = i + 1;
    }
    None
}

/// Like `find_artifact`, but a miss becomes an error that names the wanted
/// artifact and version and points at the repository's releases page.
pub fn match_artifact(releases: &Vec<Release>, source: &ReleaseDescriptor, wanted: &str) -> (r:
    Result<ArtifactMatch, NoMatchingArtifact>)
    ensures
        match r {
            Ok(m) => {
                &&& m.release < releases@.len()
                &&& named(releases@[m.release as int], source.version@)
                &&& m.asset < releases@[m.release as int].assets@.len()
                &&& releases@[m.release as int].assets@[m.asset as int].name@ == wanted@
                &&& forall|k: int|
                    0 <= k < m.release ==> !offers(
                        #[trigger] releases@[k],
                        source.version@,
                        wanted@,
                    )
                &&& forall|k: int|
                    0 <= k < m.asset ==> (#[trigger] releases@[m.release as int].assets@[k]).name@
                        != wanted@
            },
            Err(e) => {
                &&& forall|k: int|
                    0 <= k < releases@.len() ==> !offers(
                        #[trigger] releases@[k],
                        source.version@,
                        wanted@,
                    )
                &&& e.version@ == source.version@
                &&& e.artifact@ == wanted@
                &&& e.releases_page@ == releases_page_of(source.owner@, source.repo@)
            },
        },
{
    match find_artifact(releases, source.version.as_str(), wanted) {
        Some(m) => Ok(m),
        None => Err(
            NoMatchingArtifact {
                version: source.version.clone(),
                artifact: String::from_str(wanted),
                releases_page: source.releases_page(),
            },
        ),
    }
}

/// The directory segments an artifact of `r` is installed under. A release
/// whose tag is the requested version itself gets a subdirectory named after
/// the commit the tag points at. This covers the moving `latest` tag, whose
/// commit changes from one publication to the next, and concrete tags
/// alike. The subdirectory is deliberately not keyed by the asset's name:
/// that name comes from the pattern and is the same for every version, so
/// two versions would share one directory, and an installed binary would be
/// taken for the other version. A release found only by its display name,
/// with a different tag, installs directly under `base`.
pub fn install_dir(base: &Vec<String>, r: &Release, version: &str) -> (d: Vec<String>)
    ensures
        d@ == if r.tag_name@ == version@ {
            base@.push(r.target_commitish)
        } else {
            base@
        },
{
    let mut d = base.clone();
    if str_eq(r.tag_name.as_str(), version) {
        d.push(r.target_commitish.clone());
    }
    d
}

} // verus!
