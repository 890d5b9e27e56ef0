//! The atomic installer: the ordered steps that put an artifact in place so
//! that its final path only ever holds a complete, executable file, and the
//! unpacking of a downloaded artifact.
use vstd::prelude::*;
use vstd::string::StringExecFns;
use crate::binding::PackageType;
use crate::text::concat2;

verus! {

/// File permission bits given to an installed executable.
pub const EXECUTABLE_MODE: u32 = 0o755;

/// The name of the marker file that records the expected prelude hash.
pub const MARKER_FILE: &'static str = "prelude_hash";

/// One step of an installation, carried out in order by the caller.
#[derive(Debug, Clone, Copy, PartialEq, Eq)]
pub enum InstallStep {
    /// Create the destination directory (no error if it exists).
    CreateDir,
    /// Download the marker file that accompanies the artifact into the destination.
    FetchMarker,
    /// Create a uniquely named temporary file in the destination directory itself.
    CreateTemp,
    /// Download the artifact.
    FetchArtifact,
    /// Unpack the artifact per its package type into the temporary file.
    Unpack(PackageType),
    /// Flush the temporary file and give it `EXECUTABLE_MODE`.
    MakeExecutable,
    /// Rename the temporary file to the final name: the only write to that name.
    Publish,
}

/// The steps that install an artifact: none when the final file is already
/// there, else the whole sequence ending in the one publishing rename.
pub open spec fn plan_of(final_exists: bool, package: PackageType) -> Seq<InstallStep> {
    if final_exists {
        Seq::empty()
    } else {
        seq![
            InstallStep::CreateDir,
            InstallStep::FetchMarker,
            InstallStep::CreateTemp,
            InstallStep::FetchArtifact,
            InstallStep::Unpack(package),
            InstallStep::MakeExecutable,
            InstallStep::Publish,
        ]
    }
}

/// Whether a step goes to the network.
pub open spec fn fetches(s: InstallStep) -> bool {
    s is FetchMarker || s is FetchArtifact
}

/// Whether the final path holds a file after `steps` have been carried out.
pub open spec fn final_present_after(steps: Seq<InstallStep>, present_before: bool) -> bool {
    present_before || exists|k: int| 0 <= k < steps.len() && (#[trigger] steps[k]) is Publish
}

/// Plans an installation into a destination whose final file does or does
/// not exist yet.
pub fn install_plan(final_exists: bool, package: PackageType) -> (r: Vec<InstallStep>)
    ensures
        r@ == plan_of(final_exists, package),
{
    let mut v: Vec<InstallStep> = Vec::new();
    if !final_exists {
        v.push(InstallStep::CreateDir);
        v.push(InstallStep::FetchMarker);
        v.push(InstallStep::CreateTemp);
        v.push(InstallStep::FetchArtifact);
        v.push(InstallStep::Unpack(package));
        v.push(InstallStep::MakeExecutable);
        v.push(InstallStep::Publish);
    }
    assert(v@ =~= plan_of(final_exists, package));
    v
}

/// Installing twice: a completed first run leaves the final file in place,
/// so the second run has nothing to do and fetches nothing.
pub proof fn lemma_install_idempotent(package: PackageType)
    ensures
        final_present_after(plan_of(false, package), false),
        plan_of(true, package).len() == 0,
        forall|k: int|
            0 <= k < plan_of(true, package).len() ==> !fetches(
                #[trigger] plan_of(true, package)[k],
            ),
{
    assert(plan_of(false, package)[6] is Publish);
}

/// Interrupting an installation at any point before its last step leaves
/// no file at the final path, and the last step is the only one that
/// writes there.
pub proof fn lemma_install_atomic(package: PackageType, done: int)
    requires
        0 <= done < plan_of(false, package).len(),
    ensures
        !final_present_after(plan_of(false, package).take(done), false),
        plan_of(false, package).last() is Publish,
        forall|k: int|
            0 <= k < plan_of(false, package).len() - 1 ==> !(#[trigger] plan_of(
                false,
                package,
            )[k] is Publish),
{
    let p = plan_of(false, package);
    assert forall|k: int| 0 <= k < p.take(done).len() implies !(#[trigger] p.take(done)[k] is Publish) by {
        assert(p.take(done)[k] == p[k]);
    }
}

/// The final path of an installed binary: its name inside the destination.
pub fn final_path(dir: &Vec<String>, name: &str) -> (r: Vec<String>)
    ensures
        r@.len() == dir@.len() + 1,
        r@.take(dir@.len() as int) == dir@,
        r@.last()@ == name@,
{
    let mut r = dir.clone();
    r.push(String::from_str(name));
    assert(r@.take(dir@.len() as int) =~= dir@);
    r
}

/// Relies on zstd::stream::decode_all: the bytes that a zstd stream
/// decompresses to, or none when it is not a valid stream.
pub uninterp spec fn zstd_decoded(data: Seq<u8>) -> Option<Seq<u8>>;

/// Relies on zstd::stream::decode_all, which decompresses a whole zstd
/// stream held in memory, or fails on malformed input.
#[verifier::external_body]
fn zstd_decode(data: &[u8]) -> (r: Option<Vec<u8>>)
    ensures
        match r {
            Some(v) => zstd_decoded(data@) == Some(v@),
            None => zstd_decoded(data@) is None,
        },
{
    zstd::stream::decode_all(data).ok()
}

/// The contents of an unpacked artifact, or none when it cannot be unpacked.
pub open spec fn unpacked(package: PackageType, data: Seq<u8>) -> Option<Seq<u8>> {
    match package {
        PackageType::SingleFile => Some(data),
        PackageType::ZstdSingleFile => zstd_decoded(data),
    }
}

/// The artifact could not be decoded per its package type.
#[derive(Debug, Clone, Copy, PartialEq, Eq)]
pub struct UnpackError;

/// Unpacks a downloaded artifact: a single file is kept verbatim, a
/// compressed one is decompressed.
pub fn unpack(package: PackageType, data: Vec<u8>) -> (r: Result<Vec<u8>, UnpackError>)
    ensures
        match r {
            Ok(v) => unpacked(package, data@) == Some(v@),
            Err(_) => unpacked(package, data@) is None,
        },
{
    match package {
        PackageType::SingleFile => Ok(data),
        PackageType::ZstdSingleFile => match zstd_decode(data.as_slice()) {
            Some(v) => Ok(v),
            None => Err(UnpackError),
        },
    }
}

/// What the filesystem reports of an installed binary's final path.
#[derive(Debug, Clone, Copy, PartialEq, Eq)]
pub struct FileStatus {
    pub exists: bool,
    pub is_file: bool,
    /// The permission bits, where the platform has them.
    pub mode: Option<u32>,
}

/// Whether the status is that of a usable executable: present, and where
/// permission bits exist, a regular file with an execute bit set.
pub open spec fn is_executable(s: FileStatus) -> bool {
    s.exists && match s.mode {
        Some(m) => s.is_file && (m & 0o111u32) != 0,
        None => true,
    }
}

/// The cache holds a directory for a version but no usable binary in it.
#[derive(Debug, Clone, PartialEq, Eq)]
pub struct CorruptCache {
    /// The cache root, as it is shown to the user.
    pub cache_root: String,
}

impl CorruptCache {
    pub fn message(&self) -> (r: String)
        ensures
            r@ == "The buckle cache is corrupted. Suggested fix is to remove "@ + self.cache_root@,
    {
        concat2("The buckle cache is corrupted. Suggested fix is to remove ", self.cache_root.as_str())
    }
}

/// Checks that an installed binary can be run; otherwise the cache is
/// reported as corrupted, naming its root so that it can be removed.
pub fn check_installed(status: FileStatus, cache_root: &str) -> (r: Result<(), CorruptCache>)
    ensures
        match r {
            Ok(()) => is_executable(status),
            Err(e) => !is_executable(status) && e.cache_root@ == cache_root@,
        },
{
    let ok = status.exists && match status.mode {
        Some(m) => status.is_file && (m & 0o111u32) != 0,
        None => true,
    };
    if ok {
        Ok(())
    } else {
        Err(CorruptCache { cache_root: String::from_str(cache_root) })
    }
}

} // verus!
