use buckle::binding::PackageType;
use buckle::cache::{
    cache_root, expected_prelude_hash, project_root, reuse_cached_releases, select_version,
    CacheEnv, CacheRootError, CachedReleases, RootMarkers,
};
use buckle::installer::{
    check_installed, final_path, install_plan, unpack, FileStatus, InstallStep, UnpackError,
};
use buckle::integrity::{check_prelude, plan_launch, prelude_check_enabled, strip_prefix};

fn segs(v: &[&str]) -> Vec<String> {
    v.iter().map(|s| s.to_string()).collect()
}

fn env(os: &str) -> CacheEnv {
    CacheEnv {
        override_dir: None,
        os: os.to_string(),
        xdg_cache_home: None,
        home: None,
        local_app_data: None,
    }
}

#[test]
fn cache_root_override_wins() {
    let mut e = env("plan9");
    e.override_dir = Some("/tmp/c".to_string());
    assert_eq!(cache_root(&e), Ok(segs(&["/tmp/c", "buckle"])));
}

#[test]
fn cache_root_on_linux() {
    let mut e = env("linux");
    e.home = Some("/home/u".to_string());
    assert_eq!(cache_root(&e), Ok(segs(&["/home/u", ".cache", "buckle"])));
    e.xdg_cache_home = Some("/xdg".to_string());
    assert_eq!(cache_root(&e), Ok(segs(&["/xdg", "buckle"])));
    assert_eq!(cache_root(&env("linux")), Err(CacheRootError::NoCacheHome));
}

#[test]
fn cache_root_on_macos_and_windows() {
    let mut e = env("macos");
    assert_eq!(cache_root(&e), Err(CacheRootError::NoHome));
    e.home = Some("/Users/u".to_string());
    assert_eq!(cache_root(&e), Ok(segs(&["/Users/u", "Library", "Caches", "buckle"])));
    let mut w = env("windows");
    assert_eq!(cache_root(&w), Err(CacheRootError::NoLocalAppData));
    assert_eq!(cache_root(&w).unwrap_err().message(), "%LocalAppData% is not defined");
    w.local_app_data = Some("C:\\Local".to_string());
    assert_eq!(cache_root(&w), Ok(segs(&["C:\\Local", "buckle"])));
}

#[test]
fn cache_root_unsupported_os() {
    let e = cache_root(&env("haiku")).unwrap_err();
    assert_eq!(e, CacheRootError::UnsupportedOs { os: "haiku".to_string() });
    assert_eq!(
        e.message(),
        "'haiku' is currently an unsupported OS. Feel free to contribute a patch."
    );
}

fn cached(written: i64) -> Option<CachedReleases> {
    Some(CachedReleases { written, text: "[{\"x\": 1}]".to_string() })
}

#[test]
fn cached_releases_reused_within_the_hour() {
    let t = 1_700_000_000;
    assert_eq!(reuse_cached_releases(cached(t), t), Some("[{\"x\": 1}]".to_string()));
    assert_eq!(reuse_cached_releases(cached(t), t + 3600), Some("[{\"x\": 1}]".to_string()));
    assert_eq!(reuse_cached_releases(cached(t), t - 3600), Some("[{\"x\": 1}]".to_string()));
}

#[test]
fn cached_releases_stale_after_the_hour() {
    let t = 1_700_000_000;
    assert_eq!(reuse_cached_releases(cached(t), t + 3601), None);
    assert_eq!(reuse_cached_releases(cached(t), t - 3601), None);
    assert_eq!(reuse_cached_releases(None, t), None);
}

#[test]
fn cached_releases_extreme_times() {
    assert_eq!(reuse_cached_releases(cached(i64::MAX), i64::MIN), None);
    assert!(reuse_cached_releases(cached(i64::MAX), i64::MAX).is_some());
}

fn m(root: bool, config: bool) -> RootMarkers {
    RootMarkers { has_buckroot: root, has_buckconfig: config }
}

#[test]
fn project_root_is_furthest_config() {
    let a = vec![m(false, true), m(false, false), m(false, true), m(false, false)];
    assert_eq!(project_root(&a), Some(2));
    assert_eq!(project_root(&vec![m(false, false)]), None);
    assert_eq!(project_root(&vec![]), None);
}

#[test]
fn project_root_stops_at_buckroot() {
    let a = vec![m(false, true), m(true, true), m(false, true)];
    assert_eq!(project_root(&a), Some(1));
    let b = vec![m(false, true), m(true, false), m(true, true)];
    assert_eq!(project_root(&b), Some(1));
}

#[test]
fn version_selection() {
    assert_eq!(select_version(Some("v1".to_string()), Some("v2".to_string())), "v1");
    assert_eq!(select_version(None, Some("  2024-02-01\n".to_string())), "2024-02-01");
    assert_eq!(select_version(None, None), "latest");
}

#[test]
fn expected_hash_is_trimmed() {
    assert_eq!(expected_prelude_hash("abc123\n"), "abc123");
}

#[test]
fn installing_again_does_nothing() {
    assert!(install_plan(true, PackageType::ZstdSingleFile).is_empty());
    assert!(install_plan(true, PackageType::SingleFile).is_empty());
}

#[test]
fn install_publishes_last_and_once() {
    let p = install_plan(false, PackageType::SingleFile);
    assert_eq!(
        p,
        vec![
            InstallStep::CreateDir,
            InstallStep::FetchMarker,
            InstallStep::CreateTemp,
            InstallStep::FetchArtifact,
            InstallStep::Unpack(PackageType::SingleFile),
            InstallStep::MakeExecutable,
            InstallStep::Publish,
        ]
    );
    for k in 0..p.len() {
        let prefix = &p[..k];
        assert!(!prefix.contains(&InstallStep::Publish));
    }
}

#[test]
fn final_path_appends_name() {
    assert_eq!(final_path(&segs(&["a", "b"]), "buck2"), segs(&["a", "b", "buck2"]));
}

#[test]
fn unpack_single_file_verbatim() {
    let data = vec![1u8, 2, 3, 0, 255];
    assert_eq!(unpack(PackageType::SingleFile, data.clone()), Ok(data));
}

#[test]
fn unpack_zstd_decompresses() {
    let plain = b"#!/bin/sh\necho buck2\n".to_vec();
    let packed = zstd::stream::encode_all(&plain[..], 3).unwrap();
    assert_ne!(packed, plain);
    assert_eq!(unpack(PackageType::ZstdSingleFile, packed), Ok(plain));
}

#[test]
fn unpack_zstd_rejects_garbage() {
    assert_eq!(unpack(PackageType::ZstdSingleFile, b"not zstd".to_vec()), Err(UnpackError));
}

#[test]
fn installed_binary_must_be_executable() {
    let ok = FileStatus { exists: true, is_file: true, mode: Some(0o755) };
    assert_eq!(check_installed(ok, "/c/buckle"), Ok(()));
    let no_exec = FileStatus { exists: true, is_file: true, mode: Some(0o644) };
    let e = check_installed(no_exec, "/c/buckle").unwrap_err();
    assert_eq!(e.message(), "The buckle cache is corrupted. Suggested fix is to remove /c/buckle");
    let dir = FileStatus { exists: true, is_file: false, mode: Some(0o755) };
    assert!(check_installed(dir, "/c").is_err());
    let missing = FileStatus { exists: false, is_file: false, mode: None };
    assert!(check_installed(missing, "/c").is_err());
    let no_modes = FileStatus { exists: true, is_file: true, mode: None };
    assert_eq!(check_installed(no_modes, "/c"), Ok(()));
    let user_exec = FileStatus { exists: true, is_file: true, mode: Some(0o100) };
    assert_eq!(check_installed(user_exec, "/c"), Ok(()));
}

#[test]
fn prelude_check_switch() {
    assert!(prelude_check_enabled(None));
    assert!(prelude_check_enabled(Some("yes")));
    assert!(prelude_check_enabled(Some("no")));
    assert!(!prelude_check_enabled(Some("NO")));
}

#[test]
fn prelude_mismatch_warns() {
    let w = check_prelude("aaa\n", "bbb").unwrap();
    assert_eq!(w.actual, "bbb");
    assert_eq!(w.expected, "aaa");
    let (first, second) = w.message_lines("/repo/prelude");
    assert_eq!(first, "buckle: Git submodule for prelude (bbb) is not the expected aaa.");
    assert_eq!(second, "buckle: cd /repo/prelude && git fetch && git checkout aaa");
    assert_eq!(check_prelude(" aaa \n", "aaa"), None);
}

#[test]
fn mismatch_still_launches_binary() {
    let bin = segs(&["cache", "buck2"]);
    let p = plan_launch(bin.clone(), Some("expected\n".to_string()), Some("actual".to_string()));
    assert_eq!(p.binary, bin);
    assert!(p.warning.is_some());
    let q = plan_launch(bin.clone(), None, Some("actual".to_string()));
    assert_eq!(q.binary, bin);
    assert!(q.warning.is_none());
}

#[test]
fn strip_prefix_segments() {
    assert_eq!(
        strip_prefix(&segs(&["/", "repo"]), &segs(&["/", "repo", "third", "prelude"])),
        Some(segs(&["third", "prelude"]))
    );
    assert_eq!(strip_prefix(&segs(&["/", "repo"]), &segs(&["/", "repo"])), Some(vec![]));
    assert_eq!(strip_prefix(&segs(&["/", "other"]), &segs(&["/", "repo", "p"])), None);
    assert_eq!(strip_prefix(&segs(&["/", "repo", "x"]), &segs(&["/", "repo"])), None);
}

#[test]
fn trimming_follows_unicode_white_space() {
    assert_eq!(select_version(None, Some("\u{3000}v1\u{a0}\r\n".to_string())), "v1");
    assert_eq!(select_version(None, Some(" a b ".to_string())), "a b");
    assert_eq!(select_version(None, Some(" \t\n ".to_string())), "");
    assert_eq!(expected_prelude_hash("\u{200b}x"), "\u{200b}x");
    assert_eq!(expected_prelude_hash("\u{85}x\u{2029}"), "x");
}
