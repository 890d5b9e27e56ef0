use buckle::binding::{
    resolve_binding, ArchiveConfig, BindingConfig, BindingError, Config, PackageType, Resolved,
};
use buckle::pattern::{artifact_name, substitute, Substitution};
use buckle::release::{find_artifact, install_dir, match_artifact, ArtifactMatch, ReleaseDescriptor};
use buckle::resolve::{resolve_artifact, ResolveError};
use buckle::target::{target_triple, TargetError};
use buckle::{Asset, Release};

fn url(s: &str) -> url::Url {
    url::Url::parse(s).unwrap()
}

fn asset(name: &str) -> Asset {
    Asset {
        name: name.to_string(),
        browser_download_url: url(&format!("https://example.com/download/{name}")),
    }
}

fn release(name: Option<&str>, tag: &str, commit: &str, assets: &[&str]) -> Release {
    Release {
        url: url("https://api.example.com/release"),
        html_url: url("https://example.com/release"),
        assets_url: url("https://api.example.com/release/assets"),
        upload_url: "https://uploads.example.com/release".to_string(),
        tarball_url: None,
        zipball_url: None,
        id: 1,
        node_id: "node".to_string(),
        tag_name: tag.to_string(),
        target_commitish: commit.to_string(),
        name: name.map(|n| n.to_string()),
        body: None,
        draft: false,
        prerelease: false,
        created_at: None,
        published_at: None,
        author: serde_json::Value::Null,
        assets: assets.iter().map(|a| asset(a)).collect(),
    }
}

fn source(version: &str) -> ReleaseDescriptor {
    ReleaseDescriptor {
        owner: "facebook".to_string(),
        repo: "buck2".to_string(),
        version: version.to_string(),
    }
}

fn archive(version: &str) -> ArchiveConfig {
    ArchiveConfig {
        source: source(version),
        artifact_pattern: "buck2-%target%.zst".to_string(),
        package_type: PackageType::ZstdSingleFile,
    }
}

#[test]
fn target_triples_of_supported_platforms() {
    assert_eq!(target_triple("x86_64", "linux").unwrap(), "x86_64-unknown-linux-gnu");
    assert_eq!(target_triple("x86_64", "macos").unwrap(), "x86_64-apple-darwin");
    assert_eq!(target_triple("x86_64", "darwin").unwrap(), "x86_64-apple-darwin");
    assert_eq!(target_triple("x86_64", "windows").unwrap(), "x86_64-pc-windows-msvc");
    assert_eq!(target_triple("aarch64", "linux").unwrap(), "aarch64-unknown-linux-gnu");
    assert_eq!(target_triple("aarch64", "macos").unwrap(), "aarch64-apple-darwin");
}

#[test]
fn target_triple_rejects_unsupported_pairs() {
    let e = target_triple("aarch64", "windows").unwrap_err();
    assert_eq!(
        e,
        TargetError::UnsupportedOs { arch: "aarch64".to_string(), os: "windows".to_string() }
    );
    assert_eq!(e.message(), "Unsupported Arch/OS: aarch64/windows");
    let e = target_triple("riscv64", "linux").unwrap_err();
    assert_eq!(
        e,
        TargetError::UnsupportedArchitecture {
            arch: "riscv64".to_string(),
            os: "linux".to_string()
        }
    );
    assert_eq!(e.message(), "Unsupported Architecture: riscv64 (OS: linux)");
}

#[test]
fn target_placeholder_is_the_platform_string() {
    let name = artifact_name("buck2-%target%.zst", "latest", "x86_64", "linux").unwrap();
    assert_eq!(name, "buck2-x86_64-unknown-linux-gnu.zst");
}

#[test]
fn every_placeholder_is_substituted() {
    let s = Substitution {
        version: "v1.2".to_string(),
        arch: "aarch64".to_string(),
        os: "macos".to_string(),
        target: "aarch64-apple-darwin".to_string(),
    };
    assert_eq!(
        substitute("tool-%version%-%arch%-%os%/%target%%", &s),
        "tool-v1.2-aarch64-macos/aarch64-apple-darwin%"
    );
    assert_eq!(substitute("%vers%os%", &s), "%versmacos");
    assert_eq!(substitute("", &s), "");
}

#[test]
fn artifact_name_fails_on_unsupported_platform() {
    let e = artifact_name("buck2-%target%.zst", "latest", "sparc", "solaris").unwrap_err();
    assert_eq!(e.message(), "Unsupported Architecture: sparc (OS: solaris)");
}

#[test]
fn first_matching_release_wins() {
    let releases = vec![
        release(Some("v1"), "v1", "c1", &["buck2-x.zst"]),
        release(Some("v2"), "v2", "c2", &["other", "buck2-x.zst", "buck2-x.zst"]),
        release(Some("v2"), "v2", "c3", &["buck2-x.zst"]),
    ];
    assert_eq!(
        find_artifact(&releases, "v2", "buck2-x.zst"),
        Some(ArtifactMatch { release: 1, asset: 1 })
    );
    assert_eq!(find_artifact(&releases, "v2", "missing"), None);
}

#[test]
fn release_without_name_never_matches() {
    let releases = vec![release(None, "v1", "c1", &["a"])];
    assert_eq!(find_artifact(&releases, "v1", "a"), None);
}

#[test]
fn missing_version_is_an_error_with_no_fallback() {
    let releases = vec![
        release(Some("latest"), "latest", "abc", &["buck2-x86_64-unknown-linux-gnu.zst"]),
        release(Some("v1.0.0"), "v1.0.0", "def", &["buck2-x86_64-unknown-linux-gnu.zst"]),
    ];
    let r = resolve_artifact(&releases, &archive("v9.9.9"), "x86_64", "linux", &vec![]);
    match r {
        Err(ResolveError::NoMatch(e)) => {
            assert_eq!(e.version, "v9.9.9");
            assert_eq!(e.artifact, "buck2-x86_64-unknown-linux-gnu.zst");
            assert_eq!(e.releases_page, "https://github.com/facebook/buck2/tags");
            assert_eq!(
                e.message(),
                "buck2-x86_64-unknown-linux-gnu.zst v9.9.9 was not available. Please check \
                 'https://github.com/facebook/buck2/tags' for available releases."
            );
        }
        other => panic!("unexpected {:?}", other.map(|r| r.found)),
    }
}

#[test]
fn match_artifact_error_names_artifact() {
    let e = match_artifact(&vec![], &source("v3"), "thing").unwrap_err();
    assert_eq!(e.artifact, "thing");
    assert_eq!(e.version, "v3");
}

#[test]
fn latest_installs_under_its_commit() {
    let releases = vec![
        release(Some("latest"), "latest", "abc123", &["buck2-aarch64-apple-darwin.zst"]),
    ];
    let base = vec!["cache".to_string(), "buck2".to_string()];
    let r = resolve_artifact(&releases, &archive("latest"), "aarch64", "macos", &base).unwrap();
    assert_eq!(r.artifact, "buck2-aarch64-apple-darwin.zst");
    assert_eq!(r.found, ArtifactMatch { release: 0, asset: 0 });
    assert_eq!(r.dir, vec!["cache".to_string(), "buck2".to_string(), "abc123".to_string()]);
}

#[test]
fn release_named_differently_from_its_tag_installs_in_base() {
    let r = release(Some("2024-01-01"), "tag-2024", "abc", &[]);
    let base = vec!["root".to_string()];
    assert_eq!(install_dir(&base, &r, "2024-01-01"), base);
}

#[test]
fn resolve_reports_unsupported_platform() {
    let releases = vec![release(Some("latest"), "latest", "abc", &["x"])];
    let r = resolve_artifact(&releases, &archive("latest"), "x86_64", "plan9", &vec![]);
    assert!(matches!(r, Err(ResolveError::Target(TargetError::UnsupportedOs { .. }))));
}

#[test]
fn release_urls() {
    let s = source("v1");
    assert_eq!(s.releases_endpoint(), "http://api.github.com/repos/facebook/buck2/releases");
    assert_eq!(
        s.release_file_url("prelude_hash"),
        "https://github.com/facebook/buck2/releases/download/v1/prelude_hash"
    );
}

fn config(binaries: &[(&str, &str)], archives: &[&str]) -> Config {
    Config {
        archives: archives.iter().map(|a| (a.to_string(), archive("latest"))).collect(),
        binaries: binaries
            .iter()
            .map(|(b, p)| (b.to_string(), BindingConfig { provided_by: p.to_string() }))
            .collect(),
    }
}

#[test]
fn single_binary_is_the_default() {
    let c = config(&[("buck2", "buck2-archive")], &["other", "buck2-archive"]);
    assert_eq!(resolve_binding(&c, None), Ok(Resolved { binary: 0, archive: 1 }));
}

#[test]
fn two_binaries_need_a_name() {
    let c = config(&[("buck2", "a"), ("rust-project", "a")], &["a"]);
    let e = resolve_binding(&c, None).unwrap_err();
    assert_eq!(e, BindingError::NoBinaryName);
    assert_eq!(e.message(), "no binary name provided");
    assert_eq!(resolve_binding(&c, Some("rust-project")), Ok(Resolved { binary: 1, archive: 0 }));
}

#[test]
fn no_binaries_need_a_name() {
    let c = config(&[], &["a"]);
    assert_eq!(resolve_binding(&c, None), Err(BindingError::NoBinaryName));
}

#[test]
fn unknown_binary_and_archive() {
    let c = config(&[("buck2", "missing")], &["a"]);
    let e = resolve_binding(&c, Some("nope")).unwrap_err();
    assert_eq!(e, BindingError::UnknownBinary { name: "nope".to_string() });
    assert_eq!(e.message(), "unknown binary: nope");
    let e = resolve_binding(&c, Some("buck2")).unwrap_err();
    assert_eq!(e, BindingError::UnknownArchive { archive: "missing".to_string() });
    assert_eq!(e.message(), "unknown archive: missing");
}

#[test]
fn repeated_names_are_not_well_formed() {
    assert!(config(&[("buck2", "a"), ("other", "a")], &["a", "b"]).is_well_formed());
    assert!(!config(&[("buck2", "a"), ("buck2", "a")], &["a"]).is_well_formed());
    assert!(!config(&[("buck2", "a")], &["a", "b", "a"]).is_well_formed());
    assert!(config(&[], &[]).is_well_formed());
}

#[test]
fn asset_records_compare_and_clone() {
    let a = asset("buck2-x.zst");
    assert_eq!(a.clone(), a);
    let r = release(Some("v1"), "v1", "c", &["x"]);
    assert_eq!(r.clone(), r);
}
