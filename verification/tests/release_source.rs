//! Where releases are found, on concrete repositories, versions and platforms.
use tuicr::source::{
    package_repository_url, release_api_url, release_asset_name, release_asset_url, UpdateError,
};
use tuicr::version::{Version, VersionError};

const REPOSITORY: &str = "https://github.com/agavra/tuicr";

#[test]
fn the_repository_loses_slashes_and_git_suffixes() {
    for written in [
        "https://github.com/agavra/tuicr",
        "https://github.com/agavra/tuicr/",
        "https://github.com/agavra/tuicr///",
        "https://github.com/agavra/tuicr.git",
        "https://github.com/agavra/tuicr.git/",
        "https://github.com/agavra/tuicr.git.git",
    ] {
        assert_eq!(package_repository_url(written), REPOSITORY);
        assert_eq!(
            package_repository_url(written),
            written.trim_end_matches('/').trim_end_matches(".git")
        );
    }
    assert_eq!(package_repository_url("a/.git"), "a/");
    assert_eq!(package_repository_url("///"), "");
    assert_eq!(package_repository_url(""), "");
}

#[test]
fn the_latest_release_has_an_address() {
    assert_eq!(
        release_api_url("https://github.com/agavra/tuicr.git", None),
        "https://api.github.com/repos/agavra/tuicr/releases/latest"
    );
}

#[test]
fn a_version_is_found_by_its_tag() {
    let version = Version::new(0, 12, 3, "", "").unwrap();
    assert_eq!(
        release_api_url(REPOSITORY, Some(&version)),
        "https://api.github.com/repos/agavra/tuicr/releases/tags/v0.12.3"
    );
    let candidate = Version::new(1, 0, 0, "rc.1", "build.7").unwrap();
    assert_eq!(
        release_api_url(REPOSITORY, Some(&candidate)),
        "https://api.github.com/repos/agavra/tuicr/releases/tags/v1.0.0-rc.1+build.7"
    );
}

#[test]
fn versions_are_written_as_semver_writes_them() {
    for text in [
        "0.0.0",
        "1.2.3",
        "10.20.30",
        "18446744073709551615.0.7",
        "1.0.0-alpha",
        "1.0.0-alpha.1.x-y-z.--",
        "1.0.0+001",
        "1.0.0-0.3.7+exp.sha.5114f85",
    ] {
        let parsed = semver::Version::parse(text).unwrap();
        let version = Version::new(
            parsed.major,
            parsed.minor,
            parsed.patch,
            parsed.pre.as_str(),
            parsed.build.as_str(),
        )
        .unwrap();
        assert_eq!(version.text(), text);
        assert_eq!(version.text(), parsed.to_string());
    }
}

#[test]
fn identifiers_must_have_their_form() {
    for bad in ["01", "a.00", ".", "a.", ".a", "a..b", "a b", "a+b", "\u{e9}", "a_b"] {
        assert_eq!(Version::new(1, 0, 0, bad, ""), Err(VersionError::InvalidIdentifiers));
    }
    for bad in [".", "a.", ".a", "a..b", "a b", "a+b", "\u{e9}"] {
        assert_eq!(Version::new(1, 0, 0, "", bad), Err(VersionError::InvalidIdentifiers));
    }
    for good in ["0", "0a", "-", "--1", "1.0.x", "a-b.c-d", "AZaz09"] {
        assert!(Version::new(1, 0, 0, good, "").is_ok());
        assert!(Version::new(1, 0, 0, "", good).is_ok());
    }
    assert!(Version::new(1, 0, 0, "", "01").is_ok());
}

#[test]
fn different_versions_have_different_addresses() {
    let mut addresses = vec![release_api_url(REPOSITORY, None)];
    for (pre, build) in [("", ""), ("1", ""), ("", "1"), ("1", "1"), ("1-1", ""), ("", "1-1")] {
        let version = Version::new(1, 2, 3, pre, build).unwrap();
        addresses.push(release_api_url(REPOSITORY, Some(&version)));
    }
    for (major, minor) in [(11, 2), (1, 12), (112, 3)] {
        let version = Version::new(major, minor, 3, "", "").unwrap();
        addresses.push(release_api_url(REPOSITORY, Some(&version)));
    }
    let count = addresses.len();
    addresses.sort();
    addresses.dedup();
    assert_eq!(addresses.len(), count);
}

#[test]
fn each_platform_has_its_archive() {
    for (os, arch, name) in [
        ("linux", "x86_64", "tuicr-1.2.3-x86_64-unknown-linux-gnu.tar.gz"),
        ("linux", "aarch64", "tuicr-1.2.3-aarch64-unknown-linux-gnu.tar.gz"),
        ("macos", "x86_64", "tuicr-1.2.3-x86_64-apple-darwin.tar.gz"),
        ("macos", "aarch64", "tuicr-1.2.3-aarch64-apple-darwin.tar.gz"),
        ("windows", "x86_64", "tuicr-1.2.3-x86_64-pc-windows-msvc.zip"),
    ] {
        assert_eq!(release_asset_name("1.2.3", os, arch), Ok(name.to_string()));
    }
}

#[test]
fn other_platforms_are_unsupported() {
    for (os, arch) in [
        ("windows", "aarch64"),
        ("freebsd", "x86_64"),
        ("linux", "riscv64"),
        ("Linux", "x86_64"),
        ("", ""),
    ] {
        assert_eq!(
            release_asset_name("1.2.3", os, arch),
            Err(UpdateError::UnsupportedPlatform { os: os.to_string(), arch: arch.to_string() })
        );
    }
}

#[test]
fn archives_have_their_own_names() {
    let mut names = Vec::new();
    for version in ["1.2.3", "1.2.4", "1.2.3-x86_64", ""] {
        for (os, arch) in [
            ("linux", "x86_64"),
            ("linux", "aarch64"),
            ("macos", "x86_64"),
            ("macos", "aarch64"),
            ("windows", "x86_64"),
        ] {
            names.push(release_asset_name(version, os, arch).unwrap());
        }
    }
    let count = names.len();
    names.sort();
    names.dedup();
    assert_eq!(names.len(), count);
}

#[test]
fn an_archive_has_an_address() {
    assert_eq!(
        release_asset_url(
            "https://github.com/agavra/tuicr/",
            "1.2.3",
            "tuicr-1.2.3-x86_64-apple-darwin.tar.gz"
        ),
        "https://github.com/agavra/tuicr/releases/download/v1.2.3/tuicr-1.2.3-x86_64-apple-darwin.tar.gz"
    );
}
