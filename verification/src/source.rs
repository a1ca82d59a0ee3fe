//! Where the releases of the program are found.
use crate::text::{
    law_suffixes_are_gone, lemma_same_behind, lemma_same_between, same_text, strip_prefix,
    trim_end_matches, without_suffixes,
};
use crate::version::{
    is_version, law_version_text_is_unambiguous, version_text, Version, VersionView,
};
use vstd::prelude::*;

verus! {

/// Why an update cannot be had.
#[derive(Debug, PartialEq, Eq)]
pub enum UpdateError {
    /// No release is built for this operating system and architecture.
    UnsupportedPlatform { os: String, arch: String },
}

/// The address of a repository without the slashes and the `.git` at its end.
pub open spec fn package_repository(repository: Seq<char>) -> Seq<char> {
    without_suffixes(without_suffixes(repository, "/"@), ".git"@)
}

/// Whether a repository is addressed on `github.com` over HTTPS.
pub open spec fn is_on_github(repository: Seq<char>) -> bool {
    "https://github.com/"@.is_prefix_of(package_repository(repository))
}

/// The repository as the interface of the forge names it: what stands behind the host.
pub open spec fn repository_name(repository: Seq<char>) -> Seq<char> {
    package_repository(repository).skip("https://github.com/"@.len() as int)
}

/// How the interface of the forge names a release: by its tag, or as the latest one.
pub open spec fn release_name(version: Option<VersionView>) -> Seq<char> {
    match version {
        Some(version) => "tags/v"@ + version_text(version),
        None => "latest"@,
    }
}

/// The address at which the interface of the forge describes a release.
pub open spec fn api_url(repository: Seq<char>, version: Option<VersionView>) -> Seq<char> {
    "https://api.github.com/repos/"@ + repository_name(repository) + "/releases/"@ + release_name(
        version,
    )
}

/// The target triple of the release for a platform, where there is one.
pub open spec fn release_target(os: Seq<char>, arch: Seq<char>) -> Option<Seq<char>> {
    if os == "linux"@ && arch == "x86_64"@ {
        Some("x86_64-unknown-linux-gnu"@)
    } else if os == "linux"@ && arch == "aarch64"@ {
        Some("aarch64-unknown-linux-gnu"@)
    } else if os == "macos"@ && arch == "x86_64"@ {
        Some("x86_64-apple-darwin"@)
    } else if os == "macos"@ && arch == "aarch64"@ {
        Some("aarch64-apple-darwin"@)
    } else if os == "windows"@ && arch == "x86_64"@ {
        Some("x86_64-pc-windows-msvc"@)
    } else {
        None
    }
}

/// The kind of archive that a platform gets.
pub open spec fn archive_extension(os: Seq<char>) -> Seq<char> {
    if os == "windows"@ {
        "zip"@
    } else {
        "tar.gz"@
    }
}

/// The name of the archive of a version for a target.
pub open spec fn asset_name(version: Seq<char>, target: Seq<char>, extension: Seq<char>) -> Seq<
    char,
> {
    "tuicr-"@ + version + "-"@ + target + "."@ + extension
}

/// The address at which an archive of a version is found.
pub open spec fn asset_url(repository: Seq<char>, version: Seq<char>, asset: Seq<char>) -> Seq<
    char,
> {
    package_repository(repository) + "/releases/download/v"@ + version + "/"@ + asset
}

/// The address of the repository that the package names, without the slashes and the `.git`
/// at its end.
pub fn package_repository_url(repository: &str) -> (url: &str)
    ensures
        url@ == package_repository(repository@),
{
    proof {
        reveal_strlit("/");
        reveal_strlit(".git");
    }
    trim_end_matches(trim_end_matches(repository, "/"), ".git")
}

/// The address at which the forge describes a release: the one of this version, or the
/// latest one. The package must name a repository on `github.com`.
pub fn release_api_url(repository: &str, version: Option<&Version>) -> (url: String)
    requires
        is_on_github(repository@),
    ensures
        url@ == api_url(
            repository@,
            match version {
                Some(version) => Some(version@),
                None => None,
            },
        ),
{
    let name = match strip_prefix(package_repository_url(repository), "https://github.com/") {
        Some(name) => name,
        None => vstd::pervasive::unreached(),
    };
    let release = match version {
        Some(version) => "tags/v".to_string().concat(version.text().as_str()),
        None => "latest".to_string(),
    };
    "https://api.github.com/repos/".to_string().concat(name).concat("/releases/").concat(
        release.as_str(),
    )
}

/// The name of the archive of a version for a platform.
pub fn release_asset_name(version: &str, os: &str, arch: &str) -> (name: Result<
    String,
    UpdateError,
>)
    ensures
        match release_target(os@, arch@) {
            Some(target) => name matches Ok(name) && name@ == asset_name(
                version@,
                target,
                archive_extension(os@),
            ),
            None => name matches Err(UpdateError::UnsupportedPlatform { os: given, arch: on })
                && given@ == os@ && on@ == arch@,
        },
        name matches Ok(text) ==> ("tuicr-"@ + version@ + "-"@).is_prefix_of(text@),
{
    let linux = same_text(os, "linux");
    let macos = same_text(os, "macos");
    let windows = same_text(os, "windows");
    let x86_64 = same_text(arch, "x86_64");
    let aarch64 = same_text(arch, "aarch64");
    let target = if linux && x86_64 {
        "x86_64-unknown-linux-gnu"
    } else if linux && aarch64 {
        "aarch64-unknown-linux-gnu"
    } else if macos && x86_64 {
        "x86_64-apple-darwin"
    } else if macos && aarch64 {
        "aarch64-apple-darwin"
    } else if windows && x86_64 {
        "x86_64-pc-windows-msvc"
    } else {
        return Err(
            UpdateError::UnsupportedPlatform { os: os.to_string(), arch: arch.to_string() },
        );
    };
    let extension = if windows {
        "zip"
    } else {
        "tar.gz"
    };
    proof {
        law_what_an_archive_name_holds(version@, target@, extension@);
    }
    Ok(
        "tuicr-".to_string().concat(version).concat("-").concat(target).concat(".").concat(
            extension,
        ),
    )
}

/// The address at which an archive of a version is found.
pub fn release_asset_url(repository: &str, version: &str, asset_name: &str) -> (url: String)
    ensures
        url@ == asset_url(repository@, version@, asset_name@),
        url@ == package_repository(repository@) + "/releases/download/v"@ + version@ + "/"@
            + asset_name@,
{
    package_repository_url(repository).to_string().concat("/releases/download/v").concat(
        version,
    ).concat("/").concat(asset_name)
}

/// A slash at the end of the address makes no difference.
pub proof fn law_a_slash_makes_no_difference(repository: Seq<char>)
    ensures
        package_repository(repository + "/"@) == package_repository(repository),
{
    reveal_strlit("/");
    let longer = repository + "/"@;
    assert("/"@ =~= longer.subrange(longer.len() - 1, longer.len() as int));
    assert(longer.take(longer.len() - 1) =~= repository);
}

/// Nor does `.git` at the end of it, unless a slash stands in front.
pub proof fn law_a_git_suffix_makes_no_difference(repository: Seq<char>)
    requires
        !"/"@.is_suffix_of(repository),
    ensures
        package_repository(repository + ".git"@) == package_repository(repository),
{
    reveal_strlit("/");
    reveal_strlit(".git");
    let longer = repository + ".git"@;
    assert(!"/"@.is_suffix_of(longer)) by {
        assert(longer.subrange(longer.len() - 1, longer.len() as int)[0] == 't');
    }
    assert(".git"@ =~= longer.subrange(longer.len() - 4, longer.len() as int));
    assert(longer.take(longer.len() - 4) =~= repository);
}

/// The address ends with `.git` no longer, and an address without either ending stays as it
/// is.
pub proof fn law_package_repository_is_plain(repository: Seq<char>)
    ensures
        !".git"@.is_suffix_of(package_repository(repository)),
        !"/"@.is_suffix_of(repository) && !".git"@.is_suffix_of(repository)
            ==> package_repository(repository) == repository,
{
    reveal_strlit(".git");
    law_suffixes_are_gone(without_suffixes(repository, "/"@), ".git"@);
}

/// Different releases have different addresses, and none of them is that of the latest one.
pub proof fn law_releases_have_their_own_addresses(
    repository: Seq<char>,
    one: Option<VersionView>,
    other: Option<VersionView>,
)
    requires
        one matches Some(version) ==> is_version(version),
        other matches Some(version) ==> is_version(version),
        api_url(repository, one) == api_url(repository, other),
    ensures
        one == other,
{
    let front = "https://api.github.com/repos/"@ + repository_name(repository) + "/releases/"@;
    lemma_same_behind(front, release_name(one), release_name(other));
    reveal_strlit("latest");
    reveal_strlit("tags/v");
    match (one, other) {
        (Some(v), Some(w)) => {
            lemma_same_behind("tags/v"@, version_text(v), version_text(w));
            law_version_text_is_unambiguous(v, w);
        },
        (Some(v), None) => {
            assert(release_name(one)[0] == 't');
        },
        (None, Some(w)) => {
            assert(release_name(other)[0] == 't');
        },
        (None, None) => {},
    }
}

/// What stands behind the version in the name of an archive.
spec fn asset_ending(os: Seq<char>, arch: Seq<char>) -> Seq<char> {
    "-"@ + release_target(os, arch)->0 + "."@ + archive_extension(os)
}

/// Two endings of archive names of which neither is the end of the other.
spec fn ends_apart(one: Seq<char>, other: Seq<char>, at: int) -> bool {
    &&& at <= one.len()
    &&& at <= other.len()
    &&& one[one.len() - at] != other[other.len() - at]
}

proof fn lemma_endings_apart(os: Seq<char>, arch: Seq<char>, os2: Seq<char>, arch2: Seq<char>)
    requires
        release_target(os, arch) is Some,
        release_target(os2, arch2) is Some,
        os != os2 || arch != arch2,
    ensures
        exists|at: int|
            0 < at && #[trigger] ends_apart(asset_ending(os, arch), asset_ending(os2, arch2), at),
{
    reveal_strlit("-");
    reveal_strlit(".");
    reveal_strlit("zip");
    reveal_strlit("tar.gz");
    reveal_strlit("linux");
    reveal_strlit("macos");
    reveal_strlit("windows");
    reveal_strlit("x86_64");
    reveal_strlit("aarch64");
    reveal_strlit("x86_64-unknown-linux-gnu");
    reveal_strlit("aarch64-unknown-linux-gnu");
    reveal_strlit("x86_64-apple-darwin");
    reveal_strlit("aarch64-apple-darwin");
    reveal_strlit("x86_64-pc-windows-msvc");
    assert("windows"@.len() == 7 && "linux"@.len() == 5 && "macos"@.len() == 5);
    assert("linux"@[0] == 'l' && "macos"@[0] == 'm');
    let one = asset_ending(os, arch);
    let other = asset_ending(os2, arch2);
    if (os == "windows"@) != (os2 == "windows"@) {
        assert(ends_apart(one, other, 1));
    } else if os != os2 {
        assert(ends_apart(one, other, 8));
    } else if os == "linux"@ {
        assert(ends_apart(one, other, 28));
    } else {
        assert(ends_apart(one, other, 23));
    }
}

/// An archive has its name alone: another version, operating system or architecture has
/// another name.
pub proof fn law_archives_have_their_own_names(
    version: Seq<char>,
    os: Seq<char>,
    arch: Seq<char>,
    version2: Seq<char>,
    os2: Seq<char>,
    arch2: Seq<char>,
)
    requires
        release_target(os, arch) is Some,
        release_target(os2, arch2) is Some,
        asset_name(version, release_target(os, arch)->0, archive_extension(os)) == asset_name(
            version2,
            release_target(os2, arch2)->0,
            archive_extension(os2),
        ),
    ensures
        version == version2,
        os == os2,
        arch == arch2,
{
    let name = asset_name(version, release_target(os, arch)->0, archive_extension(os));
    let front = "tuicr-"@ + version;
    let front2 = "tuicr-"@ + version2;
    let one = asset_ending(os, arch);
    let other = asset_ending(os2, arch2);
    assert(name =~= front + one);
    assert(name =~= front2 + other);
    if os != os2 || arch != arch2 {
        lemma_endings_apart(os, arch, os2, arch2);
        let at = choose|at: int| 0 < at && #[trigger] ends_apart(one, other, at);
        assert(name[name.len() - at] == one[one.len() - at]);
        assert(name[name.len() - at] == other[other.len() - at]);
    }
    assert(front =~= name.take(name.len() - one.len()));
    assert(front2 =~= name.take(name.len() - other.len()));
    lemma_same_behind("tuicr-"@, version, version2);
}

/// The address of an archive lies under that of the repository, and ends with the name of
/// the archive.
pub proof fn law_archives_lie_in_the_repository(
    repository: Seq<char>,
    version: Seq<char>,
    asset: Seq<char>,
)
    ensures
        package_repository(repository).is_prefix_of(asset_url(repository, version, asset)),
        asset.is_suffix_of(asset_url(repository, version, asset)),
{
    let front = package_repository(repository);
    let url = asset_url(repository, version, asset);
    assert(front =~= url.subrange(0, front.len() as int));
    assert(asset =~= url.subrange(url.len() - asset.len(), url.len() as int));
}

/// What stands in front of `.git` is kept, also where it ends with a slash.
pub proof fn law_a_slash_before_git_is_kept(repository: Seq<char>)
    ensures
        package_repository(repository + "/.git"@) == repository + "/"@,
{
    reveal_strlit("/");
    reveal_strlit(".git");
    reveal_strlit("/.git");
    let longer = repository + "/.git"@;
    let rest = repository + "/"@;
    assert(!"/"@.is_suffix_of(longer)) by {
        assert(longer.subrange(longer.len() - 1, longer.len() as int)[0] == 't');
    }
    assert(".git"@ =~= longer.subrange(longer.len() - 4, longer.len() as int));
    assert(longer.take(longer.len() - 4) =~= rest);
    assert(!".git"@.is_suffix_of(rest)) by {
        if ".git"@.is_suffix_of(rest) {
            let end = rest.subrange(rest.len() - 4, rest.len() as int);
            assert(end == ".git"@);
            assert(end[3] == '/');
            assert(".git"@[3] == 't');
        }
    }
    assert(without_suffixes(longer, "/"@) == longer);
    assert(without_suffixes(rest, ".git"@) == rest);
}

/// A repository is on the forge where its address, without the endings, starts with the
/// forge's, and nowhere else.
pub proof fn law_what_is_on_github(repository: Seq<char>)
    ensures
        is_on_github(repository) <==> "https://github.com/"@.is_prefix_of(
            package_repository(repository),
        ),
{
}

/// A repository that is `name` on the forge has its releases described under exactly that
/// name: the latest one, or the one of the tag that is `v` and the text of the version.
pub proof fn law_release_addresses(repository: Seq<char>, name: Seq<char>, version: VersionView)
    requires
        package_repository(repository) == "https://github.com/"@ + name,
    ensures
        is_on_github(repository),
        api_url(repository, None) == "https://api.github.com/repos/"@ + name
            + "/releases/latest"@,
        api_url(repository, Some(version)) == "https://api.github.com/repos/"@ + name
            + "/releases/tags/v"@ + version_text(version),
{
    let front = "https://github.com/"@;
    let whole = front + name;
    assert(front =~= whole.subrange(0, front.len() as int));
    assert(whole.skip(front.len() as int) =~= name);
    reveal_strlit("/releases/");
    reveal_strlit("latest");
    reveal_strlit("/releases/latest");
    reveal_strlit("tags/v");
    reveal_strlit("/releases/tags/v");
    assert("/releases/"@ + "latest"@ =~= "/releases/latest"@);
    assert("/releases/"@ + "tags/v"@ =~= "/releases/tags/v"@);
    let start = "https://api.github.com/repos/"@ + name;
    assert(start + "/releases/"@ + "latest"@ =~= start + ("/releases/"@ + "latest"@));
    assert(start + "/releases/"@ + ("tags/v"@ + version_text(version)) =~= start + (
    "/releases/"@ + "tags/v"@) + version_text(version));
}

/// Releases are built for five platforms and for no others.
pub proof fn law_platforms(os: Seq<char>, arch: Seq<char>)
    ensures
        release_target(os, arch) is Some <==> {
            ||| os == "linux"@ && (arch == "x86_64"@ || arch == "aarch64"@)
            ||| os == "macos"@ && (arch == "x86_64"@ || arch == "aarch64"@)
            ||| os == "windows"@ && arch == "x86_64"@
        },
        release_target(os, arch) matches Some(target) ==> {
            &&& os == "linux"@ ==> target == arch + "-unknown-linux-gnu"@
            &&& os == "macos"@ ==> target == arch + "-apple-darwin"@
            &&& os == "windows"@ ==> target == arch + "-pc-windows-msvc"@
        },
        archive_extension(os) == if os == "windows"@ {
            "zip"@
        } else {
            "tar.gz"@
        },
{
    reveal_strlit("linux");
    reveal_strlit("macos");
    reveal_strlit("windows");
    reveal_strlit("x86_64");
    reveal_strlit("aarch64");
    reveal_strlit("-unknown-linux-gnu");
    reveal_strlit("-apple-darwin");
    reveal_strlit("-pc-windows-msvc");
    reveal_strlit("x86_64-unknown-linux-gnu");
    reveal_strlit("aarch64-unknown-linux-gnu");
    reveal_strlit("x86_64-apple-darwin");
    reveal_strlit("aarch64-apple-darwin");
    reveal_strlit("x86_64-pc-windows-msvc");
    assert("windows"@.len() == 7 && "linux"@.len() == 5 && "macos"@.len() == 5);
    assert("linux"@[0] == 'l' && "macos"@[0] == 'm');
    assert("x86_64"@ + "-unknown-linux-gnu"@ =~= "x86_64-unknown-linux-gnu"@);
    assert("aarch64"@ + "-unknown-linux-gnu"@ =~= "aarch64-unknown-linux-gnu"@);
    assert("x86_64"@ + "-apple-darwin"@ =~= "x86_64-apple-darwin"@);
    assert("aarch64"@ + "-apple-darwin"@ =~= "aarch64-apple-darwin"@);
    assert("x86_64"@ + "-pc-windows-msvc"@ =~= "x86_64-pc-windows-msvc"@);
}

/// The name of an archive starts with the program, then comes the version exactly as it was
/// given, then the target and the extension, with one hyphen or dot between them and nothing
/// else.
pub proof fn law_what_an_archive_name_holds(
    version: Seq<char>,
    target: Seq<char>,
    extension: Seq<char>,
)
    ensures
        asset_name(version, target, extension).len() == 8 + version.len() + target.len()
            + extension.len(),
        ("tuicr-"@ + version + "-"@).is_prefix_of(asset_name(version, target, extension)),
        ("-"@ + target + "."@ + extension).is_suffix_of(asset_name(version, target, extension)),
        asset_name(version, target, extension).subrange(6, 6 + version.len() as int) == version,
{
    reveal_strlit("tuicr-");
    reveal_strlit("-");
    reveal_strlit(".");
    let name = asset_name(version, target, extension);
    let start = "tuicr-"@ + version + "-"@;
    let end = "-"@ + target + "."@ + extension;
    assert(start =~= name.subrange(0, start.len() as int));
    assert(end =~= name.subrange(name.len() - end.len(), name.len() as int));
    assert(name.subrange(6, 6 + version.len() as int) =~= version);
}

/// Between the address of the repository and the name of the archive stands the download
/// directory of exactly the version that was given, and nothing else.
pub proof fn law_what_an_archive_address_holds(
    repository: Seq<char>,
    version: Seq<char>,
    asset: Seq<char>,
)
    ensures
        asset_url(repository, version, asset).len() == package_repository(repository).len() + 20
            + version.len() + 1 + asset.len(),
        (package_repository(repository) + "/releases/download/v"@ + version + "/"@).is_prefix_of(
            asset_url(repository, version, asset),
        ),
        asset.is_suffix_of(asset_url(repository, version, asset)),
{
    reveal_strlit("/releases/download/v");
    reveal_strlit("/");
    let url = asset_url(repository, version, asset);
    let start = package_repository(repository) + "/releases/download/v"@ + version + "/"@;
    assert(start =~= url.subrange(0, start.len() as int));
    assert(asset =~= url.subrange(url.len() - asset.len(), url.len() as int));
}

/// In one repository, the same archive of another version has another address, and so has
/// another archive of the same version.
pub proof fn law_archives_have_their_own_addresses(
    repository: Seq<char>,
    version: Seq<char>,
    asset: Seq<char>,
    version2: Seq<char>,
    asset2: Seq<char>,
)
    requires
        asset_url(repository, version, asset) == asset_url(repository, version2, asset2),
    ensures
        asset == asset2 ==> version == version2,
        version == version2 ==> asset == asset2,
{
    let front = package_repository(repository) + "/releases/download/v"@;
    if asset == asset2 {
        assert(asset_url(repository, version, asset) =~= front + version + ("/"@ + asset));
        assert(asset_url(repository, version2, asset) =~= front + version2 + ("/"@ + asset));
        lemma_same_between(front, version, version2, "/"@ + asset);
    }
    if version == version2 {
        lemma_same_behind(front + version + "/"@, asset, asset2);
    }
}

} // verus!
