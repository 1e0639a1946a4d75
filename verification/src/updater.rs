//! What a published release means for the running program: whether it is
//! newer, and which of its files is the one for this platform.

use vstd::prelude::*;
use crate::platform::TargetOs;
use crate::text::spec_contains;
use crate::text::spec_ends_with;
use crate::text::str_contains;
use crate::text::str_ends_with;
use crate::text::str_eq;
use crate::text::str_trim_start_matches;
use crate::text::without_leading;

verus! {

/// Where the latest release is asked for.
pub const GITHUB_API_URL: &'static str =
    "https://api.github.com/repos/dongdongGit/ScreenHop/releases/latest";

/// The page of the latest release, for a reader.
pub const RELEASES_PAGE_URL: &'static str = "https://github.com/dongdongGit/ScreenHop/releases/latest";

/// What a check for updates found.
#[derive(Debug, Clone)]
pub struct UpdateCheckResult {
    pub has_update: bool,
    pub latest_version: String,
    pub current_version: String,
    pub release_url: String,
    pub download_url: Option<String>,
    pub asset_name: Option<String>,
    pub asset_size: u64,
    pub error_message: Option<String>,
}

/// One file of a release.
#[derive(Debug, Clone)]
pub struct GithubAsset {
    pub name: String,
    pub browser_download_url: String,
    pub size: u64,
}

/// A release, as far as the update check reads it.
#[derive(Debug, Clone)]
pub struct GithubRelease {
    pub tag_name: String,
    pub html_url: String,
    pub assets: Vec<GithubAsset>,
}

/// The word by which the files of a release are told apart by platform:
/// the one for the system `os` on the processor architecture `arch`.
pub open spec fn spec_platform_keyword(os: TargetOs, arch: Seq<char>) -> Seq<char> {
    match os {
        TargetOs::Windows => {
            if arch == "x86_64"@ {
                "win-x64"@
            } else if arch == "x86"@ {
                "win-x86"@
            } else if arch == "aarch64"@ {
                "win-arm64"@
            } else {
                "win-x64"@
            }
        },
        TargetOs::MacOs => {
            if arch == "aarch64"@ {
                "macOS-arm64"@
            } else if arch == "x86_64"@ {
                "macOS-x86_64"@
            } else {
                "macOS-universal"@
            }
        },
        TargetOs::Other => "unknown"@,
    }
}

/// Gives the word that the name of this platform's file holds.
pub fn get_platform_keyword(os: TargetOs, arch: &str) -> (keyword: &'static str)
    ensures
        keyword@ == spec_platform_keyword(os, arch@),
{
    match os {
        TargetOs::Windows => {
            if str_eq(arch, "x86_64") {
                "win-x64"
            } else if str_eq(arch, "x86") {
                "win-x86"
            } else if str_eq(arch, "aarch64") {
                "win-arm64"
            } else {
                "win-x64"
            }
        },
        TargetOs::MacOs => {
            if str_eq(arch, "aarch64") {
                "macOS-arm64"
            } else if str_eq(arch, "x86_64") {
                "macOS-x86_64"
            } else {
                "macOS-universal"
            }
        },
        TargetOs::Other => "unknown",
    }
}

/// Whether a file named `name` is the archive for the platform with the
/// keyword `platform_key`: its name holds the keyword and ends in `.zip`.
pub open spec fn is_asset_for(name: Seq<char>, platform_key: Seq<char>) -> bool {
    spec_contains(name, platform_key) && spec_ends_with(name, ".zip"@)
}

/// Whether `index` names the first of `assets` that is the archive for the
/// platform.
pub open spec fn is_first_asset_for(
    assets: Seq<GithubAsset>,
    platform_key: Seq<char>,
    index: int,
) -> bool {
    &&& 0 <= index < assets.len()
    &&& is_asset_for(assets[index].name@, platform_key)
    &&& forall|earlier: int|
        0 <= earlier < index ==> !is_asset_for((#[trigger] assets[earlier]).name@, platform_key)
}

/// The index of the first of `assets` that is the archive for the platform,
/// or `None` where none of them is.
pub open spec fn spec_matching_asset(assets: Seq<GithubAsset>, platform_key: Seq<char>) -> Option<
    int,
> {
    if exists|index: int| is_first_asset_for(assets, platform_key, index) {
        Some(choose|index: int| is_first_asset_for(assets, platform_key, index))
    } else {
        None
    }
}

/// At most one file is the first archive for the platform.
proof fn lemma_first_asset_is_one(assets: Seq<GithubAsset>, platform_key: Seq<char>, index: int)
    requires
        is_first_asset_for(assets, platform_key, index),
    ensures
        spec_matching_asset(assets, platform_key) == Some(index),
{
    let chosen = choose|at: int| is_first_asset_for(assets, platform_key, at);
    if chosen < index {
        assert(!is_asset_for(assets[chosen].name@, platform_key));
    }
    if index < chosen {
        assert(!is_asset_for(assets[index].name@, platform_key));
    }
}

/// Finds the file of a release that is the archive for the platform with
/// the keyword `platform_key`: the first whose name holds the keyword and
/// ends in `.zip`. Returns its index.
pub fn find_matching_asset(assets: &[GithubAsset], platform_key: &str) -> (found: Option<usize>)
    ensures
        match found {
            Some(index) => is_first_asset_for(assets@, platform_key@, index as int),
            None => forall|index: int|
                0 <= index < assets@.len() ==> !is_asset_for(
                    (#[trigger] assets@[index]).name@,
                    platform_key@,
                ),
        },
        match found {
            Some(index) => spec_matching_asset(assets@, platform_key@) == Some(index as int),
            None => spec_matching_asset(assets@, platform_key@).is_none(),
        },
{
    let mut index: usize = 0;
    while index < assets.len()
        invariant
            index <= assets.len(),
            forall|earlier: int|
                0 <= earlier < index ==> !is_asset_for(
                    (#[trigger] assets@[earlier]).name@,
                    platform_key@,
                ),
        decreases assets.len() - index,
    {
        let name = assets[index].name.as_str();
        if str_contains(name, platform_key) && str_ends_with(name, ".zip") {
            proof {
                lemma_first_asset_is_one(assets@, platform_key@, index as int);
            }
            return Some(index);
        }
        index += 1;
    }
    proof {
        assert forall|at: int| !is_first_asset_for(assets@, platform_key@, at) by {
            if 0 <= at < assets@.len() {
                assert(!is_asset_for(assets@[at].name@, platform_key@));
            }
        }
    }
    None
}

/// What the crate `semver` makes of two versions: `Some(true)` where it
/// reads both and puts `latest` after `current`, `Some(false)` where it
/// reads both and does not, `None` where it rejects either.
pub uninterp spec fn semver_newer(latest: Seq<char>, current: Seq<char>) -> Option<bool>;

/// Reads both texts with `semver::Version::parse` and compares what it
/// gets with `>`, the order that `semver::Version` has. The outcome is a
/// matter of the two texts alone; it is `None` where either text is no
/// version.
#[verifier::external_body]
fn compare_versions(latest: &str, current: &str) -> (newer: Option<bool>)
    ensures
        newer == semver_newer(latest@, current@),
{
    match (semver::Version::parse(latest), semver::Version::parse(current)) {
        (Ok(latest), Ok(current)) => Some(latest > current),
        _ => None,
    }
}

/// Whether the version `latest` is an update of the version `current`,
/// where `newer` is the comparison of the two as versions, if they are
/// versions: it is what the comparison says, and without one, whether the
/// two differ.
pub open spec fn spec_has_update(
    newer: Option<bool>,
    latest: Seq<char>,
    current: Seq<char>,
) -> bool {
    match newer {
        Some(newer) => newer,
        None => latest != current,
    }
}

/// Decides whether the version `latest` is an update of the version
/// `current`, given the comparison of the two as versions.
pub fn has_update_given(newer: Option<bool>, latest: &str, current: &str) -> (update: bool)
    ensures
        update == spec_has_update(newer, latest@, current@),
{
    match newer {
        Some(newer) => newer,
        None => !str_eq(latest, current),
    }
}

/// Decides whether the version `latest` is an update of the version
/// `current`: where both are versions, whether `latest` is the higher one,
/// and else whether the two differ.
pub fn has_update(latest: &str, current: &str) -> (update: bool)
    ensures
        update == spec_has_update(semver_newer(latest@, current@), latest@, current@),
{
    has_update_given(compare_versions(latest, current), latest, current)
}

impl UpdateCheckResult {
    /// The result of a check that has found nothing yet: no update, no
    /// version, and the page of the latest release to turn to.
    pub fn pending(current_version: &str) -> (result: UpdateCheckResult)
        ensures
            !result.has_update,
            result.latest_version@ == Seq::<char>::empty(),
            result.current_version@ == current_version@,
            result.release_url@ == RELEASES_PAGE_URL@,
            result.download_url.is_none(),
            result.asset_name.is_none(),
            result.asset_size == 0,
            result.error_message.is_none(),
    {
        UpdateCheckResult {
            has_update: false,
            latest_version: String::new(),
            current_version: current_version.to_owned(),
            release_url: RELEASES_PAGE_URL.to_owned(),
            download_url: None,
            asset_name: None,
            asset_size: 0,
            error_message: None,
        }
    }

    /// The result of a check that the server turned down with `message`:
    /// that of a check that has found nothing, with the message.
    pub fn refused(current_version: &str, message: String) -> (result: UpdateCheckResult)
        ensures
            !result.has_update,
            result.latest_version@ == Seq::<char>::empty(),
            result.current_version@ == current_version@,
            result.release_url@ == RELEASES_PAGE_URL@,
            result.download_url.is_none(),
            result.asset_name.is_none(),
            result.asset_size == 0,
            result.error_message == Some(message),
    {
        let mut result = UpdateCheckResult::pending(current_version);
        result.error_message = Some(message);
        result
    }
}

/// The version that a release tag names: the tag without the `v`s that it
/// starts with.
pub open spec fn version_of_tag(tag_name: Seq<char>) -> Seq<char> {
    without_leading(tag_name, 'v')
}

/// Whether `result` is what the release `release` means for a program of
/// the version `current_version` on the platform with the keyword
/// `platform_key`.
///
/// It names both versions and the page of the release. There is an update
/// as `spec_has_update` says of the two versions. Where there is one, the
/// result names the first file of the release that is the archive for the
/// platform, if the release has such a file. It holds no error.
pub open spec fn is_evaluation_of(
    result: UpdateCheckResult,
    current_version: Seq<char>,
    release: GithubRelease,
    platform_key: Seq<char>,
) -> bool {
    let latest = version_of_tag(release.tag_name@);
    &&& result.current_version@ == current_version
    &&& result.latest_version@ == latest
    &&& result.release_url@ == release.html_url@
    &&& result.has_update == spec_has_update(
        semver_newer(latest, current_version),
        latest,
        current_version,
    )
    &&& result.error_message.is_none()
    &&& match spec_matching_asset(release.assets@, platform_key) {
        Some(index) if result.has_update => {
            &&& result.download_url == Some(release.assets@[index].browser_download_url)
            &&& result.asset_name == Some(release.assets@[index].name)
            &&& result.asset_size == release.assets@[index].size
        },
        _ => {
            &&& result.download_url.is_none()
            &&& result.asset_name.is_none()
            &&& result.asset_size == 0
        },
    }
}

/// Tells what a release means for the running program.
pub fn evaluate_release(
    current_version: &str,
    release: &GithubRelease,
    platform_key: &str,
) -> (result: UpdateCheckResult)
    ensures
        is_evaluation_of(result, current_version@, *release, platform_key@),
{
    let mut result = UpdateCheckResult::pending(current_version);
    let latest = str_trim_start_matches(release.tag_name.as_str(), 'v');
    result.latest_version = latest.to_owned();
    result.release_url = release.html_url.clone();
    result.has_update = has_update(latest, current_version);
    if result.has_update {
        match find_matching_asset(release.assets.as_slice(), platform_key) {
            Some(index) => {
                let asset = &release.assets[index];
                result.download_url = Some(asset.browser_download_url.clone());
                result.asset_name = Some(asset.name.clone());
                result.asset_size = asset.size;
            },
            None => {},
        }
    }
    result
}

} // verus!
