use screenhop::platform::TargetOs;
use screenhop::updater::{
    evaluate_release, find_matching_asset, get_platform_keyword, has_update, has_update_given,
    GithubAsset, GithubRelease, UpdateCheckResult, RELEASES_PAGE_URL,
};

fn asset(name: &str, size: u64) -> GithubAsset {
    GithubAsset {
        name: name.to_string(),
        browser_download_url: format!("https://example.invalid/download/{}", name),
        size,
    }
}

fn release(tag: &str) -> GithubRelease {
    GithubRelease {
        tag_name: tag.to_string(),
        html_url: format!("https://example.invalid/releases/{}", tag),
        assets: vec![
            asset("ScreenHop-1.4.0-win-x64.zip.sha256", 64),
            asset("ScreenHop-1.4.0-win-x64.zip", 4_000_000),
            asset("ScreenHop-1.4.0-macOS-arm64.dmg", 7_000_000),
            asset("ScreenHop-1.4.0-macOS-arm64.zip", 6_000_000),
            asset("ScreenHop-1.4.0-macOS-arm64-debug.zip", 9_000_000),
        ],
    }
}

#[test]
fn test_get_platform_keyword() {
    let keyword = get_platform_keyword(TargetOs::MacOs, "aarch64");
    assert!(keyword.starts_with("macOS"));
    let keyword = get_platform_keyword(TargetOs::Windows, "x86_64");
    assert!(keyword.starts_with("win"));
}

#[test]
fn platform_keyword_for_each_system_and_architecture() {
    assert_eq!(get_platform_keyword(TargetOs::Windows, "x86_64"), "win-x64");
    assert_eq!(get_platform_keyword(TargetOs::Windows, "x86"), "win-x86");
    assert_eq!(get_platform_keyword(TargetOs::Windows, "aarch64"), "win-arm64");
    assert_eq!(get_platform_keyword(TargetOs::Windows, "riscv64"), "win-x64");
    assert_eq!(get_platform_keyword(TargetOs::MacOs, "aarch64"), "macOS-arm64");
    assert_eq!(get_platform_keyword(TargetOs::MacOs, "x86_64"), "macOS-x86_64");
    assert_eq!(get_platform_keyword(TargetOs::MacOs, "x86"), "macOS-universal");
    assert_eq!(get_platform_keyword(TargetOs::MacOs, ""), "macOS-universal");
    assert_eq!(get_platform_keyword(TargetOs::Other, "x86_64"), "unknown");
}

#[test]
fn matching_asset_is_the_first_archive_with_the_keyword() {
    let release = release("v1.4.0");
    assert_eq!(find_matching_asset(&release.assets, "win-x64"), Some(1));
    assert_eq!(find_matching_asset(&release.assets, "macOS-arm64"), Some(3));
    assert_eq!(find_matching_asset(&release.assets, "macOS-x86_64"), None);
    assert_eq!(find_matching_asset(&release.assets, "WIN-X64"), None);
    assert_eq!(find_matching_asset(&release.assets, ""), Some(1));
    assert_eq!(find_matching_asset(&release.assets, ".zip"), Some(1));
    assert_eq!(find_matching_asset(&[], "win-x64"), None);
}

#[test]
fn matching_asset_needs_both_the_keyword_and_the_ending() {
    let assets = vec![
        asset("win-x64", 1),
        asset("other.zip", 2),
        asset("win-x64.zipx", 3),
        asset(".zip-win-x64", 4),
        asset("win-x64.zip", 5),
    ];
    assert_eq!(find_matching_asset(&assets, "win-x64"), Some(4));
    // An asset whose whole name is the ending.
    assert_eq!(find_matching_asset(&[asset(".zip", 1)], ".zip"), Some(0));
    assert_eq!(find_matching_asset(&[asset("zip", 1)], "zip"), None);
}

#[test]
fn versions_are_compared_as_versions() {
    assert!(has_update("1.10.0", "1.9.0"));
    assert!(!has_update("1.9.0", "1.10.0"));
    assert!(!has_update("1.0.0", "1.0.0"));
    assert!(has_update("2.0.0", "1.99.99"));
    assert!(!has_update("1.0.0", "2.0.0"));
    // A release is newer than its own pre-releases.
    assert!(has_update("1.0.0", "1.0.0-rc.1"));
    assert!(!has_update("1.0.0-rc.1", "1.0.0"));
    assert!(has_update("1.0.0-beta.11", "1.0.0-beta.2"));
}

#[test]
fn texts_that_are_no_versions_are_compared_as_texts() {
    assert!(has_update("nightly", "1.0.0"));
    assert!(has_update("1.0", "1.0.0"));
    assert!(!has_update("nightly", "nightly"));
    assert!(has_update("1.2.3", "latest"));
    assert!(!has_update("", ""));
}

#[test]
fn update_follows_the_comparison_where_there_is_one() {
    assert!(has_update_given(Some(true), "same", "same"));
    assert!(!has_update_given(Some(false), "1.0.0", "2.0.0"));
    assert!(has_update_given(None, "a", "b"));
    assert!(!has_update_given(None, "a", "a"));
}

#[test]
fn pending_result_holds_nothing_but_the_version() {
    let result = UpdateCheckResult::pending("1.2.3");
    assert!(!result.has_update);
    assert_eq!(result.latest_version, "");
    assert_eq!(result.current_version, "1.2.3");
    assert_eq!(result.release_url, RELEASES_PAGE_URL);
    assert_eq!(result.download_url, None);
    assert_eq!(result.asset_name, None);
    assert_eq!(result.asset_size, 0);
    assert_eq!(result.error_message, None);
}

#[test]
fn refused_result_holds_the_message() {
    let result = UpdateCheckResult::refused("1.2.3", "GitHub API 403".to_string());
    assert!(!result.has_update);
    assert_eq!(result.latest_version, "");
    assert_eq!(result.current_version, "1.2.3");
    assert_eq!(result.release_url, RELEASES_PAGE_URL);
    assert_eq!(result.download_url, None);
    assert_eq!(result.error_message, Some("GitHub API 403".to_string()));
}

#[test]
fn release_with_a_newer_version_names_the_archive() {
    let result = evaluate_release("1.3.9", &release("v1.4.0"), "macOS-arm64");
    assert!(result.has_update);
    assert_eq!(result.latest_version, "1.4.0");
    assert_eq!(result.current_version, "1.3.9");
    assert_eq!(result.release_url, "https://example.invalid/releases/v1.4.0");
    assert_eq!(
        result.download_url,
        Some("https://example.invalid/download/ScreenHop-1.4.0-macOS-arm64.zip".to_string())
    );
    assert_eq!(result.asset_name, Some("ScreenHop-1.4.0-macOS-arm64.zip".to_string()));
    assert_eq!(result.asset_size, 6_000_000);
    assert_eq!(result.error_message, None);
}

#[test]
fn release_with_the_same_version_names_no_archive() {
    let result = evaluate_release("1.4.0", &release("v1.4.0"), "macOS-arm64");
    assert!(!result.has_update);
    assert_eq!(result.latest_version, "1.4.0");
    assert_eq!(result.release_url, "https://example.invalid/releases/v1.4.0");
    assert_eq!(result.download_url, None);
    assert_eq!(result.asset_name, None);
    assert_eq!(result.asset_size, 0);
}

#[test]
fn release_without_an_archive_for_the_platform() {
    let result = evaluate_release("1.0.0", &release("v1.4.0"), "win-arm64");
    assert!(result.has_update);
    assert_eq!(result.download_url, None);
    assert_eq!(result.asset_name, None);
    assert_eq!(result.asset_size, 0);
}

#[test]
fn release_tag_loses_every_leading_v() {
    assert_eq!(evaluate_release("1.0.0", &release("1.4.0"), "x").latest_version, "1.4.0");
    assert_eq!(evaluate_release("1.0.0", &release("vv1.4.0"), "x").latest_version, "1.4.0");
    assert_eq!(evaluate_release("1.0.0", &release("v1.4.0v"), "x").latest_version, "1.4.0v");
    assert_eq!(evaluate_release("1.0.0", &release("V1.4.0"), "x").latest_version, "V1.4.0");
    assert_eq!(evaluate_release("1.0.0", &release("vvv"), "x").latest_version, "");
    assert!(!evaluate_release("1.4.0", &release("v1.4.0"), "x").has_update);
    assert!(evaluate_release("1.4.0", &release("V1.4.0"), "x").has_update);
}
