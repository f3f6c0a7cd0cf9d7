use codex_translate::updates::{is_newer, needs_refresh, parse_version, popup_version, upgrade_version, VersionInfo};

#[test]
fn plain_semver_comparisons_work() {
    assert_eq!(is_newer("0.11.1", "0.11.0"), Some(true));
    assert_eq!(is_newer("0.11.0", "0.11.1"), Some(false));
    assert_eq!(is_newer("1.0.0", "0.9.9"), Some(true));
    assert_eq!(is_newer("0.9.9", "1.0.0"), Some(false));
}

#[test]
fn cometix_suffix_is_stripped_for_comparison() {
    assert_eq!(is_newer("0.93.0-cometix", "0.92.0"), Some(true));
    assert_eq!(is_newer("0.93.0", "0.92.0-cometix"), Some(true));
    assert_eq!(is_newer("0.93.0-cometix", "0.93.0"), Some(false));
}

#[test]
fn whitespace_is_ignored() {
    assert_eq!(parse_version(" 1.2.3 \n"), Some((1, 2, 3)));
    assert_eq!(is_newer(" 1.2.3 ", "1.2.2"), Some(true));
}

#[test]
fn prerelease_versions_compare_by_base() {
    // -cometix is stripped, so these compare equal
    assert_eq!(is_newer("0.93.0-cometix", "0.93.0-cometix"), Some(false));
    assert_eq!(parse_version("0.93.0-cometix"), Some((0, 93, 0)));
}

#[test]
fn malformed_versions() {
    assert_eq!(parse_version("1.2"), None);
    assert_eq!(parse_version("a.b.c"), None);
    assert_eq!(parse_version("1.2.3.4"), Some((1, 2, 3)));
    assert_eq!(parse_version(""), None);
    assert_eq!(is_newer("x", "1.0.0"), None);
}

fn info(latest: &str, checked: i64, dismissed: Option<&str>) -> VersionInfo {
    VersionInfo {
        latest_version: latest.to_string(),
        last_checked_at: checked,
        dismissed_version: dismissed.map(|d| d.to_string()),
    }
}

#[test]
fn refresh_and_popup_decisions() {
    assert!(needs_refresh(None, 0));
    assert!(!needs_refresh(Some(&info("1.0.0", 1000, None)), 1000 + 72000));
    assert!(needs_refresh(Some(&info("1.0.0", 1000, None)), 1001 + 72000));
    assert_eq!(upgrade_version(Some(info("1.1.0", 0, None)), "1.0.0"), Some("1.1.0".to_string()));
    assert_eq!(upgrade_version(Some(info("1.0.0", 0, None)), "1.0.0"), None);
    assert_eq!(upgrade_version(None, "1.0.0"), None);
    assert_eq!(popup_version("1.1.0".to_string(), Some(&info("1.1.0", 0, Some("1.1.0")))), None);
    assert_eq!(popup_version("1.1.0".to_string(), Some(&info("1.1.0", 0, Some("1.0.9")))), Some("1.1.0".to_string()));
    assert_eq!(popup_version("1.1.0".to_string(), None), Some("1.1.0".to_string()));
}
