//! Version comparison and the decisions around the update check.
//!
//! Reading and writing the version file, the network fetch and the clock stay
//! with the host; these functions take what was read and the current time.

use vstd::prelude::*;
use crate::text::{after_sep, before_sep, chars_of, copy_range, parse_u64_chars, parses_u64, split_once, str_eq, trim, trim_bounds};

verus! {

/// How long a cached latest version stays fresh, in seconds (20 hours).
pub const REFRESH_INTERVAL_SECS: i64 = 72000;

/// The `major.minor.patch` numbers of a version string: surrounding whitespace
/// and any suffix after the first `-` are ignored, and so is anything after a
/// third `.`.
pub open spec fn version_of(v: Seq<char>) -> Option<(u64, u64, u64)> {
    let core = before_sep(trim(v), '-');
    match (parses_u64(before_sep(core, '.')), after_sep(core, '.')) {
        (Some(major), Some(r1)) => match (parses_u64(before_sep(r1, '.')), after_sep(r1, '.')) {
            (Some(minor), Some(r2)) => match parses_u64(before_sep(r2, '.')) {
                Some(patch) => Some((major, minor, patch)),
                None => None,
            },
            _ => None,
        },
        _ => None,
    }
}

/// Lexicographic order on version triples.
pub open spec fn version_gt(l: (u64, u64, u64), c: (u64, u64, u64)) -> bool {
    l.0 > c.0 || (l.0 == c.0 && (l.1 > c.1 || (l.1 == c.1 && l.2 > c.2)))
}

/// Parses a version string such as `0.93.0-cometix` into `(0, 93, 0)`.
pub fn parse_version(v: &str) -> (r: Option<(u64, u64, u64)>)
    ensures
        r == version_of(v@),
{
    let all = chars_of(v);
    let (lo, hi) = trim_bounds(&all, 0, all.len());
    assert(all@.subrange(0, all@.len() as int) =~= all@);
    let t = copy_range(&all, lo, hi);
    let (core, _suffix) = split_once(&t, '-');
    let (a, r1) = split_once(&core, '.');
    let major = match parse_u64_chars(&a) {
        Some(x) => x,
        None => return None,
    };
    let r1 = match r1 {
        Some(r) => r,
        None => return None,
    };
    let (b, r2) = split_once(&r1, '.');
    let minor = match parse_u64_chars(&b) {
        Some(x) => x,
        None => return None,
    };
    let r2 = match r2 {
        Some(r) => r,
        None => return None,
    };
    let (c, _rest) = split_once(&r2, '.');
    let patch = match parse_u64_chars(&c) {
        Some(x) => x,
        None => return None,
    };
    Some((major, minor, patch))
}

/// Whether `latest` is a newer version than `current`; `None` if either does not parse.
pub fn is_newer(latest: &str, current: &str) -> (r: Option<bool>)
    ensures
        r == match (version_of(latest@), version_of(current@)) {
            (Some(l), Some(c)) => Some(version_gt(l, c)),
            _ => None,
        },
{
    match (parse_version(latest), parse_version(current)) {
        (Some(l), Some(c)) => Some(l.0 > c.0 || (l.0 == c.0 && (l.1 > c.1 || (l.1 == c.1 && l.2 > c.2)))),
        _ => None,
    }
}

/// What the version file records.
pub struct VersionInfo {
    pub latest_version: String,
    /// When the latest version was fetched, in seconds since the Unix epoch.
    pub last_checked_at: i64,
    pub dismissed_version: Option<String>,
}

/// Whether the cached latest version should be fetched again: there is none,
/// or it was checked more than the refresh interval before `now_secs`.
pub fn needs_refresh(info: Option<&VersionInfo>, now_secs: i64) -> (r: bool)
    ensures
        r == match info {
            Some(i) => i.last_checked_at < now_secs - REFRESH_INTERVAL_SECS,
            None => true,
        },
{
    match info {
        Some(i) => (i.last_checked_at as i128) < (now_secs as i128) - (REFRESH_INTERVAL_SECS as i128),
        None => true,
    }
}

/// The version to advertise: the cached latest version, if it is newer than `current`.
pub fn upgrade_version(info: Option<VersionInfo>, current: &str) -> (r: Option<String>)
    ensures
        match info {
            Some(i) => if version_of(i.latest_version@) matches Some(l) && version_of(current@) matches Some(c)
                && version_gt(l, c) {
                r == Some(i.latest_version)
            } else {
                r is None
            },
            None => r is None,
        },
{
    match info {
        Some(i) => match is_newer(i.latest_version.as_str(), current) {
            Some(true) => Some(i.latest_version),
            _ => None,
        },
        None => None,
    }
}

/// The version to show in the update popup: `latest`, unless the user
/// dismissed exactly that version.
pub fn popup_version(latest: String, info: Option<&VersionInfo>) -> (r: Option<String>)
    ensures
        match info {
            Some(i) => if i.dismissed_version matches Some(d) && d@ == latest@ {
                r is None
            } else {
                r == Some(latest)
            },
            None => r == Some(latest),
        },
{
    match info {
        Some(i) => match &i.dismissed_version {
            Some(d) => if str_eq(d.as_str(), latest.as_str()) {
                None
            } else {
                Some(latest)
            },
            None => Some(latest),
        },
        None => Some(latest),
    }
}

} // verus!
