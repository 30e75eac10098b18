//! Decisions of the attach-time asset refresh: whether a packaged asset is
//! newer than its on-disk copy, judged by the patch-date artifact shipped
//! beside the assets.

use vstd::prelude::*;
use crate::errors::{BootstrapError, EnvArtifact};
use crate::strutil::str_eq;

verus! {

/// The timestamp, in whole seconds, that a text parses to under the standard
/// date format. Relied on through `parse_rfc3339_secs`.
pub uninterp spec fn rfc3339_secs(s: Seq<char>) -> Option<i64>;

/// Relies on chrono's `DateTime::parse_from_rfc3339`: parsing is a pure
/// function of the input text, and `timestamp` is the parsed instant in whole
/// seconds.
#[verifier::external_body]
fn parse_rfc3339_secs(s: &str) -> (r: Option<i64>)
    ensures
        r == rfc3339_secs(s@),
{
    match chrono::DateTime::parse_from_rfc3339(s) {
        Ok(d) => Some(d.timestamp()),
        Err(_) => None,
    }
}

/// Whether an asset name is the patch-date artifact.
pub fn is_date_asset(name: &str) -> (r: bool)
    ensures
        r == (name@ == "lemon_patch_date.txt"@),
{
    str_eq(name, "lemon_patch_date.txt")
}

/// What the package's modification date resolves to: the parsed artifact,
/// the far future where no artifact is packaged (so every asset counts as
/// newer and is copied), or the fatal environment error for an artifact that
/// does not parse.
pub open spec fn spec_apk_mod_secs(contents: Option<Seq<char>>) -> Result<i64, BootstrapError> {
    match contents {
        None => Ok(i64::MAX),
        Some(s) => match rfc3339_secs(s) {
            Some(t) => Ok(t),
            None => Err(BootstrapError::Environment(EnvArtifact::PatchDate)),
        },
    }
}

/// Resolves the package's modification date from the patch-date artifact's
/// contents, where the caller found one.
pub fn apk_mod_secs(contents: Option<&str>) -> (r: Result<i64, BootstrapError>)
    ensures
        r == spec_apk_mod_secs(match contents {
            Some(s) => Some(s@),
            None => None,
        }),
{
    match contents {
        None => Ok(i64::MAX),
        Some(s) => match parse_rfc3339_secs(s) {
            Some(t) => Ok(t),
            None => Err(BootstrapError::Environment(EnvArtifact::PatchDate)),
        },
    }
}

/// Whether the on-disk copy may be kept: only a file that exists and is
/// strictly newer than the package's modification date is skipped; a missing
/// file, or a package date in the past of the epoch, always forces the copy.
pub open spec fn spec_skip_copy(file_mtime_secs: Option<u64>, apk_secs: i64) -> bool {
    match file_mtime_secs {
        None => false,
        Some(m) => apk_secs >= 0 && m > apk_secs as u64,
    }
}

/// Decides whether one asset's on-disk copy is current enough to keep.
pub fn should_skip_copy(file_mtime_secs: Option<u64>, apk_secs: i64) -> (r: bool)
    ensures
        r == spec_skip_copy(file_mtime_secs, apk_secs),
{
    match file_mtime_secs {
        None => false,
        Some(m) => apk_secs >= 0 && m > (apk_secs as u64),
    }
}

} // verus!
