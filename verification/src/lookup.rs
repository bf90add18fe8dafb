//! Trusted seams to the outside crates that perform OS lookups and pure
//! text conversions. Every resolution decision is made by verified code in
//! [`crate::resolve`]; these functions only fetch the raw values.

use convert_case::{Case, Casing};
use vstd::prelude::*;

verus! {

/// What `convert_case` returns for a string converted to title case. The
/// conversion is a pure function of the characters alone.
pub uninterp spec fn title_case_of(s: Seq<char>) -> Seq<char>;

/// Relies on convert_case's `Casing::to_case` with `Case::Title`: a pure,
/// deterministic conversion of the input text; an empty input stays empty.
#[verifier::external_body]
pub(crate) fn title_case(s: &str) -> (r: String)
    ensures
        r@ == title_case_of(s@),
        s@.len() == 0 ==> r@.len() == 0,
{
    s.to_case(Case::Title)
}

/// Relies on dirs::home_dir: the user's home directory per the OS
/// convention, or `None` when it cannot be determined. The value depends on
/// the process environment, so nothing is promised of it.
#[verifier::external_body]
pub(crate) fn os_home_dir() -> Option<String> {
    dirs::home_dir().and_then(|p| p.to_str().map(|s| s.to_string()))
}

/// Relies on dirs::config_dir: the OS-provided base directory for user
/// configuration (XDG-style on Linux, Application Support on macOS, roaming
/// data on Windows), or `None`. Environment-dependent, so nothing is
/// promised of the value.
#[verifier::external_body]
pub(crate) fn os_config_dir() -> Option<String> {
    dirs::config_dir().and_then(|p| p.to_str().map(|s| s.to_string()))
}

/// Relies on dirs::data_dir: the OS-provided base directory for user data,
/// or `None`. Environment-dependent, so nothing is promised of the value.
#[verifier::external_body]
pub(crate) fn os_data_dir() -> Option<String> {
    dirs::data_dir().and_then(|p| p.to_str().map(|s| s.to_string()))
}

/// Relies on dirs::cache_dir: the OS-provided base directory for cached
/// data, or `None`. Environment-dependent, so nothing is promised of the
/// value.
#[verifier::external_body]
pub(crate) fn os_cache_dir() -> Option<String> {
    dirs::cache_dir().and_then(|p| p.to_str().map(|s| s.to_string()))
}

/// Relies on dirs::data_local_dir: the OS-provided base directory for local
/// (non-roaming) user data, or `None`. Environment-dependent, so nothing is
/// promised of the value.
#[verifier::external_body]
pub(crate) fn os_local_data_dir() -> Option<String> {
    dirs::data_local_dir().and_then(|p| p.to_str().map(|s| s.to_string()))
}

/// Relies on dunce::canonicalize: the canonical, absolute form of the given
/// path, or `None` when the path cannot be resolved or is not UTF-8. The
/// result depends on the filesystem; of a resolved path only that it is
/// non-empty (it is absolute) is promised.
#[verifier::external_body]
pub(crate) fn canonicalize_path(p: &str) -> (r: Option<String>)
    ensures
        r matches Some(c) ==> c@.len() > 0,
{
    dunce::canonicalize(p).ok().and_then(|c| c.to_str().map(|s| s.to_string()))
}

/// Relies on chrono's `Local::now` and `DateTime::format`: the current local
/// time rendered as `%Y-%m-%d-%H%M`. The value depends on the clock and the
/// time zone, so nothing is promised of it.
#[verifier::external_body]
pub(crate) fn local_timestamp() -> String {
    chrono::Local::now().format("%Y-%m-%d-%H%M").to_string()
}

} // verus!
