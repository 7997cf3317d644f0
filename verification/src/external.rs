//! Trusted wrappers around the outside crates the core leans on.
//!
//! Each wrapper makes exactly one outside call. Their results depend on the
//! clock or on the execution environment, so nothing is assumed of the
//! values; callers state what holds whatever comes back.

use vstd::prelude::*;

verus! {

/// Relies on `chrono::Utc::now` and `DateTime::to_rfc3339`: the current
/// wall-clock time rendered as an RFC 3339 timestamp. The value depends on
/// the clock, so nothing is assumed of it.
#[verifier::external_body]
pub(crate) fn now_rfc3339() -> String {
    chrono::Utc::now().to_rfc3339()
}

/// Relies on `dirs::home_dir`: the user's home directory, if the platform
/// reports one and its path is valid Unicode. The value depends on the
/// environment, so nothing is assumed of it.
#[verifier::external_body]
pub(crate) fn home_dir_string() -> Option<String> {
    dirs::home_dir().and_then(|p| p.to_str().map(|s| s.to_string()))
}

} // verus!
