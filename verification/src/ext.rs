//! Trusted wrappers around outside calls whose results depend on the
//! process environment: fresh ids, the clock, the user's config directory,
//! and whether a path exists on disk. Each body only makes the call and
//! converts the result to a plain value; nothing is promised that the
//! outside documentation does not give.

use vstd::prelude::*;

verus! {

/// Relies on uuid::Uuid::new_v4 and its Display form: a random version-4
/// UUID, printed in the hyphenated lowercase form of 36 characters. The
/// value is random; only the length is promised.
#[verifier::external_body]
pub(crate) fn fresh_uuid() -> (r: String)
    ensures
        r@.len() == 36,
{
    uuid::Uuid::new_v4().to_string()
}

/// Relies on chrono::Utc::now and DateTime::to_rfc3339: the current time
/// printed as RFC 3339. The value depends on the clock; nothing is promised.
#[verifier::external_body]
pub(crate) fn now_rfc3339() -> (r: String) {
    chrono::Utc::now().to_rfc3339()
}

/// Relies on dirs::config_dir: the user's configuration directory, if the
/// platform defines one. The value depends on the environment; nothing is
/// promised.
#[verifier::external_body]
pub(crate) fn config_dir_path() -> (r: Option<String>) {
    dirs::config_dir().map(|p| p.to_string_lossy().to_string())
}

/// Relies on std::path::Path::exists: whether anything exists at the path
/// right now. The value depends on the disk; nothing is promised.
#[verifier::external_body]
pub(crate) fn path_exists(p: &String) -> (r: bool) {
    std::path::Path::new(p.as_str()).exists()
}

} // verus!
