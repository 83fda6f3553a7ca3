//! The process-wide application directories.
//!
//! The engine itself takes its cache root as explicit configuration; these
//! lookups are how a process obtains the platform's conventional locations
//! to pass down.

use vstd::prelude::*;

verus! {

/// Relies on directories::ProjectDirs::from and ProjectDirs::data_dir:
/// the platform's application-data directory for this tool. The answer
/// depends on the machine and environment, so nothing is promised of it;
/// `None` when the platform offers no home directory.
#[verifier::external_body]
pub fn data_dir() -> Option<String> {
    let dirs = directories::ProjectDirs::from("org", "Erebor Studios", "Smaug")?;
    Some(dirs.data_dir().to_string_lossy().into_owned())
}

/// Relies on directories::ProjectDirs::from and ProjectDirs::cache_dir:
/// the platform's cache directory for this tool. The answer depends on
/// the machine and environment, so nothing is promised of it; `None` when
/// the platform offers no home directory.
#[verifier::external_body]
pub fn cache_dir() -> Option<String> {
    let dirs = directories::ProjectDirs::from("org", "Erebor Studios", "Smaug")?;
    Some(dirs.cache_dir().to_string_lossy().into_owned())
}

} // verus!
