//! The typed failures the engine surfaces.

use vstd::prelude::*;

verus! {

/// A manifest entry matched no known source shape.
#[derive(Debug)]
pub enum ClassifyError {
    Unrecognized,
}

/// Why a resolution run stopped. A failure for one dependency aborts the
/// remaining queue; nothing already materialized is rolled back.
#[derive(Debug)]
pub enum InstallError {
    /// A source could not be materialized: network, archive, git reference
    /// or filesystem trouble, with the host's report.
    Fetch { name: String, message: String },
    /// The materialized dependency's own manifest is missing or malformed,
    /// or declares no package section.
    Manifest { name: String },
}

} // verus!
