//! The unit of resolution: a named, versioned request for external content.

use vstd::prelude::*;

verus! {

/// A named dependency together with the version requirement it was declared
/// with; registry dependencies carry their constraint, every other source
/// carries the unconstrained marker `*`.
pub struct Dependency {
    pub name: String,
    pub version: String,
}

impl Clone for Dependency {
    fn clone(&self) -> (res: Self)
        ensures
            res == *self,
    {
        Dependency { name: self.name.clone(), version: self.version.clone() }
    }
}

} // verus!
