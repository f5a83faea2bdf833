//! Core configuration.

use vstd::prelude::*;

verus! {

/// Core configuration.
#[derive(Clone, Copy, Debug, PartialEq, Eq, Structural)]
pub struct Core {
    /// Configuration schema version
    pub version: u32,
}

impl Default for Core {
    /// Schema version 0.
    fn default() -> (r: Core)
        ensures
            r.version == 0,
    {
        Core { version: 0 }
    }
}

} // verus!
