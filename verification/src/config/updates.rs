//! Software update configuration.

use crate::config::frequency::{days, Frequency};
use vstd::prelude::*;

verus! {

/// Software update configuration.
#[derive(Clone, Copy, Debug, PartialEq, Eq, Structural)]
pub struct Updates {
    /// How often to check for updates
    pub check_frequency: Frequency,
}

impl Default for Updates {
    /// A daily check.
    fn default() -> (r: Updates)
        ensures
            r.check_frequency == days(1),
    {
        Updates { check_frequency: Frequency::from_days(1) }
    }
}

} // verus!
