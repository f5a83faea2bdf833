//! Usage analytics configuration.

use crate::text::{chars_of, lit, same};
use vstd::prelude::*;

verus! {

/// Usage analytics configuration.
#[derive(Clone, Copy, Debug, PartialEq, Eq, Structural, Default)]
pub struct Analytics {
    /// Whether usage analytics are enabled
    pub enabled: Option<bool>,
}

/// The major version of this release: the first number of the package
/// version in Cargo.toml, kept in step with it.
pub const MAJOR_VERSION: &'static str = "0";

/// Whether analytics are enabled for this release: as configured, else
/// only on major version 0.
pub open spec fn is_enabled(a: Analytics) -> bool {
    match a.enabled {
        Some(b) => b,
        None => MAJOR_VERSION@ == "0"@,
    }
}

impl Analytics {
    /// Whether analytics are enabled for this release.
    pub fn enabled(&self) -> (r: bool)
        ensures
            r == is_enabled(*self),
    {
        self.enabled_for_major_version(MAJOR_VERSION)
    }

    /// Whether analytics are enabled for a major version: as configured,
    /// else only on major version 0.
    pub fn enabled_for_major_version(&self, major_version: &str) -> (r: bool)
        ensures
            r == match self.enabled {
                Some(b) => b,
                None => major_version@ == "0"@,
            },
    {
        match self.enabled {
            Some(b) => b,
            None => same(&chars_of(major_version), &lit("0")),
        }
    }
}

} // verus!
