//! Configuration errors: conditions knowable from settings alone, reported
//! before any simulation or drawing work begins.

use vstd::prelude::*;

verus! {

/// A rejected configuration.
#[derive(Clone, Copy, PartialEq, Eq, Structural, Debug)]
pub enum ConfigError {
    /// More objects were asked to be rendered than are simulated.
    RenderCountExceedsObjectCount,
    /// A simulation of zero objects was asked for.
    NoObjects,
    /// Shapes with fewer than three edges were asked for.
    EdgeCountBelowMinimum,
    /// The minimum edge count lies above the maximum.
    EdgeCountOrderInvalid,
}

impl ConfigError {
    /// A short description of the error.
    pub fn message(&self) -> (m: &'static str)
        ensures
            m@ == message_str(*self),
    {
        match self {
            ConfigError::RenderCountExceedsObjectCount => {
                "render count is greater than the object count"
            },
            ConfigError::NoObjects => "a simulation needs at least one object",
            ConfigError::EdgeCountBelowMinimum => "shapes need at least three edges",
            ConfigError::EdgeCountOrderInvalid => {
                "the minimum edge count is above the maximum"
            },
        }
    }
}

/// The description each error variant carries.
pub open spec fn message_str(e: ConfigError) -> Seq<char> {
    match e {
        ConfigError::RenderCountExceedsObjectCount => {
            "render count is greater than the object count"@
        },
        ConfigError::NoObjects => "a simulation needs at least one object"@,
        ConfigError::EdgeCountBelowMinimum => "shapes need at least three edges"@,
        ConfigError::EdgeCountOrderInvalid => "the minimum edge count is above the maximum"@,
    }
}

} // verus!
