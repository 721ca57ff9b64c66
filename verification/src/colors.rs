//! The colour markup that the lines carry.

use vstd::prelude::*;

verus! {

/// The table of colour codes. The lines only interpolate its entries; what
/// they hold is the caller's choice, and all of them may be empty.
#[derive(Clone, Debug, PartialEq, Eq)]
pub struct Colors {
    /// Ends a coloured stretch.
    pub reset: String,
    /// Colours a percentage.
    pub cyan: String,
    /// Colours the host name.
    pub green: String,
    /// Colours the user name.
    pub yellow: String,
    /// Colours the `@` between user and host.
    pub red: String,
}

} // verus!
