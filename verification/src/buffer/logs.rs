//! The log pane.

use vstd::prelude::*;

verus! {

/// The log pane, named by the id of its scrollable area.
#[derive(Debug, Clone, Copy, PartialEq, Eq, Structural)]
pub struct Logs {
    pub scrollable: u64,
}

impl Logs {
    /// The log pane whose scrollable area has id `scrollable`.
    pub fn new(scrollable: u64) -> (l: Self)
        ensures
            l.scrollable == scrollable,
    {
        Logs { scrollable }
    }
}

} // verus!
