//! The network screen.

use vstd::prelude::*;

verus! {

/// The network screen; it shows nothing yet.
#[derive(Debug, Clone, Copy, PartialEq, Eq, Structural)]
pub struct Network {}

impl Network {
    pub fn new() -> (n: Self)
        ensures
            n == (Network {}),
    {
        Network {}
    }
}

} // verus!
