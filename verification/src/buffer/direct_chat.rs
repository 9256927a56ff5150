//! A conversation with one node.

use vstd::prelude::*;

verus! {

/// A conversation with one node; it shows nothing yet.
#[derive(Debug, Clone, Copy, PartialEq, Eq, Structural)]
pub struct DirectChat {}

impl DirectChat {
    pub fn new() -> (c: Self)
        ensures
            c == (DirectChat {}),
    {
        DirectChat {}
    }
}

} // verus!
