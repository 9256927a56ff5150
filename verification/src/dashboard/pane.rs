//! A pane of the dashboard.

use vstd::prelude::*;

use crate::buffer::Buffer;

verus! {

/// A pane: the buffer it shows.
#[derive(Debug, Clone, Copy, PartialEq, Eq, Structural)]
pub struct Pane {
    pub buffer: Buffer,
}

impl Pane {
    pub fn new(buffer: Buffer) -> (p: Self)
        ensures
            p.buffer == buffer,
    {
        Pane { buffer }
    }
}

} // verus!
