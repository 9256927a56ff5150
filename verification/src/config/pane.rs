//! Pane settings of the configuration file.

use vstd::prelude::*;

use super::ScrollBar;

verus! {

/// The direction in which a pane is split to make room for a new one.
#[derive(Debug, Clone, Copy, PartialEq, Eq, Structural)]
pub enum SplitAxis {
    Horizontal,
    Vertical,
}

impl SplitAxis {
    /// Panes are split horizontally unless the configuration says otherwise.
    pub fn default() -> (a: Self)
        ensures
            a == SplitAxis::Horizontal,
    {
        SplitAxis::Horizontal
    }
}

/// The pane section of the configuration.
#[derive(Debug, Clone, Copy, PartialEq, Eq, Structural)]
pub struct Pane {
    pub split_axis: SplitAxis,
    pub scrollbar: ScrollBar,
}

impl Pane {
    pub fn default() -> (p: Self)
        ensures
            p.split_axis == SplitAxis::Horizontal,
            p.scrollbar == (ScrollBar { width: 5, scroller_width: 5 }),
    {
        Pane { split_axis: SplitAxis::default(), scrollbar: ScrollBar::default() }
    }
}

} // verus!
