//! Which pane of which window has the focus, and the history of focused
//! panes of the main window.
//!
//! Windows and panes are named by integer ids; the pane grid that lays the
//! panes out belongs to the user interface.

pub mod pane;
pub mod sidebar;

use vstd::prelude::*;

verus! {

/// How many recently focused panes of the main window are remembered.
pub const FOCUS_HISTORY_CAP: usize = 8;

/// A pane of a window.
#[derive(Debug, Clone, Copy, PartialEq, Eq, Structural)]
pub struct Focus {
    pub window: u64,
    pub pane: u64,
}

/// Where the focus goes when a window gains it.
#[derive(Debug, Clone, Copy, PartialEq, Eq, Structural)]
pub enum FocusTarget {
    /// The window already holds the focus.
    Unchanged,
    /// Focus this pane of the window.
    Pane(u64),
    /// Focus the first pane of the window, if it has any.
    FirstPane,
}

/// The history after `pane` is focused in the main window: the pane in
/// front, then the older entries, at most [`FOCUS_HISTORY_CAP`] in all.
pub open spec fn history_after_focus(history: Seq<u64>, pane: u64) -> Seq<u64> {
    let h = seq![pane] + history;
    if h.len() > FOCUS_HISTORY_CAP {
        h.take(FOCUS_HISTORY_CAP as int)
    } else {
        h
    }
}

/// Keeps every pane but `pane`.
pub open spec fn other_than(pane: u64) -> spec_fn(u64) -> bool {
    |p: u64| p != pane
}

/// The focus of the dashboard and the history of focused main-window panes,
/// most recent first.
pub struct FocusState {
    main_window: u64,
    focus: Focus,
    history: Vec<u64>,
}

impl FocusState {
    pub closed spec fn main_window_spec(&self) -> u64 {
        self.main_window
    }

    pub closed spec fn focus_spec(&self) -> Focus {
        self.focus
    }

    pub closed spec fn history_spec(&self) -> Seq<u64> {
        self.history@
    }

    /// The history never holds more than [`FOCUS_HISTORY_CAP`] panes.
    #[verifier::type_invariant]
    spec fn inv(self) -> bool {
        self.history@.len() <= FOCUS_HISTORY_CAP
    }

    /// The history holds at most [`FOCUS_HISTORY_CAP`] panes.
    pub open spec fn wf(&self) -> bool {
        self.history_spec().len() <= FOCUS_HISTORY_CAP
    }

    /// A dashboard whose main window shows `pane` focused, with no history.
    pub fn new(main_window: u64, pane: u64) -> (s: Self)
        ensures
            s.wf(),
            s.main_window_spec() == main_window,
            s.focus_spec() == (Focus { window: main_window, pane }),
            s.history_spec() == Seq::<u64>::empty(),
    {
        FocusState {
            main_window,
            focus: Focus { window: main_window, pane },
            history: Vec::new(),
        }
    }

    /// The main window.
    pub fn main_window(&self) -> (w: u64)
        ensures
            w == self.main_window_spec(),
    {
        self.main_window
    }

    /// The focused pane.
    pub fn focus(&self) -> (f: Focus)
        ensures
            f == self.focus_spec(),
    {
        self.focus
    }

    /// The most recently focused pane of the main window, if any.
    pub fn last_focused(&self) -> (p: Option<u64>)
        ensures
            self.history_spec().len() == 0 ==> p is None,
            self.history_spec().len() > 0 ==> p == Some(self.history_spec()[0]),
    {
        if self.history.len() == 0 {
            None
        } else {
            Some(self.history[0])
        }
    }

    /// Whether `pane` of `window` has the focus.
    pub fn is_focused(&self, window: u64, pane: u64) -> (b: bool)
        ensures
            b == (self.focus_spec() == Focus { window, pane }),
    {
        self.focus.window == window && self.focus.pane == pane
    }

    /// Gives the focus to `pane` of `window`, and remembers the pane when
    /// the window is the main window. Returns whether the focus moved;
    /// focusing the focused pane changes nothing.
    pub fn focus_pane(&mut self, window: u64, pane: u64) -> (moved: bool)
        ensures
            final(self).wf(),
            final(self).main_window_spec() == old(self).main_window_spec(),
            moved == (old(self).focus_spec() != Focus { window, pane }),
            final(self).focus_spec() == (Focus { window, pane }),
            !moved ==> final(self).history_spec() == old(self).history_spec(),
            moved && window == old(self).main_window_spec() ==> final(self).history_spec()
                == history_after_focus(old(self).history_spec(), pane),
            moved && window != old(self).main_window_spec() ==> final(self).history_spec()
                == old(self).history_spec(),
    {
        proof {
            use_type_invariant(&*self);
        }
        if self.is_focused(window, pane) {
            return false;
        }
        self.focus = Focus { window, pane };
        if window == self.main_window {
            let mut history: Vec<u64> = Vec::new();
            std::mem::swap(&mut history, &mut self.history);
            let ghost old_history = history@;
            history.insert(0, pane);
            assert(history@ == seq![pane] + old_history);
            history.truncate(FOCUS_HISTORY_CAP);
            self.history = history;
        }
        true
    }

    /// Forgets `pane` in the history, keeping the order of the other panes.
    pub fn forget_pane(&mut self, pane: u64)
        ensures
            final(self).wf(),
            final(self).main_window_spec() == old(self).main_window_spec(),
            final(self).focus_spec() == old(self).focus_spec(),
            final(self).history_spec() == old(self).history_spec().filter(other_than(pane)),
    {
        proof {
            use_type_invariant(&*self);
        }
        let ghost old_history = self.history@;
        let ghost keep = other_than(pane);
        let mut kept: Vec<u64> = Vec::new();
        let mut i: usize = 0;
        while i < self.history.len()
            invariant
                self.history@ == old_history,
                keep == other_than(pane),
                i <= old_history.len(),
                kept@ == old_history.take(i as int).filter(keep),
            decreases old_history.len() - i,
        {
            let p = self.history[i];
            proof {
                old_history.take(i as int).lemma_filter_push(p, keep);
                assert(old_history.take(i + 1) == old_history.take(i as int).push(p));
            }
            assert(keep(p) == (p != pane));
            if p != pane {
                kept.push(p);
            }
            assert(kept@ == old_history.take(i + 1).filter(keep));
            i = i + 1;
        }
        assert(old_history.take(old_history.len() as int) == old_history);
        proof {
            old_history.lemma_filter_len(keep);
        }
        self.history = kept;
    }

    /// Where the focus goes when `window` gains it: nowhere new when it has
    /// it already; for the main window, to its most recently focused pane
    /// when there is one; otherwise to the window's first pane.
    pub fn focus_window_target(&self, window: u64) -> (t: FocusTarget)
        ensures
            self.focus_spec().window == window ==> t == FocusTarget::Unchanged,
            self.focus_spec().window != window && window == self.main_window_spec()
                && self.history_spec().len() > 0 ==> t == FocusTarget::Pane(self.history_spec()[0]),
            self.focus_spec().window != window && (window != self.main_window_spec()
                || self.history_spec().len() == 0) ==> t == FocusTarget::FirstPane,
    {
        if self.focus.window == window {
            FocusTarget::Unchanged
        } else if window == self.main_window && self.history.len() > 0 {
            FocusTarget::Pane(self.history[0])
        } else {
            FocusTarget::FirstPane
        }
    }
}

impl FocusState {
    /// The pane that a new pane is split from: the focused pane when the
    /// main window has the focus, else the last pane of the main window;
    /// `None` when the main window has no pane.
    pub fn pane_to_split(&self, last_main_pane: Option<u64>) -> (p: Option<u64>)
        ensures
            self.focus_spec().window == self.main_window_spec() ==> p == Some(
                self.focus_spec().pane,
            ),
            self.focus_spec().window != self.main_window_spec() ==> p == last_main_pane,
    {
        if self.focus.window == self.main_window {
            Some(self.focus.pane)
        } else {
            last_main_pane
        }
    }
}

/// The focused pane was closed: the pane that takes the focus is the
/// sibling that took its place, and only when the closed pane had it.
pub fn focus_after_close(state: &FocusState, window: u64, closed: u64, sibling: u64) -> (p: Option<u64>)
    ensures
        state.focus_spec() == (Focus { window, pane: closed }) ==> p == Some(sibling),
        state.focus_spec() != (Focus { window, pane: closed }) ==> p is None,
{
    if state.is_focused(window, closed) {
        Some(sibling)
    } else {
        None
    }
}

/// The history stays within its cap whatever panes are focused, and a
/// focused main-window pane stands first in it.
pub proof fn lemma_history_after_focus(history: Seq<u64>, pane: u64)
    requires
        history.len() <= FOCUS_HISTORY_CAP,
    ensures
        history_after_focus(history, pane).len() <= FOCUS_HISTORY_CAP,
        history_after_focus(history, pane)[0] == pane,
        forall|i: int|
            0 <= i < history_after_focus(history, pane).len() - 1 ==> history_after_focus(
                history,
                pane,
            )[i + 1] == history[i],
{
}

/// The first pane showing an empty buffer, among panes given as ids with
/// their buffers in layout order.
pub open spec fn first_empty_pane(panes: Seq<(u64, crate::buffer::Buffer)>) -> Option<u64>
    decreases panes.len(),
{
    if panes.len() == 0 {
        None
    } else if panes[0].1 == crate::buffer::Buffer::Empty {
        Some(panes[0].0)
    } else {
        first_empty_pane(panes.drop_first())
    }
}

/// The pane chosen to fill shows an empty buffer and comes before every
/// other such pane; there is none exactly when no pane is empty.
pub proof fn lemma_first_empty_pane(panes: Seq<(u64, crate::buffer::Buffer)>)
    ensures
        first_empty_pane(panes) is None <==> forall|i: int|
            0 <= i < panes.len() ==> (#[trigger] panes[i]).1 != crate::buffer::Buffer::Empty,
        first_empty_pane(panes) matches Some(p) ==> exists|i: int|
            0 <= i < panes.len() && (#[trigger] panes[i]).0 == p && panes[i].1 == crate::buffer::Buffer::Empty
                && forall|k: int| 0 <= k < i ==> (#[trigger] panes[k]).1 != crate::buffer::Buffer::Empty,
    decreases panes.len(),
{
    if panes.len() > 0 {
        let rest = panes.drop_first();
        lemma_first_empty_pane(rest);
        assert(forall|i: int| 0 <= i < rest.len() ==> rest[i] == panes[i + 1]);
        if panes[0].1 == crate::buffer::Buffer::Empty {
            assert(panes[0].0 == panes[0].0);
        } else {
            if first_empty_pane(rest) is None {
                assert forall|i: int| 0 <= i < panes.len() implies (#[trigger] panes[i]).1
                    != crate::buffer::Buffer::Empty by {
                    if i > 0 {
                        assert(panes[i] == rest[i - 1]);
                    }
                }
            } else {
                let p = first_empty_pane(rest).unwrap();
                let i = choose|i: int|
                    0 <= i < rest.len() && (#[trigger] rest[i]).0 == p && rest[i].1
                        == crate::buffer::Buffer::Empty && forall|k: int|
                        0 <= k < i ==> (#[trigger] rest[k]).1 != crate::buffer::Buffer::Empty;
                assert(panes[i + 1] == rest[i]);
                assert forall|k: int| 0 <= k < i + 1 implies (#[trigger] panes[k]).1
                    != crate::buffer::Buffer::Empty by {
                    if k > 0 {
                        assert(panes[k] == rest[k - 1]);
                    }
                }
                assert(!(forall|j: int| 0 <= j < panes.len() ==> (#[trigger] panes[j]).1
                    != crate::buffer::Buffer::Empty)) by {
                    assert(panes[i + 1].1 == crate::buffer::Buffer::Empty);
                }
            }
        }
    }
}

/// Where a buffer opened in a new pane goes when the dashboard has a single
/// pane in all: into the first empty pane of the main window, if there is
/// one; otherwise (`None`) a pane is split for it.
pub fn pane_to_fill(total_panes: usize, main_panes: &Vec<(u64, crate::buffer::Buffer)>) -> (p: Option<u64>)
    ensures
        total_panes != 1 ==> p is None,
        total_panes == 1 ==> p == first_empty_pane(main_panes@),
{
    if total_panes != 1 {
        return None;
    }
    let mut i: usize = 0;
    assert(main_panes@.subrange(0, main_panes@.len() as int) == main_panes@);
    while i < main_panes.len()
        invariant
            total_panes == 1,
            i <= main_panes@.len(),
            first_empty_pane(main_panes@) == first_empty_pane(main_panes@.subrange(i as int, main_panes@.len() as int)),
        decreases main_panes.len() - i,
    {
        let ghost rest = main_panes@.subrange(i as int, main_panes@.len() as int);
        assert(rest.drop_first() == main_panes@.subrange(i + 1, main_panes@.len() as int));
        if main_panes[i].1 == crate::buffer::Buffer::Empty {
            return Some(main_panes[i].0);
        }
        i = i + 1;
    }
    None
}

} // verus!
