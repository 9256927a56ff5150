//! The main window as the application tracks it.
//!
//! The window's geometry is carried as it comes from the windowing system;
//! the application only records it once, when the window opens.

use vstd::prelude::*;

verus! {

/// Whether the window has reported its geometry yet.
#[derive(Debug, Clone, Copy)]
pub enum WindowState<G> {
    Uninitialized,
    Initialized(G),
}

/// A window, named by an integer id.
#[derive(Debug, Clone, Copy)]
pub struct Window<G> {
    pub id: u64,
    pub focused: bool,
    pub state: WindowState<G>,
}

/// What happened to a window.
#[derive(Debug, Clone, Copy)]
pub enum WindowEvent<G> {
    Unfocused,
    Focused,
    /// The window opened with this geometry.
    Opened(G),
    /// The user asked to close the window.
    CloseRequested,
    /// Anything else.
    Other,
}

/// What the application does after a window event.
#[derive(Debug, Clone, Copy, PartialEq, Eq, Structural)]
pub enum WindowAction {
    Nothing,
    /// Shut the application down.
    Exit,
}

impl<G> Window<G> {
    /// A window that is not focused and has no geometry yet.
    pub fn new(id: u64) -> (w: Self)
        ensures
            w.id == id,
            !w.focused,
            w.state is Uninitialized,
    {
        Window { id, focused: false, state: WindowState::Uninitialized }
    }

    /// Records the geometry of a window that has none yet.
    pub fn initialize(&mut self, geometry: G)
        requires
            old(self).state is Uninitialized,
        ensures
            final(self).id == old(self).id,
            final(self).focused == old(self).focused,
            final(self).state == WindowState::Initialized(geometry),
    {
        self.state = WindowState::Initialized(geometry);
    }

    /// Applies an event of window `id`: events of other windows change
    /// nothing; focus events set the focus flag, opening records the
    /// geometry, and a close request shuts the application down.
    pub fn handle_event(&mut self, id: u64, event: WindowEvent<G>) -> (action: WindowAction)
        requires
            id == old(self).id && event is Opened ==> old(self).state is Uninitialized,
        ensures
            final(self).id == old(self).id,
            id != old(self).id ==> *final(self) == *old(self) && action == WindowAction::Nothing,
            id == old(self).id ==> match event {
                WindowEvent::Unfocused => !final(self).focused
                    && final(self).state == old(self).state
                    && action == WindowAction::Nothing,
                WindowEvent::Focused => final(self).focused
                    && final(self).state == old(self).state
                    && action == WindowAction::Nothing,
                WindowEvent::Opened(g) => final(self).focused == old(self).focused
                    && final(self).state == WindowState::Initialized(g)
                    && action == WindowAction::Nothing,
                WindowEvent::CloseRequested => *final(self) == *old(self)
                    && action == WindowAction::Exit,
                WindowEvent::Other => *final(self) == *old(self)
                    && action == WindowAction::Nothing,
            },
    {
        if id != self.id {
            return WindowAction::Nothing;
        }
        match event {
            WindowEvent::Unfocused => {
                self.focused = false;
                WindowAction::Nothing
            },
            WindowEvent::Focused => {
                self.focused = true;
                WindowAction::Nothing
            },
            WindowEvent::Opened(g) => {
                self.initialize(g);
                WindowAction::Nothing
            },
            WindowEvent::CloseRequested => WindowAction::Exit,
            WindowEvent::Other => WindowAction::Nothing,
        }
    }
}

} // verus!
