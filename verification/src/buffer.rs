//! What a pane shows.

pub mod direct_chat;
pub mod logs;

use vstd::prelude::*;

pub use direct_chat::DirectChat;
pub use logs::Logs;

verus! {

/// The content of a pane.
#[derive(Debug, Clone, Copy, PartialEq, Eq, Structural)]
pub enum Buffer {
    Empty,
    Logs(Logs),
    DirectChat(DirectChat),
}

/// Where a buffer that is opened goes.
#[derive(Debug, Clone, Copy, PartialEq, Eq, Structural)]
pub enum BufferAction {
    /// In place of the focused pane's buffer.
    Replace,
    /// In a new pane of the main window.
    NewPane,
    /// In a new window.
    NewWindow,
}

/// The title of a buffer's pane.
pub open spec fn buffer_title(buffer: Buffer) -> Seq<char> {
    match buffer {
        Buffer::Empty => "Empty buffer"@,
        Buffer::Logs(_) => "Logs"@,
        Buffer::DirectChat(_) => "Direct chat"@,
    }
}

impl Buffer {
    /// The title of the buffer's pane.
    pub fn title(&self) -> (t: &'static str)
        ensures
            t@ == buffer_title(*self),
    {
        match self {
            Buffer::Empty => "Empty buffer",
            Buffer::Logs(_) => "Logs",
            Buffer::DirectChat(_) => "Direct chat",
        }
    }

    /// Whether the pane of this buffer offers a close button, among `panes`
    /// panes: every pane but a lone empty one does.
    pub fn shows_close_button(&self, panes: usize) -> (b: bool)
        ensures
            b == !(panes == 1 && *self == Buffer::Empty),
    {
        !(panes == 1 && matches!(self, Buffer::Empty))
    }
}

} // verus!
