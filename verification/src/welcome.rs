//! The welcome screen, shown until a configuration file exists.

use vstd::prelude::*;

verus! {

/// The welcome screen.
#[derive(Debug, Clone, Copy, PartialEq, Eq, Structural)]
pub struct Welcome {}

/// What the user did on the welcome screen.
#[derive(Debug, Clone, Copy, PartialEq, Eq, Structural)]
pub enum Message {
    /// Open the configuration directory in the file manager.
    OpenConfigDirectory,
}

impl Welcome {
    pub fn new() -> (w: Self)
        ensures
            w == (Welcome {}),
    {
        Welcome {}
    }

    /// The screen asks nothing of the application and keeps no state;
    /// opening the directory is done where the message is handled.
    pub fn update(&mut self, message: Message)
        ensures
            *final(self) == *old(self),
    {
        match message {
            Message::OpenConfigDirectory => {},
        }
    }
}

} // verus!
