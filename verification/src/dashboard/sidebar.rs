//! The dashboard's sidebar and its menu.

use vstd::prelude::*;

use crate::config::{self, Config};

verus! {

/// The sidebar.
#[derive(Debug, Clone, Copy, PartialEq, Eq, Structural)]
pub struct Sidebar {}

/// What the user did in the sidebar, or what a task reported back to it.
#[derive(Debug)]
pub enum Message {
    OpenConfigFile,
    ReloadConfig,
    ConfigReloaded(Result<Config, config::Error>),
}

/// What the sidebar asks of the dashboard.
#[derive(Debug)]
pub enum Event {
    OpenConfigFile,
    ConfigReloaded(Result<Config, config::Error>),
}

/// Work that the sidebar starts.
#[derive(Debug, Clone, Copy, PartialEq, Eq, Structural)]
pub enum Command {
    Nothing,
    /// Load the configuration file; its result comes back as
    /// [`Message::ConfigReloaded`].
    LoadConfig,
}

/// The entries of the sidebar's menu.
#[derive(Debug, Clone, Copy, PartialEq, Eq, Structural)]
pub enum Menu {
    Version,
    OpenConfigFile,
    ReloadConfigFile,
}

impl Menu {
    /// The menu, top to bottom.
    pub fn list() -> (l: Vec<Self>)
        ensures
            l@ == seq![Menu::Version, Menu::OpenConfigFile, Menu::ReloadConfigFile],
    {
        let mut l = Vec::new();
        l.push(Menu::Version);
        l.push(Menu::OpenConfigFile);
        l.push(Menu::ReloadConfigFile);
        l
    }
}

impl Sidebar {
    pub fn new() -> (s: Self)
        ensures
            s == (Sidebar {}),
    {
        Sidebar {}
    }

    /// Opening the configuration file and a reloaded configuration are
    /// passed on to the dashboard; reloading starts loading the file.
    pub fn update(&self, message: Message) -> (r: (Command, Option<Event>))
        ensures
            message is OpenConfigFile ==> r.0 == Command::Nothing && r.1 matches Some(Event::OpenConfigFile),
            message is ReloadConfig ==> r.0 == Command::LoadConfig && r.1 is None,
            message matches Message::ConfigReloaded(c) ==> r.0 == Command::Nothing && r.1 == Some(Event::ConfigReloaded(c)),
    {
        match message {
            Message::OpenConfigFile => (Command::Nothing, Some(Event::OpenConfigFile)),
            Message::ReloadConfig => (Command::LoadConfig, None),
            Message::ConfigReloaded(config) => (Command::Nothing, Some(Event::ConfigReloaded(config))),
        }
    }
}

} // verus!
