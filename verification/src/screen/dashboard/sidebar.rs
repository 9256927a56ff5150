//! The dashboard screen's sidebar: the configured nodes and a menu.

use vstd::prelude::*;

use crate::config::{self, Config};

verus! {

/// The sidebar.
#[derive(Debug, Clone, Copy, PartialEq, Eq, Structural)]
pub struct Sidebar {}

/// What the user did in the sidebar, or what a task reported back to it.
#[derive(Debug)]
pub enum Message {
    OpenLogs,
    OpenConfigFile,
    ReloadConfig,
    ConfigReloaded(Result<Config, config::Error>),
    SwitchToIdentity,
}

/// What the sidebar asks of the dashboard.
#[derive(Debug)]
pub enum Event {
    OpenLogs,
    OpenConfigFile,
    ConfigReloaded(Result<Config, config::Error>),
    SwitchToIdentity,
}

/// Work that the sidebar starts.
#[derive(Debug, Clone, Copy, PartialEq, Eq, Structural)]
pub enum Command {
    Nothing,
    /// Load the configuration file; its result comes back as
    /// [`Message::ConfigReloaded`].
    LoadConfig,
}

/// The entries of the sidebar's menu.
#[derive(Debug, Clone, Copy, PartialEq, Eq, Structural)]
pub enum Menu {
    Version,
    OpenConfigFile,
    ReloadConfigFile,
    OpenLogs,
    SwitchToIdentity,
}

impl Menu {
    /// The menu, top to bottom.
    pub fn list() -> (l: Vec<Self>)
        ensures
            l@ == seq![Menu::Version, Menu::OpenLogs, Menu::OpenConfigFile, Menu::ReloadConfigFile, Menu::SwitchToIdentity],
    {
        let mut l = Vec::new();
        l.push(Menu::Version);
        l.push(Menu::OpenLogs);
        l.push(Menu::OpenConfigFile);
        l.push(Menu::ReloadConfigFile);
        l.push(Menu::SwitchToIdentity);
        l
    }
}

impl Sidebar {
    pub fn new() -> (s: Self)
        ensures
            s == (Sidebar {}),
    {
        Sidebar {}
    }

    /// Every message but reloading is passed on to the dashboard as the
    /// event of the same name; reloading starts loading the file.
    pub fn update(&self, message: Message) -> (r: (Command, Option<Event>))
        ensures
            message is OpenLogs ==> r.0 == Command::Nothing && r.1 matches Some(Event::OpenLogs),
            message is OpenConfigFile ==> r.0 == Command::Nothing && r.1 matches Some(Event::OpenConfigFile),
            message is ReloadConfig ==> r.0 == Command::LoadConfig && r.1 is None,
            message matches Message::ConfigReloaded(c) ==> r.0 == Command::Nothing && r.1 == Some(Event::ConfigReloaded(c)),
            message is SwitchToIdentity ==> r.0 == Command::Nothing && r.1 matches Some(Event::SwitchToIdentity),
    {
        match message {
            Message::OpenConfigFile => (Command::Nothing, Some(Event::OpenConfigFile)),
            Message::ReloadConfig => (Command::LoadConfig, None),
            Message::ConfigReloaded(config) => (Command::Nothing, Some(Event::ConfigReloaded(config))),
            Message::OpenLogs => (Command::Nothing, Some(Event::OpenLogs)),
            Message::SwitchToIdentity => (Command::Nothing, Some(Event::SwitchToIdentity)),
        }
    }
}

} // verus!
