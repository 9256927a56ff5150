//! The model of the configuration file.

pub mod logs;
pub mod network;
pub mod node;
pub mod pane;

use vstd::prelude::*;

pub use logs::Logs;
pub use network::Network;
pub use node::{Node, NodeMap};
pub use pane::Pane;

verus! {

/// The whole configuration.
#[derive(Debug)]
pub struct Config {
    pub logs: Logs,
    pub font: Font,
    pub pane: Pane,
    pub network: Network,
    pub nodes: NodeMap,
}

impl Config {
    /// Whether this is the configuration of a file that sets nothing: log
    /// level Info, Iosevka Term at size 12, horizontal splits, scroll bars 5
    /// wide, reconnecting after 10 seconds, and no nodes.
    pub open spec fn is_default(&self) -> bool {
        &&& self.logs.file_level == logs::LevelFilter::Info
        &&& self.font.family matches Some(f) && f@ == "Iosevka Term"@
        &&& self.font.size == Some(12u8)
        &&& self.pane.split_axis == pane::SplitAxis::Horizontal
        &&& self.pane.scrollbar == (ScrollBar { width: 5, scroller_width: 5 })
        &&& self.network.reconnect_delay == 10
        &&& self.nodes.entries().len() == 0
    }

    /// The configuration of a file that sets nothing.
    pub fn default() -> (c: Self)
        ensures
            c.is_default(),
    {
        Config {
            logs: Logs::default(),
            font: Font::default(),
            pane: Pane::default(),
            network: Network::default(),
            nodes: NodeMap::empty(),
        }
    }
}

/// The font settings.
#[derive(Debug, Clone)]
pub struct Font {
    pub family: Option<String>,
    pub size: Option<u8>,
}

impl Font {
    /// The font of a configuration that sets none: Iosevka Term, size 12.
    pub fn default() -> (f: Self)
        ensures
            f.family matches Some(family) && family@ == "Iosevka Term"@,
            f.size == Some(12u8),
    {
        proof {
            reveal_strlit("Iosevka Term");
        }
        Font { family: Some(String::from_str("Iosevka Term")), size: Some(12) }
    }
}

/// The scroll bar of the panes.
#[derive(Debug, Clone, Copy, PartialEq, Eq, Structural)]
pub struct ScrollBar {
    pub width: u32,
    pub scroller_width: u32,
}

impl ScrollBar {
    /// Five pixels wide, with a five pixel scroller.
    pub fn default() -> (s: Self)
        ensures
            s.width == 5,
            s.scroller_width == 5,
    {
        ScrollBar { width: 5, scroller_width: 5 }
    }
}

/// Why the configuration could not be loaded.
#[derive(Debug, Clone)]
pub enum Error {
    /// The file could not be read; the reason.
    LoadConfigFile(String),
    /// Another I/O failure; its text.
    Io(String),
    /// The file is not a valid configuration; the reason.
    Parse(String),
    /// There is no configuration file.
    ConfigMissing,
}

/// The text of a configuration error.
pub open spec fn error_text(e: Error) -> Seq<char> {
    match e {
        Error::LoadConfigFile(reason) => "config could not be read: "@ + reason@,
        Error::Io(text) => text@,
        Error::Parse(reason) => reason@,
        Error::ConfigMissing => "config does not exist"@,
    }
}

impl Error {
    /// The text of the error.
    pub fn to_string(&self) -> (s: String)
        ensures
            s@ == error_text(*self),
    {
        match self {
            Error::LoadConfigFile(reason) => {
                let prefix = String::from_str("config could not be read: ");
                prefix.concat(reason.as_str())
            },
            Error::Io(text) => text.clone(),
            Error::Parse(reason) => reason.clone(),
            Error::ConfigMissing => String::from_str("config does not exist"),
        }
    }

    /// The error dialog that reports this error.
    pub fn to_modal_error(&self) -> (e: crate::modal::Error)
        ensures
            e.title@ == "Configuration error"@,
            e.message@ == error_text(*self),
    {
        crate::modal::Error::new(String::from_str("Configuration error"), self.to_string())
    }
}

} // verus!
