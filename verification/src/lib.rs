//! Freecord: the verified core of a peer-to-peer chat application.
//!
//! The crate holds the wire framing used between nodes, the colour codec of
//! the theme files, the log-level ordering, and the state machines that drive
//! the network task, the relay discovery and the user interface.

pub mod app;
pub mod buffer;
pub mod channel;
pub mod config;
pub mod dashboard;
pub mod identity;
pub mod logger;
pub mod modal;
pub mod network;
pub mod node;
pub mod screen;
pub mod theme;
pub mod welcome;
pub mod window;
