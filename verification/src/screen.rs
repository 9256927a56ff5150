//! The screens of the application and the choice among them.

pub mod dashboard;
pub mod identity;
pub mod network;

use vstd::prelude::*;

use crate::config::{self, Config, NodeMap};
use crate::modal::{push_modal_error, Modal};

verus! {

/// Which screen the main window shows.
#[derive(Debug, Clone, Copy, PartialEq, Eq, Structural)]
pub enum ScreenKind {
    Welcome,
    Identity,
    Dashboard,
}

/// What the application starts from after loading its configuration.
#[derive(Debug)]
pub struct Start {
    pub config: Config,
    pub screen: ScreenKind,
    pub modal: Option<Modal>,
}

/// Whether `s` is the state the application starts from, or restarts from
/// when the configuration is reloaded: a loaded configuration opens the
/// dashboard and is kept (with random keys, but for its nodes); a missing
/// one opens the welcome screen with the default configuration; any other
/// error the welcome screen too, under a dialog that reports it. With
/// random keys, no configured node is kept.
pub open spec fn started_from(config: Result<Config, config::Error>, random_keys: bool, s: Start) -> bool {
    &&& config is Ok ==> s.screen == ScreenKind::Dashboard && s.modal is None
    &&& config is Ok && !random_keys ==> s.config == config.unwrap()
    &&& config matches Ok(c) ==> s.config.logs == c.logs && s.config.font == c.font
        && s.config.pane == c.pane && s.config.network == c.network
    &&& config is Err ==> s.screen == ScreenKind::Welcome
    &&& config is Err ==> s.config.is_default()
    &&& config matches Err(config::Error::ConfigMissing) ==> s.modal is None
    &&& match config {
        Err(e) => !(e is ConfigMissing) ==> s.modal is Some && s.modal.unwrap().errors().len() == 1
            && s.modal.unwrap().errors()[0].title@ == "Configuration error"@
            && s.modal.unwrap().errors()[0].message@ == config::error_text(e),
        Ok(_) => true,
    }
    &&& random_keys ==> s.config.nodes.entries().len() == 0
}

/// The state the application starts from, or restarts from when the
/// configuration is reloaded.
pub fn start(config: Result<Config, config::Error>, random_keys: bool) -> (s: Start)
    ensures
        started_from(config, random_keys, s),
{
    let mut modal: Option<Modal> = None;
    let (mut config, screen) = match config {
        Ok(config) => (config, ScreenKind::Dashboard),
        Err(config::Error::ConfigMissing) => (Config::default(), ScreenKind::Welcome),
        Err(error) => {
            push_modal_error(&mut modal, error.to_modal_error());
            (Config::default(), ScreenKind::Welcome)
        },
    };
    if random_keys {
        config.nodes = NodeMap::empty();
    }
    Start { config, screen, modal }
}

} // verus!
