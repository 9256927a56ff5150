//! The application's state across its screens, and how it answers what
//! happens: the user's input on the screens, a loaded configuration, new
//! keys, log records. The work this asks for (files, the clipboard, key
//! generation) is returned as an action for the program to do.

use vstd::prelude::*;

use crate::config::{self, Config};
use crate::identity::{pkcs8_secret_pem, spki_public_pem, text_of, Identity, Keys, LineEnding};
use crate::logger::Record;
use crate::modal::{self, Modal};
use crate::screen::identity::{Identity as IdentityScreen, Message as IdentityMessage};
use crate::screen::{start, started_from, ScreenKind, Start};
use crate::welcome;

verus! {

/// The state of the application.
#[derive(Debug)]
pub struct AppState {
    /// The screen the main window shows.
    pub screen: ScreenKind,
    /// The dialog over it, if any.
    pub modal: Option<Modal>,
    pub config: Config,
    pub identity: Identity,
    /// The log records shown in log panes, oldest first.
    pub pane_logs: Vec<Record>,
    /// Whether the application runs with random keys and no configured node.
    pub random_keys: bool,
}

/// What happens to the application.
#[derive(Debug)]
pub enum AppEvent {
    /// The configuration was loaded, or failed to load.
    ConfigLoaded(Result<Config, config::Error>),
    /// Input on the welcome screen.
    Welcome(welcome::Message),
    /// Input on the identity screen.
    Identity(IdentityMessage),
    /// Keys were generated, as [`AppAction::GenerateKeys`] asked.
    KeysGenerated(Keys),
    /// The dashboard asks for the configuration to be loaded again.
    ReloadRequested,
    /// The dashboard asks for the identity screen.
    SwitchToIdentity,
    /// Input on the dialog.
    Modal(modal::Message),
    /// New log records.
    Logging(Vec<Record>),
}

/// The work the program does after a step.
#[derive(Debug)]
pub enum AppAction {
    Nothing,
    /// Open the configuration directory in the file manager.
    OpenConfigDirectory,
    /// Generate a key pair and hand it back as [`AppEvent::KeysGenerated`].
    GenerateKeys,
    /// Save these keys to disk.
    SaveKeys(Keys),
    /// Delete the keys on disk.
    DeleteKeys,
    /// Put this text on the clipboard.
    CopyToClipboard(String),
    /// Load the configuration and hand it back as [`AppEvent::ConfigLoaded`].
    LoadConfig,
}

/// The text an action puts on the clipboard, if it does.
pub open spec fn copied(a: AppAction) -> Option<String> {
    match a {
        AppAction::CopyToClipboard(t) => Some(t),
        _ => None,
    }
}

/// Whether only the keys of the state differ.
pub open spec fn same_but_keys(a: AppState, b: AppState) -> bool {
    &&& a.screen == b.screen
    &&& a.modal == b.modal
    &&& a.config == b.config
    &&& a.pane_logs == b.pane_logs
    &&& a.random_keys == b.random_keys
}

/// Takes one step of the application: what the event changes in the state,
/// and what the program does next. Input for a screen that is not shown
/// changes nothing.
pub fn app_step(state: &mut AppState, event: AppEvent) -> (a: AppAction)
    ensures
        final(state).random_keys == old(state).random_keys,
        match event {
            AppEvent::ConfigLoaded(c) => {
                &&& started_from(c, old(state).random_keys, (Start {
                    config: final(state).config,
                    screen: final(state).screen,
                    modal: final(state).modal,
                }))
                &&& final(state).identity == old(state).identity
                &&& final(state).pane_logs == old(state).pane_logs
                &&& a == AppAction::Nothing
            },
            AppEvent::Welcome(_) => {
                &&& *final(state) == *old(state)
                &&& old(state).screen == ScreenKind::Welcome ==> a == AppAction::OpenConfigDirectory
                &&& old(state).screen != ScreenKind::Welcome ==> a == AppAction::Nothing
            },
            AppEvent::Identity(m) => if old(state).screen != ScreenKind::Identity {
                *final(state) == *old(state) && a == AppAction::Nothing
            } else {
                &&& final(state).screen == old(state).screen
                &&& final(state).modal == old(state).modal
                &&& final(state).config == old(state).config
                &&& final(state).pane_logs == old(state).pane_logs
                &&& m == IdentityMessage::GenerateSecretKey ==> *final(state) == *old(state) && a
                    == AppAction::GenerateKeys
                &&& m == IdentityMessage::DeleteSecretKey ==> final(state).identity.keys is None && (
                old(state).identity.keys is Some ==> a == AppAction::DeleteKeys) && (old(
                    state,
                ).identity.keys is None ==> a == AppAction::Nothing)
                &&& m == IdentityMessage::CopyPrivatePem ==> final(state).identity == old(state).identity
                    && match old(state).identity.keys {
                    Some(k) => (a is Nothing || a is CopyToClipboard) && (text_of(copied(a))
                        == pkcs8_secret_pem(k.private_spec(), LineEnding::Lf) || text_of(copied(a))
                        == pkcs8_secret_pem(k.private_spec(), LineEnding::CrLf)),
                    None => a == AppAction::Nothing,
                }
                &&& m == IdentityMessage::CopyPublicPem ==> final(state).identity == old(state).identity
                    && match old(state).identity.keys {
                    Some(k) => (a is Nothing || a is CopyToClipboard) && (text_of(copied(a))
                        == spki_public_pem(k.public_spec(), LineEnding::Lf) || text_of(copied(a))
                        == spki_public_pem(k.public_spec(), LineEnding::CrLf)),
                    None => a == AppAction::Nothing,
                }
            },
            AppEvent::KeysGenerated(keys) => {
                &&& same_but_keys(*final(state), *old(state))
                &&& final(state).identity.keys == Some(keys)
                &&& a == AppAction::SaveKeys(keys)
            },
            AppEvent::ReloadRequested => {
                &&& *final(state) == *old(state)
                &&& old(state).screen == ScreenKind::Dashboard ==> a == AppAction::LoadConfig
                &&& old(state).screen != ScreenKind::Dashboard ==> a == AppAction::Nothing
            },
            AppEvent::SwitchToIdentity => {
                &&& a == AppAction::Nothing
                &&& old(state).screen == ScreenKind::Dashboard ==> final(state).screen
                    == ScreenKind::Identity
                &&& old(state).screen != ScreenKind::Dashboard ==> final(state).screen == old(
                    state,
                ).screen
                &&& final(state).modal == old(state).modal
                &&& final(state).config == old(state).config
                &&& final(state).identity == old(state).identity
                &&& final(state).pane_logs == old(state).pane_logs
            },
            AppEvent::Modal(_) => {
                &&& a == AppAction::Nothing
                &&& final(state).screen == old(state).screen
                &&& final(state).config == old(state).config
                &&& final(state).identity == old(state).identity
                &&& final(state).pane_logs == old(state).pane_logs
                &&& old(state).modal is None ==> final(state).modal is None
                &&& old(state).modal matches Some(m) ==> if m.errors().len() > 1 {
                    final(state).modal matches Some(n) && n.errors() == m.errors().drop_last()
                } else {
                    final(state).modal is None
                }
            },
            AppEvent::Logging(records) => {
                &&& a == AppAction::Nothing
                &&& final(state).pane_logs@ == old(state).pane_logs@ + records@
                &&& final(state).screen == old(state).screen
                &&& final(state).modal == old(state).modal
                &&& final(state).config == old(state).config
                &&& final(state).identity == old(state).identity
            },
        },
{
    match event {
        AppEvent::ConfigLoaded(c) => {
            let s = start(c, state.random_keys);
            state.config = s.config;
            state.screen = s.screen;
            state.modal = s.modal;
            AppAction::Nothing
        },
        AppEvent::Welcome(message) => match message {
            welcome::Message::OpenConfigDirectory => {
                if state.screen == ScreenKind::Welcome {
                    AppAction::OpenConfigDirectory
                } else {
                    AppAction::Nothing
                }
            },
        },
        AppEvent::Identity(message) => {
            if state.screen != ScreenKind::Identity {
                return AppAction::Nothing;
            }
            let mut screen = IdentityScreen::new();
            let (pem, event) = screen.update(message, &state.identity);
            match event {
                Some(crate::screen::identity::Event::GenerateSecretKey) => AppAction::GenerateKeys,
                Some(crate::screen::identity::Event::DeleteSecretKey) => {
                    let had_keys = state.identity.keys.is_some();
                    state.identity.keys = None;
                    if had_keys {
                        AppAction::DeleteKeys
                    } else {
                        AppAction::Nothing
                    }
                },
                None => match pem {
                    Some(text) => AppAction::CopyToClipboard(text),
                    None => AppAction::Nothing,
                },
            }
        },
        AppEvent::KeysGenerated(keys) => {
            state.identity.keys = Some(keys);
            AppAction::SaveKeys(keys)
        },
        AppEvent::ReloadRequested => {
            if state.screen == ScreenKind::Dashboard {
                AppAction::LoadConfig
            } else {
                AppAction::Nothing
            }
        },
        AppEvent::SwitchToIdentity => {
            if state.screen == ScreenKind::Dashboard {
                state.screen = ScreenKind::Identity;
            }
            AppAction::Nothing
        },
        AppEvent::Modal(message) => {
            let mut taken: Option<Modal> = None;
            std::mem::swap(&mut taken, &mut state.modal);
            match taken {
                Some(mut modal) => match modal.update(message) {
                    Some(modal::Event::Close) => {},
                    None => {
                        state.modal = Some(modal);
                    },
                },
                None => {},
            }
            AppAction::Nothing
        },
        AppEvent::Logging(records) => {
            let mut records = records;
            state.pane_logs.append(&mut records);
            AppAction::Nothing
        },
    }
}

} // verus!
