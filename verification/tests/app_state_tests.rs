use freecord::app::{app_step, AppAction, AppEvent, AppState};
use freecord::config::{self, Config, Error};
use freecord::modal::{self, push_modal_error, Modal};
use freecord::screen::dashboard::sidebar::{self as screen_sidebar, Menu, Sidebar};
use freecord::screen::identity::{self as identity_screen, Identity as IdentityScreen};
use freecord::screen::network::Network;
use freecord::screen::{start, ScreenKind};
use freecord::welcome::{self, Welcome};
use freecord::window::{Window, WindowAction, WindowEvent, WindowState};

fn err(title: &str) -> modal::Error {
    modal::Error::new(title.to_string(), "m".to_string())
}

#[test]
fn modal_errors_stack_and_close_one_by_one() {
    let mut m: Option<Modal> = None;
    push_modal_error(&mut m, err("a"));
    push_modal_error(&mut m, err("b"));
    let mut modal = m.unwrap();
    assert_eq!(modal.shown().unwrap().title, "b");
    assert_eq!(modal.update(modal::Message::Close), None);
    assert_eq!(modal.shown().unwrap().title, "a");
    assert_eq!(modal.update(modal::Message::Close), Some(modal::Event::Close));
    assert_eq!(modal.shown().unwrap().title, "a");
}

#[test]
fn window_events() {
    let mut w: Window<(i32, i32)> = Window::new(4);
    assert!(!w.focused);
    assert_eq!(w.handle_event(4, WindowEvent::Focused), WindowAction::Nothing);
    assert!(w.focused);
    assert_eq!(w.handle_event(5, WindowEvent::Unfocused), WindowAction::Nothing);
    assert!(w.focused);
    w.handle_event(4, WindowEvent::Opened((3, 2)));
    assert!(matches!(w.state, WindowState::Initialized((3, 2))));
    assert_eq!(w.handle_event(4, WindowEvent::CloseRequested), WindowAction::Exit);
    assert_eq!(w.handle_event(5, WindowEvent::CloseRequested), WindowAction::Nothing);
    w.handle_event(4, WindowEvent::Unfocused);
    assert!(!w.focused);
}

#[test]
fn configuration_defaults() {
    let c = Config::default();
    assert_eq!(c.font.family.as_deref(), Some("Iosevka Term"));
    assert_eq!(c.font.size, Some(12));
    assert_eq!(c.pane.scrollbar.width, 5);
    assert_eq!(c.pane.scrollbar.scroller_width, 5);
    assert_eq!(c.pane.split_axis, config::pane::SplitAxis::Horizontal);
    assert_eq!(c.network.reconnect_delay, 10);
    assert_eq!(c.nodes.len(), 0);
}

#[test]
fn configuration_error_texts() {
    assert_eq!(Error::LoadConfigFile("denied".into()).to_string(), "config could not be read: denied");
    assert_eq!(Error::Io("io".into()).to_string(), "io");
    assert_eq!(Error::Parse("bad".into()).to_string(), "bad");
    assert_eq!(Error::ConfigMissing.to_string(), "config does not exist");
    let m = Error::Parse("bad".into()).to_modal_error();
    assert_eq!(m.title, "Configuration error");
    assert_eq!(m.message, "bad");
}

#[test]
fn start_screens() {
    let s = start(Ok(Config::default()), false);
    assert_eq!(s.screen, ScreenKind::Dashboard);
    assert!(s.modal.is_none());
    let s = start(Err(Error::ConfigMissing), false);
    assert_eq!(s.screen, ScreenKind::Welcome);
    assert!(s.modal.is_none());
    let s = start(Err(Error::Parse("oops".into())), false);
    assert_eq!(s.screen, ScreenKind::Welcome);
    let modal = s.modal.unwrap();
    let shown = modal.shown().unwrap();
    assert_eq!(shown.title, "Configuration error");
    assert_eq!(shown.message, "oops");
}

#[test]
fn random_keys_drop_configured_nodes() {
    let mut c = Config::default();
    c.nodes.insert(
        "friend".to_string(),
        config::Node { relayed: true, peer_id: vec![1, 2], nickname: None },
    );
    assert_eq!(c.nodes.len(), 1);
    c.network.reconnect_delay = 42;
    c.font.size = Some(20);
    c.logs.file_level = config::logs::LevelFilter::Debug;
    let s = start(Ok(c), true);
    assert_eq!(s.config.nodes.len(), 0);
    assert_eq!(s.config.network.reconnect_delay, 42);
    assert_eq!(s.config.font.size, Some(20));
    assert_eq!(s.config.logs.file_level, config::logs::LevelFilter::Debug);
}

#[test]
fn configuration_errors_start_from_the_default() {
    let s = start(Err(Error::Parse("oops".into())), false);
    assert_eq!(s.config.logs.file_level, config::logs::LevelFilter::Info);
    assert_eq!(s.config.font.family.as_deref(), Some("Iosevka Term"));
    assert_eq!(s.config.font.size, Some(12));
    assert_eq!(s.config.pane.split_axis, config::pane::SplitAxis::Horizontal);
    assert_eq!(s.config.pane.scrollbar.width, 5);
    assert_eq!(s.config.network.reconnect_delay, 10);
    assert_eq!(s.config.nodes.len(), 0);
}

#[test]
fn screen_sidebar_menu_and_events() {
    assert_eq!(
        Menu::list(),
        vec![Menu::Version, Menu::OpenLogs, Menu::OpenConfigFile, Menu::ReloadConfigFile, Menu::SwitchToIdentity]
    );
    let s = Sidebar::new();
    let (cmd, ev) = s.update(screen_sidebar::Message::SwitchToIdentity);
    assert_eq!(cmd, screen_sidebar::Command::Nothing);
    assert!(matches!(ev, Some(screen_sidebar::Event::SwitchToIdentity)));
    let (cmd, ev) = s.update(screen_sidebar::Message::OpenLogs);
    assert_eq!(cmd, screen_sidebar::Command::Nothing);
    assert!(matches!(ev, Some(screen_sidebar::Event::OpenLogs)));
    let (cmd, ev) = s.update(screen_sidebar::Message::ReloadConfig);
    assert_eq!(cmd, screen_sidebar::Command::LoadConfig);
    assert!(ev.is_none());
}

#[test]
fn identity_screen_without_keys() {
    let mut screen = IdentityScreen::new();
    let identity = freecord::identity::Identity::default();
    assert!(!IdentityScreen::keys_found(&identity));
    assert_eq!(
        screen.update(identity_screen::Message::CopyPrivatePem, &identity),
        (None, None)
    );
    assert_eq!(
        screen.update(identity_screen::Message::GenerateSecretKey, &identity),
        (None, Some(identity_screen::Event::GenerateSecretKey))
    );
    assert_eq!(
        screen.update(identity_screen::Message::DeleteSecretKey, &identity),
        (None, Some(identity_screen::Event::DeleteSecretKey))
    );
}

#[test]
fn welcome_and_network_screens() {
    let mut w = Welcome::new();
    w.update(welcome::Message::OpenConfigDirectory);
    assert_eq!(w, Welcome::new());
    assert_eq!(Network::new(), Network::new());
}

fn app_state(screen: ScreenKind) -> AppState {
    AppState {
        screen,
        modal: None,
        config: Config::default(),
        identity: freecord::identity::Identity::default(),
        pane_logs: Vec::new(),
        random_keys: false,
    }
}

#[test]
fn app_steps() {
    let mut state = app_state(ScreenKind::Welcome);
    assert!(matches!(app_step(&mut state, AppEvent::Welcome(welcome::Message::OpenConfigDirectory)), AppAction::OpenConfigDirectory));
    assert!(matches!(app_step(&mut state, AppEvent::ConfigLoaded(Ok(Config::default()))), AppAction::Nothing));
    assert_eq!(state.screen, ScreenKind::Dashboard);
    assert!(matches!(app_step(&mut state, AppEvent::Welcome(welcome::Message::OpenConfigDirectory)), AppAction::Nothing));
    assert!(matches!(app_step(&mut state, AppEvent::ReloadRequested), AppAction::LoadConfig));
    app_step(&mut state, AppEvent::SwitchToIdentity);
    assert_eq!(state.screen, ScreenKind::Identity);

    assert!(matches!(app_step(&mut state, AppEvent::Identity(identity_screen::Message::GenerateSecretKey)), AppAction::GenerateKeys));
    assert!(state.identity.keys.is_none());
    let keys = freecord::identity::Keys::from_secret_bytes([7; 32]);
    assert!(matches!(app_step(&mut state, AppEvent::KeysGenerated(keys)), AppAction::SaveKeys(_)));
    assert!(state.identity.keys.is_some());
    match app_step(&mut state, AppEvent::Identity(identity_screen::Message::CopyPublicPem)) {
        AppAction::CopyToClipboard(text) => assert!(text.starts_with("-----BEGIN PUBLIC KEY-----")),
        _ => panic!("expected the public key on the clipboard"),
    }
    assert!(matches!(app_step(&mut state, AppEvent::Identity(identity_screen::Message::DeleteSecretKey)), AppAction::DeleteKeys));
    assert!(state.identity.keys.is_none());
    assert!(matches!(app_step(&mut state, AppEvent::Identity(identity_screen::Message::DeleteSecretKey)), AppAction::Nothing));

    let record = |message: &str| freecord::logger::Record {
        timestamp_secs: 0,
        timestamp_nanos: 0,
        level: freecord::logger::Level::Info,
        message: message.to_string(),
    };
    app_step(&mut state, AppEvent::Logging(vec![record("a")]));
    app_step(&mut state, AppEvent::Logging(vec![record("b"), record("c")]));
    assert_eq!(state.pane_logs, vec![record("a"), record("b"), record("c")]);

    app_step(&mut state, AppEvent::ConfigLoaded(Err(Error::Parse("bad".into()))));
    assert_eq!(state.screen, ScreenKind::Welcome);
    assert_eq!(state.modal.as_ref().unwrap().shown().unwrap().message, "bad");
    app_step(&mut state, AppEvent::Modal(modal::Message::Close));
    assert!(state.modal.is_none());
}
