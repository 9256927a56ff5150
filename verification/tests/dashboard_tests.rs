use freecord::buffer::{Buffer, BufferAction, DirectChat, Logs};
use freecord::dashboard::pane::Pane;
use freecord::dashboard::sidebar::{self, Command, Menu, Sidebar};
use freecord::dashboard::{focus_after_close, Focus, FocusState, FocusTarget, FOCUS_HISTORY_CAP};

#[test]
fn focusing_records_main_window_history() {
    let mut s = FocusState::new(1, 10);
    assert!(s.is_focused(1, 10));
    assert!(!s.focus_pane(1, 10));
    assert_eq!(s.last_focused(), None);
    assert!(s.focus_pane(1, 11));
    assert_eq!(s.focus(), Focus { window: 1, pane: 11 });
    assert_eq!(s.last_focused(), Some(11));
    assert!(s.focus_pane(2, 5));
    assert_eq!(s.last_focused(), Some(11));
    assert_eq!(s.focus_window_target(1), FocusTarget::Pane(11));
    assert_eq!(s.focus_window_target(2), FocusTarget::Unchanged);
}

#[test]
fn history_is_capped() {
    let mut s = FocusState::new(1, 0);
    for pane in 1..=20u64 {
        s.focus_pane(1, pane);
    }
    s.focus_pane(2, 0);
    assert_eq!(s.last_focused(), Some(20));
    for pane in (13..=20u64).rev() {
        assert_eq!(s.last_focused(), Some(pane));
        s.forget_pane(pane);
    }
    assert_eq!(s.last_focused(), None);
    assert_eq!(FOCUS_HISTORY_CAP, 8);
}

#[test]
fn forgetting_keeps_order() {
    let mut s = FocusState::new(1, 0);
    s.focus_pane(1, 3);
    s.focus_pane(1, 4);
    s.focus_pane(1, 3);
    s.focus_pane(1, 5);
    s.forget_pane(3);
    assert_eq!(s.last_focused(), Some(5));
    s.forget_pane(5);
    assert_eq!(s.last_focused(), Some(4));
}

#[test]
fn new_window_focuses_first_pane() {
    let s = FocusState::new(1, 0);
    assert_eq!(s.focus_window_target(7), FocusTarget::FirstPane);
    assert_eq!(s.pane_to_split(Some(9)), Some(0));
    let mut s = FocusState::new(1, 0);
    s.focus_pane(7, 3);
    assert_eq!(s.pane_to_split(Some(9)), Some(9));
    assert_eq!(s.pane_to_split(None), None);
    assert_eq!(focus_after_close(&s, 7, 3, 4), Some(4));
    assert_eq!(focus_after_close(&s, 1, 3, 4), None);
}

#[test]
fn pane_titles_and_close_buttons() {
    assert_eq!(Buffer::Empty.title(), "Empty buffer");
    assert_eq!(Buffer::Logs(Logs::new(3)).title(), "Logs");
    assert_eq!(Buffer::DirectChat(DirectChat::new()).title(), "Direct chat");
    assert!(!Buffer::Empty.shows_close_button(1));
    assert!(Buffer::Empty.shows_close_button(2));
    assert!(Buffer::Logs(Logs::new(3)).shows_close_button(1));
    assert_eq!(Pane::new(Buffer::Empty).buffer, Buffer::Empty);
    assert_ne!(BufferAction::NewPane, BufferAction::NewWindow);
}

#[test]
fn sidebar_menu_and_updates() {
    assert_eq!(Menu::list(), vec![Menu::Version, Menu::OpenConfigFile, Menu::ReloadConfigFile]);
    let s = Sidebar::new();
    let (cmd, ev) = s.update(sidebar::Message::ReloadConfig);
    assert_eq!(cmd, Command::LoadConfig);
    assert!(ev.is_none());
    let (cmd, ev) = s.update(sidebar::Message::OpenConfigFile);
    assert_eq!(cmd, Command::Nothing);
    assert!(matches!(ev, Some(sidebar::Event::OpenConfigFile)));
    let (_, ev) = s.update(sidebar::Message::ConfigReloaded(Err(freecord::config::Error::ConfigMissing)));
    assert!(matches!(
        ev,
        Some(sidebar::Event::ConfigReloaded(Err(freecord::config::Error::ConfigMissing)))
    ));
}
