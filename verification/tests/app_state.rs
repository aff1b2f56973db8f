use nerdterm::app::{App, AppState, ChordMode};
use nerdterm::config::address_book;
use nerdterm::config::files::FileState;
use nerdterm::config::settings::{self, Settings};
use nerdterm::entry::{AddressBookEntry, InputMode, Protocol};
use nerdterm::events::{AppEvent, ConnectionCommand, Effect};
use nerdterm::keys::{Key, KeyCode, Modifiers, TerminalEvent};
use nerdterm::network::ssh::LoginNames;
use nerdterm::network::telnet::TelnetFlags;
use nerdterm::popup::Popup;
use std::sync::atomic::Ordering;
use std::sync::Arc;

fn sample_entry() -> AddressBookEntry {
    AddressBookEntry {
        name: "test".into(),
        host: "localhost".into(),
        port: 23,
        protocol: Protocol::Telnet,
        username: None,
        terminal_type: None,
        default_input_mode: None,
    }
}

fn named(name: &str, host: &str) -> AddressBookEntry {
    AddressBookEntry { name: name.into(), host: host.into(), ..sample_entry() }
}

fn two_entries() -> Vec<AddressBookEntry> {
    vec![named("first", "a.example"), named("second", "b.example")]
}

fn nobody() -> LoginNames {
    LoginNames { user: None, username: None }
}

/// An application in line mode that has shown its hint on local commands.
fn test_app(entries: Vec<AddressBookEntry>) -> App {
    let settings = Settings { default_input_mode: InputMode::LineBuffered, ..Settings::default() };
    let mut app = App::start(entries, settings, String::new(), nobody());
    app.shown_chord_hint = true;
    app
}

fn no_modifiers() -> Modifiers {
    Modifiers { shift: false, control: false, other: false }
}

fn key(code: KeyCode) -> TerminalEvent {
    TerminalEvent::Key { key: Key { code, modifiers: no_modifiers() }, released: false }
}

fn ctrl(c: char) -> TerminalEvent {
    let modifiers = Modifiers { control: true, ..no_modifiers() };
    TerminalEvent::Key { key: Key { code: KeyCode::Char(c), modifiers }, released: false }
}

/// A connection for the selected entry, in line mode.
fn simulate_connected(app: &mut App, id: u64, flags: Option<Arc<TelnetFlags>>) -> Vec<Effect> {
    app.link.id = id;
    app.input_mode = InputMode::LineBuffered;
    app.input_mode_user_set = false;
    app.handle_app_event(AppEvent::Connected { id, telnet_flags: flags })
}

fn raw(effects: &[Effect]) -> Vec<Vec<u8>> {
    let mut out = Vec::new();
    for effect in effects {
        if let Effect::Send(ConnectionCommand::SendRaw(bytes)) = effect {
            out.push(bytes.clone());
        }
    }
    out
}

fn resizes(effects: &[Effect]) -> Vec<(u16, u16)> {
    let mut out = Vec::new();
    for effect in effects {
        if let Effect::Send(ConnectionCommand::Resize(cols, rows)) = effect {
            out.push((*cols, *rows));
        }
    }
    out
}

#[test]
fn initial_input_mode_ssh_defaults_to_character() {
    let entry = AddressBookEntry { name: "s".into(), host: "h".into(), port: 22, protocol: Protocol::Ssh, ..sample_entry() };
    let settings = Settings::default();
    assert_eq!(App::initial_input_mode_for(&entry, &settings), InputMode::Character);
}

#[test]
fn initial_input_mode_honours_entry_override() {
    let entry = AddressBookEntry {
        name: "s".into(),
        host: "h".into(),
        port: 22,
        protocol: Protocol::Ssh,
        username: None,
        terminal_type: None,
        default_input_mode: Some(InputMode::LineBuffered),
    };
    let settings = Settings::default();
    assert_eq!(App::initial_input_mode_for(&entry, &settings), InputMode::LineBuffered);
}

#[test]
fn initial_input_mode_telnet_uses_settings_when_no_override() {
    let entry = named("t", "h");
    let mut settings = Settings::default();
    settings.default_input_mode = InputMode::Character;
    assert_eq!(App::initial_input_mode_for(&entry, &settings), InputMode::Character);
    settings.default_input_mode = InputMode::LineBuffered;
    assert_eq!(App::initial_input_mode_for(&entry, &settings), InputMode::LineBuffered);
}

#[test]
fn terminal_viewport_matches_input_mode_chrome() {
    let mut app = App::new(
        address_book::load(FileState::Missing),
        None,
        settings::load(FileState::Missing),
        nobody(),
    );
    app.width = 80;
    app.height = 24;
    app.input_mode = InputMode::LineBuffered;
    assert_eq!(app.terminal_viewport(), (80, 20)); // 24 - 4
    app.input_mode = InputMode::Character;
    assert_eq!(app.terminal_viewport(), (80, 23)); // 24 - 1
}

#[test]
fn character_mode_connect_viewport_is_taller_than_line_mode() {
    let mut app = test_app(vec![sample_entry()]);
    app.width = 80;
    app.height = 30;
    app.input_mode = InputMode::LineBuffered;
    let line = app.terminal_viewport();
    app.input_mode = InputMode::Character;
    let ch = app.terminal_viewport();
    assert_eq!(line, (80, 26)); // 30 - 4
    assert_eq!(ch, (80, 29)); // 30 - 1
    assert!(ch.1 > line.1);
}

#[test]
fn connected_with_matching_id_enters_connected_state() {
    let mut app = test_app(vec![sample_entry()]);
    let effects = simulate_connected(&mut app, 1, None);
    assert_eq!(app.state, AppState::Connected);
    assert!(app.link.open);
    assert_eq!(app.book.connected, Some(0));
    assert_eq!(effects.len(), 1);
    assert!(matches!(effects[0], Effect::Accept));
}

#[test]
fn stale_connected_event_is_ignored() {
    let mut app = test_app(vec![sample_entry()]);
    app.link.id = 5;
    let effects = app.handle_app_event(AppEvent::Connected { id: 4, telnet_flags: None });
    assert!(effects.is_empty());
    assert_eq!(app.state, AppState::AddressBook);
    assert!(!app.link.open);
}

#[test]
fn stale_network_data_does_not_update_emulator() {
    let mut app = test_app(vec![sample_entry()]);
    simulate_connected(&mut app, 1, None);
    let before = app.emulator.cursor_position();
    let effects = app.handle_app_event(AppEvent::NetworkData { id: 99, data: b"hello".to_vec() });
    assert_eq!(app.emulator.cursor_position(), before);
    assert!(raw(&effects).is_empty());
}

#[test]
fn matching_network_data_updates_emulator() {
    let mut app = test_app(vec![sample_entry()]);
    simulate_connected(&mut app, 1, None);
    app.handle_app_event(AppEvent::NetworkData { id: 1, data: b"hello".to_vec() });
    assert_eq!(app.emulator.cursor_position(), (0, 5));
}

#[test]
fn disconnected_with_matching_id_clears_session() {
    let mut app = test_app(vec![sample_entry()]);
    simulate_connected(&mut app, 1, None);
    app.handle_app_event(AppEvent::Disconnected { id: 1, reason: Some("bye".into()) });
    assert_eq!(app.state, AppState::AddressBook);
    assert!(!app.link.open);
    assert!(app.link.telnet_flags.is_none());
    assert_eq!(app.book.connected, None);
    assert!(app.status_message.contains("bye"));
}

#[test]
fn stale_disconnected_does_not_clear_live_session() {
    let mut app = test_app(vec![sample_entry()]);
    simulate_connected(&mut app, 2, None);
    app.handle_app_event(AppEvent::Disconnected { id: 1, reason: Some("old".into()) });
    assert_eq!(app.state, AppState::Connected);
    assert!(app.link.open);
    assert_eq!(app.book.connected, Some(0));
}

#[test]
fn esc_during_connecting_bumps_id_so_queued_connected_is_stale() {
    let mut app = test_app(vec![sample_entry()]);
    app.link.id = 7;
    app.state = AppState::Connecting;

    app.handle_crossterm_event(key(KeyCode::Esc));

    assert_eq!(app.state, AppState::AddressBook);
    assert_eq!(app.link.id, 8);

    app.handle_app_event(AppEvent::Connected { id: 7, telnet_flags: None });
    assert_eq!(
        app.state,
        AppState::AddressBook,
        "Connected for cancelled attempt must not revive the session"
    );
    assert!(!app.link.open);
}

#[test]
fn esc_while_connected_suspends_without_dropping_connection() {
    let mut app = test_app(vec![sample_entry()]);
    simulate_connected(&mut app, 1, None);

    let effects = app.handle_crossterm_event(key(KeyCode::Esc));

    assert!(effects.is_empty());
    assert_eq!(app.state, AppState::AddressBook);
    assert!(app.link.open, "suspend must keep the network channel alive");
    assert_eq!(app.book.connected, Some(0));
    assert!(app.status_message.to_lowercase().contains("suspend"));
}

#[test]
fn cpr_samples_cursor_at_each_query_not_final_position() {
    let mut app = test_app(vec![sample_entry()]);
    simulate_connected(&mut app, 1, None);

    // Home, CPR, print 'X', CPR: the second CPR must see col 1 (1-based col 2).
    let data = b"\x1b[1;1H\x1b[6nX\x1b[6n".to_vec();
    let effects = app.handle_app_event(AppEvent::NetworkData { id: 1, data });

    let replies = raw(&effects);
    assert_eq!(replies.len(), 2, "expected two CPR replies, got {replies:?}");
    assert_eq!(replies[0], b"\x1b[1;1R", "first CPR at home");
    assert_eq!(
        replies[1], b"\x1b[1;2R",
        "second CPR after 'X' must report advanced column"
    );
}

#[test]
fn dsr_and_da_queries_get_replies() {
    let mut app = test_app(vec![sample_entry()]);
    simulate_connected(&mut app, 1, None);
    let effects =
        app.handle_app_event(AppEvent::NetworkData { id: 1, data: b"\x1b[5n\x1b[c".to_vec() });
    let replies = raw(&effects);
    assert_eq!(replies.len(), 2);
    assert_eq!(replies[0], b"\x1b[0n");
    assert_eq!(replies[1], b"\x1b[?1;2c");
}

#[test]
fn will_echo_auto_switches_to_character_mode_and_sends_resize() {
    let mut app = test_app(vec![sample_entry()]);
    let flags = Arc::new(TelnetFlags::new());
    simulate_connected(&mut app, 1, Some(flags.clone()));
    assert_eq!(app.input_mode, InputMode::LineBuffered);

    flags.server_echo.store(true, Ordering::Relaxed);
    let effects = app.handle_app_event(AppEvent::NetworkData { id: 1, data: b"".to_vec() });

    assert_eq!(app.input_mode, InputMode::Character);
    let resizes = resizes(&effects);
    assert!(
        !resizes.is_empty(),
        "auto-switch to char mode must notify peer of new viewport"
    );
    let (cols, rows) = app.terminal_viewport();
    assert_eq!(*resizes.last().unwrap(), (cols, rows));
}

#[test]
fn user_tab_suppresses_will_echo_auto_switch() {
    let mut app = test_app(vec![sample_entry()]);
    let flags = Arc::new(TelnetFlags::new());
    simulate_connected(&mut app, 1, Some(flags.clone()));

    // Tab to Character, Tab to Line: the user's own choice.
    app.handle_crossterm_event(key(KeyCode::Tab));
    assert_eq!(app.input_mode, InputMode::Character);
    assert!(app.input_mode_user_set);
    app.handle_crossterm_event(key(KeyCode::Tab));
    assert_eq!(app.input_mode, InputMode::LineBuffered);

    flags.server_echo.store(true, Ordering::Relaxed);
    app.handle_app_event(AppEvent::NetworkData { id: 1, data: b"x".to_vec() });

    assert_eq!(
        app.input_mode,
        InputMode::LineBuffered,
        "user Tab choice must not be overridden by WILL ECHO"
    );
}

#[test]
fn entry_line_mode_override_blocks_will_echo_auto_switch() {
    let mut entry = sample_entry();
    entry.default_input_mode = Some(InputMode::LineBuffered);
    let mut app = test_app(vec![entry]);
    let flags = Arc::new(TelnetFlags::new());
    simulate_connected(&mut app, 1, Some(flags.clone()));
    assert_eq!(app.book.connected, Some(0));

    flags.server_echo.store(true, Ordering::Relaxed);
    app.handle_app_event(AppEvent::NetworkData { id: 1, data: b"".to_vec() });
    assert_eq!(app.input_mode, InputMode::LineBuffered);
}

#[test]
fn tab_toggle_sends_viewport_resize_matching_chrome() {
    let mut app = test_app(vec![sample_entry()]);
    app.width = 80;
    app.height = 24;
    simulate_connected(&mut app, 1, None);
    assert_eq!(app.input_mode, InputMode::LineBuffered);
    assert_eq!(app.terminal_viewport(), (80, 20));

    let effects = app.handle_crossterm_event(key(KeyCode::Tab));
    assert_eq!(app.input_mode, InputMode::Character);
    assert_eq!(app.terminal_viewport(), (80, 23));
    assert_eq!(resizes(&effects).last().copied(), Some((80, 23)));
}

#[test]
fn terminal_resize_event_sends_viewport_not_raw_height() {
    let mut app = test_app(vec![sample_entry()]);
    app.width = 80;
    app.height = 24;
    app.input_mode = InputMode::LineBuffered;
    simulate_connected(&mut app, 1, None);

    let effects = app.handle_crossterm_event(TerminalEvent::Resize(100, 40));
    // Line mode chrome = 4, so rows are 36, not raw 40.
    assert_eq!(resizes(&effects).last().copied(), Some((100, 36)));
    assert_eq!(app.width, 100);
    assert_eq!(app.height, 40);
}

#[test]
fn password_needed_opens_popup_only_for_matching_id() {
    let mut app = test_app(vec![sample_entry()]);
    app.link.id = 3;
    app.handle_app_event(AppEvent::PasswordNeeded { id: 1 });
    assert!(app.popup.is_none());

    app.handle_app_event(AppEvent::PasswordNeeded { id: 3 });
    assert!(matches!(app.popup, Some(Popup::Password(_))));
}

#[test]
fn host_key_mismatch_bumps_connection_id() {
    let mut app = test_app(vec![sample_entry()]);
    app.link.id = 10;
    app.state = AppState::Connecting;
    app.handle_app_event(AppEvent::HostKeyMismatch {
        id: 10,
        host: "h".into(),
        port: 22,
        key_type: "ssh-ed25519".into(),
        stored_fingerprint: "a".into(),
        received_fingerprint: "b".into(),
        file_path: "/tmp/kh".into(),
    });
    assert_eq!(app.link.id, 11);
    assert!(app.status_message.contains("HOST KEY MISMATCH"));
    // Subsequent Disconnected for id 10 must not clobber the banner.
    app.handle_app_event(AppEvent::Disconnected { id: 10, reason: Some("abort".into()) });
    assert!(app.status_message.contains("HOST KEY MISMATCH"));
}

#[test]
fn delete_lower_index_decrements_connected_entry() {
    let mut app = test_app(two_entries());
    app.book.selected = 1;
    simulate_connected(&mut app, 1, None);
    assert_eq!(app.book.connected, Some(1));

    // Suspend, select first entry, confirm delete.
    app.state = AppState::AddressBook;
    app.book.selected = 0;
    app.popup = Some(Popup::DeleteConfirm);
    app.handle_crossterm_event(key(KeyCode::Char('y')));

    assert_eq!(app.book.entries.len(), 1);
    assert_eq!(app.book.entries[0].name, "second");
    assert_eq!(
        app.book.connected,
        Some(0),
        "connected index must slide down with the live entry"
    );
    assert!(app.link.open, "session for the remaining entry must stay live");
}

#[test]
fn delete_connected_entry_tears_down_session() {
    let mut app = test_app(two_entries());
    app.book.selected = 0;
    simulate_connected(&mut app, 1, None);
    let id_before = app.link.id;

    app.state = AppState::AddressBook;
    app.book.selected = 0;
    app.popup = Some(Popup::DeleteConfirm);
    let effects = app.handle_crossterm_event(key(KeyCode::Char('y')));

    assert_eq!(app.book.connected, None);
    assert!(!app.link.open);
    assert_eq!(app.link.id, id_before.wrapping_add(1));
    assert_eq!(app.book.entries.len(), 1);
    assert_eq!(app.book.entries[0].name, "second");
    assert_eq!(effects.len(), 2);
    assert!(matches!(effects[0], Effect::StopTasks));
    assert!(matches!(effects[1], Effect::SaveEntries));
}

#[test]
fn cancel_connection_fires_cancellation_token() {
    let mut app = test_app(vec![sample_entry()]);
    app.link.open = true;
    app.link.tasks_running = true;
    app.link.id = 3;

    let effects = app.cancel_connection();

    assert_eq!(effects.len(), 2);
    assert!(matches!(effects[0], Effect::Send(ConnectionCommand::Disconnect)));
    assert!(matches!(effects[1], Effect::StopTasks));
    assert!(!app.link.tasks_running);
    assert!(!app.link.open);
}

#[test]
fn delete_higher_index_leaves_connected_entry_unchanged() {
    let mut app = test_app(two_entries());
    app.book.selected = 0;
    simulate_connected(&mut app, 1, None);
    assert_eq!(app.book.connected, Some(0));

    app.state = AppState::AddressBook;
    app.book.selected = 1; // delete the *other* entry
    app.popup = Some(Popup::DeleteConfirm);
    app.handle_crossterm_event(key(KeyCode::Char('y')));

    assert_eq!(app.book.entries.len(), 1);
    assert_eq!(app.book.entries[0].name, "first");
    assert_eq!(app.book.connected, Some(0));
    assert!(app.link.open);
}

#[test]
fn enter_on_connected_entry_resumes_suspended_session() {
    let mut app = test_app(vec![sample_entry()]);
    simulate_connected(&mut app, 1, None);
    app.state = AppState::AddressBook; // suspended
    app.book.selected = 0;
    assert_eq!(app.book.connected, Some(0));

    app.handle_crossterm_event(key(KeyCode::Enter));

    assert_eq!(app.state, AppState::Connected);
    assert!(app.link.open);
    assert!(app.status_message.contains("Connected"));
}

#[test]
fn char_mode_forwards_ctrl_c_and_ctrl_d_to_remote() {
    let mut app = test_app(vec![sample_entry()]);
    simulate_connected(&mut app, 1, None);
    app.input_mode = InputMode::Character;

    let mut sent = raw(&app.handle_crossterm_event(ctrl('c')));
    sent.extend(raw(&app.handle_crossterm_event(ctrl('d'))));

    assert_eq!(sent, vec![vec![0x03], vec![0x04]]);
    assert!(!app.should_quit());
    assert_eq!(app.state, AppState::Connected);
    assert!(app.link.open);
}

#[test]
fn line_mode_ctrl_d_disconnects() {
    let mut app = test_app(vec![sample_entry()]);
    simulate_connected(&mut app, 1, None);
    assert_eq!(app.input_mode, InputMode::LineBuffered);

    app.handle_crossterm_event(ctrl('d'));

    assert_eq!(app.state, AppState::AddressBook);
    assert!(!app.link.open);
    assert_eq!(app.book.connected, None);
}

#[test]
fn line_mode_ctrl_c_quits() {
    let mut app = test_app(vec![sample_entry()]);
    simulate_connected(&mut app, 1, None);
    app.input_mode = InputMode::LineBuffered;

    app.handle_crossterm_event(ctrl('c'));

    assert!(app.should_quit());
}

#[test]
fn chord_q_quits_from_character_mode() {
    let mut app = test_app(vec![sample_entry()]);
    simulate_connected(&mut app, 1, None);
    app.input_mode = InputMode::Character;

    // Ctrl+] then q
    app.handle_crossterm_event(ctrl(']'));
    assert_eq!(app.chord, ChordMode::Awaiting);
    app.handle_crossterm_event(key(KeyCode::Char('q')));

    assert!(app.should_quit());
    assert!(!app.link.open);
}

#[test]
fn paste_into_line_mode_appends_to_input() {
    let mut app = test_app(vec![sample_entry()]);
    simulate_connected(&mut app, 1, None);
    app.input_mode = InputMode::LineBuffered;
    app.line.input = "pre".into();

    app.handle_crossterm_event(TerminalEvent::Paste("hello\nworld".into()));

    assert_eq!(app.line.input, "prehelloworld");
}

#[test]
fn paste_into_char_mode_sends_normalized_raw() {
    let mut app = test_app(vec![sample_entry()]);
    simulate_connected(&mut app, 1, None);
    app.input_mode = InputMode::Character;

    let effects = app.handle_crossterm_event(TerminalEvent::Paste("ab\r\ncd\nef".into()));

    let sent = raw(&effects);
    assert_eq!(sent.len(), 1);
    assert_eq!(sent[0], b"ab\r\ncd\r\nef".to_vec());
}

#[test]
fn paste_into_password_popup() {
    let mut app = test_app(vec![sample_entry()]);
    app.link.id = 1;
    app.handle_app_event(AppEvent::PasswordNeeded { id: 1 });

    app.handle_crossterm_event(TerminalEvent::Paste("s3cret\n".into()));

    match &app.popup {
        Some(Popup::Password(pw)) => assert_eq!(pw, "s3cret"),
        _ => panic!("expected password popup"),
    }
}
