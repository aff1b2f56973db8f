use nerdterm::app::typing::crlf_bytes;
use nerdterm::app::{App, AppState};
use nerdterm::config::settings::Settings;
use nerdterm::entry::{AddressBookEntry, InputMode, Protocol};
use nerdterm::events::{AppEvent, ConnectionCommand, Effect};
use nerdterm::keys::{Key, KeyCode, Modifiers, TerminalEvent};
use nerdterm::network::ssh::LoginNames;
use nerdterm::network::telnet::{FlagChange, TelnetFlags};
use nerdterm::popup::{FormPopup, PopupField};
use nerdterm::terminal::ansi_query::{AnsiQuery, AnsiQueryScanner};
use std::sync::Arc;

fn entry() -> AddressBookEntry {
    AddressBookEntry {
        name: "one".into(),
        host: "h".into(),
        port: 4000,
        protocol: Protocol::Telnet,
        username: Some("me".into()),
        terminal_type: Some("rxvt".into()),
        default_input_mode: Some(InputMode::Character),
    }
}

fn session() -> App {
    session_with(None)
}

fn session_with(telnet_flags: Option<Arc<TelnetFlags>>) -> App {
    let mut app = App::start(
        vec![AddressBookEntry { default_input_mode: None, terminal_type: None, ..entry() }],
        Settings::default(),
        String::new(),
        LoginNames { user: None, username: None },
    );
    app.link.id = 1;
    app.handle_app_event(AppEvent::Connected { id: 1, telnet_flags });
    app
}

fn press(app: &mut App, code: KeyCode) -> Vec<Effect> {
    let modifiers = Modifiers { shift: false, control: false, other: false };
    app.handle_crossterm_event(TerminalEvent::Key { key: Key { code, modifiers }, released: false })
}

#[test]
fn typed_lines_go_out_whole() {
    let mut app = session();
    app.line.input = "say ".into();
    for c in "hello, wörld".chars() {
        assert!(press(&mut app, KeyCode::Char(c)).is_empty());
    }
    let effects = press(&mut app, KeyCode::Enter);
    assert_eq!(effects.len(), 1);
    assert!(matches!(&effects[0], Effect::Send(ConnectionCommand::SendText(t))
        if t == "say hello, wörld\r\n"));
    assert_eq!(app.line.input, "");
}

#[test]
fn normalised_pastes_are_sent_as_they_are() {
    for text in ["", "plain", "a\r\nb\r\n", "\r\n\r\n"] {
        assert_eq!(crlf_bytes(text), text.as_bytes());
    }
    let once = crlf_bytes("a\rb\n\nc\r\n\r");
    assert_eq!(crlf_bytes(std::str::from_utf8(&once).unwrap()), once);
}

#[test]
fn new_settings_wait_for_the_next_connection() {
    let mut app = session();
    app.emulator.process(b"hello");
    app.settings_saved(Settings {
        scrollback_lines: 5,
        default_input_mode: InputMode::Character,
        terminal_type: "vt220".into(),
    });
    assert_eq!(app.state, AppState::Connected);
    assert_eq!(app.input_mode, InputMode::LineBuffered);
    assert_eq!(app.emulator.cursor_position(), (0, 5));
    let effects = app.connect();
    assert!(matches!(effects.last(), Some(Effect::Connect(r)) if r.terminal_type == "vt220"));
    assert_eq!(app.input_mode, InputMode::Character);
    for _ in 0..50 {
        app.emulator.process(b"x\r\n");
    }
    app.emulator.scroll_up(40);
    drop(app.emulator.scroll_view());
    assert_eq!(app.emulator.scroll_offset(), 5);
}

#[test]
fn suspending_and_resuming_changes_nothing_but_the_status() {
    let mut app = session();
    app.line.input = "half".into();
    press(&mut app, KeyCode::Esc);
    press(&mut app, KeyCode::Enter);
    assert_eq!(app.state, AppState::Connected);
    assert_eq!(app.line.input, "half");
    assert_eq!(app.link.id, 1);
    assert!(app.link.open);
}

#[test]
fn a_telnet_session_keeps_its_flags_while_it_is_suspended() {
    let flags = Arc::new(TelnetFlags::new());
    let mut app = session_with(Some(flags.clone()));
    assert!(Arc::ptr_eq(app.link.telnet_flags.as_ref().unwrap(), &flags));
    assert!(press(&mut app, KeyCode::Esc).is_empty());
    assert_eq!(app.state, AppState::AddressBook);
    assert!(Arc::ptr_eq(app.link.telnet_flags.as_ref().unwrap(), &flags));
    assert!(press(&mut app, KeyCode::Enter).is_empty());
    assert_eq!(app.state, AppState::Connected);
    assert!(Arc::ptr_eq(app.link.telnet_flags.as_ref().unwrap(), &flags));
    assert!(!app.link.server_echo());
    flags.apply(FlagChange::ServerEcho(true));
    assert!(app.link.server_echo());
}

#[test]
fn stale_events_leave_the_flags_alone() {
    let flags = Arc::new(TelnetFlags::new());
    let mut app = session_with(Some(flags.clone()));
    let other = Some(Arc::new(TelnetFlags::new()));
    assert!(app.handle_app_event(AppEvent::Connected { id: 9, telnet_flags: other }).is_empty());
    assert!(app.handle_app_event(AppEvent::Disconnected { id: 9, reason: None }).is_empty());
    assert_eq!(app.state, AppState::Connected);
    assert!(Arc::ptr_eq(app.link.telnet_flags.as_ref().unwrap(), &flags));
}

#[test]
fn what_is_typed_is_drawn_until_the_server_echoes() {
    let flags = Arc::new(TelnetFlags::new());
    let mut app = session_with(Some(flags.clone()));
    press(&mut app, KeyCode::Tab);
    press(&mut app, KeyCode::Char('a'));
    assert_eq!(app.emulator.cursor_position(), (0, 1));
    flags.apply(FlagChange::ServerEcho(true));
    press(&mut app, KeyCode::Char('b'));
    assert_eq!(app.emulator.cursor_position(), (0, 1));
    flags.apply(FlagChange::ServerEcho(false));
    press(&mut app, KeyCode::Char('c'));
    assert_eq!(app.emulator.cursor_position(), (0, 2));
}

#[test]
fn editing_without_a_change_keeps_the_entry() {
    let kept = FormPopup::new_edit(&entry()).to_entry().unwrap();
    assert_eq!(kept.name, "one");
    assert_eq!(kept.port, 4000);
    assert_eq!(kept.username.as_deref(), Some("me"));
    assert_eq!(kept.terminal_type.as_deref(), Some("rxvt"));
    assert_eq!(kept.default_input_mode, Some(InputMode::Character));
}

#[test]
fn typing_and_erasing_leaves_a_field_as_it_was() {
    let mut form = FormPopup::new_edit(&entry());
    for field in [PopupField::Name, PopupField::Host, PopupField::Port, PopupField::Username] {
        form.focused = field;
        form.type_char('ü');
        form.backspace();
    }
    form.type_text("");
    assert_eq!(
        (form.name.as_str(), form.host.as_str(), form.port_str.as_str(), form.username.as_str()),
        ("one", "h", "4000", "me"),
    );
    form.focused = PopupField::Name;
    form.type_text("-two");
    assert_eq!(form.name, "one-two");
}

#[test]
fn a_query_split_anywhere_is_found_where_it_ends() {
    let stream = b"x\x1b[6ny\x1b[c";
    for cut in 0..=stream.len() {
        let mut scanner = AnsiQueryScanner::new();
        let mut found: Vec<(AnsiQuery, usize)> =
            scanner.detect(&stream[..cut]).iter().map(|d| (d.query, d.end)).collect();
        found.extend(scanner.detect(&stream[cut..]).iter().map(|d| (d.query, d.end + cut)));
        assert_eq!(
            found,
            [
                (AnsiQuery::CursorPositionReport, 5),
                (AnsiQuery::PrimaryDeviceAttributes, 9),
            ],
        );
    }
}
