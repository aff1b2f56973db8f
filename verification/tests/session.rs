use nerdterm::app::book::Book;
use nerdterm::app::line::LineEditor;
use nerdterm::app::typing::{crlf_bytes, drop_breaks, keep_digits, key_bytes};
use nerdterm::app::{App, AppState, ChordMode};
use nerdterm::config::address_book::LoadResult;
use nerdterm::config::capture::CaptureFile;
use nerdterm::config::settings::{LoadedSettings, Settings};
use nerdterm::entry::{AddressBookEntry, InputMode, Protocol};
use nerdterm::events::{AppEvent, ConnectionCommand, Effect};
use nerdterm::keys::{f_key_escape, Key, KeyCode, Modifiers, Mouse, TerminalEvent};
use nerdterm::network::ssh::LoginNames;
use nerdterm::network::telnet::TelnetFlags;
use nerdterm::popup::{EditSettingsPopup, Popup};
use std::sync::atomic::Ordering;
use std::sync::Arc;

fn entry(name: &str) -> AddressBookEntry {
    AddressBookEntry {
        name: name.into(),
        host: format!("{name}.example"),
        port: 23,
        protocol: Protocol::Telnet,
        username: None,
        terminal_type: None,
        default_input_mode: None,
    }
}

fn nobody() -> LoginNames {
    LoginNames { user: None, username: None }
}

fn app(names: &[&str]) -> App {
    App::start(
        names.iter().map(|n| entry(n)).collect(),
        Settings::default(),
        String::new(),
        nobody(),
    )
}

/// An application with a session on the first entry.
fn session(flags: Option<Arc<TelnetFlags>>) -> App {
    let mut a = app(&["one", "two"]);
    a.link.id = 1;
    a.handle_app_event(AppEvent::Connected { id: 1, telnet_flags: flags });
    a
}

fn plain(code: KeyCode) -> Key {
    Key { code, modifiers: Modifiers { shift: false, control: false, other: false } }
}

fn shifted(code: KeyCode) -> Key {
    Key { code, modifiers: Modifiers { shift: true, control: false, other: false } }
}

fn press(a: &mut App, code: KeyCode) -> Vec<Effect> {
    a.handle_crossterm_event(TerminalEvent::Key { key: plain(code), released: false })
}

fn press_ctrl(a: &mut App, c: char) -> Vec<Effect> {
    let modifiers = Modifiers { shift: false, control: true, other: false };
    let key = Key { code: KeyCode::Char(c), modifiers };
    a.handle_crossterm_event(TerminalEvent::Key { key, released: false })
}

fn type_in(a: &mut App, text: &str) {
    for c in text.chars() {
        press(a, KeyCode::Char(c));
    }
}

fn sent(effects: &[Effect]) -> Vec<Vec<u8>> {
    let mut out = Vec::new();
    for effect in effects {
        match effect {
            Effect::Send(ConnectionCommand::SendRaw(bytes)) => out.push(bytes.clone()),
            Effect::Send(ConnectionCommand::SendText(text)) => out.push(text.clone().into_bytes()),
            _ => {}
        }
    }
    out
}

#[test]
fn warnings_are_shown_one_per_line() {
    let made = |a: Option<&str>, b: Option<&str>, c: Option<&str>| {
        App::new(
            LoadResult { entries: vec![entry("one")], warning: a.map(String::from) },
            b.map(String::from),
            LoadedSettings { settings: Settings::default(), warning: c.map(String::from) },
            nobody(),
        )
    };
    assert_eq!(made(None, None, None).status_message, "");
    assert_eq!(made(Some("book"), None, Some("settings")).status_message, "book\nsettings");
    assert_eq!(made(None, Some("hosts"), None).status_message, "hosts");
    assert_eq!(made(Some("a"), Some("b"), Some("c")).status_message, "a\nb\nc");
    let fresh = made(None, None, None);
    assert_eq!(fresh.state, AppState::AddressBook);
    assert_eq!((fresh.width, fresh.height), (80, 24));
    assert_eq!(fresh.input_mode, InputMode::LineBuffered);
}

#[test]
fn connecting_asks_for_a_connection() {
    let mut a = app(&["one", "two"]);
    a.book.entries[1] = AddressBookEntry {
        port: 2222,
        protocol: Protocol::Ssh,
        username: Some(" alice ".into()),
        terminal_type: Some("vt100".into()),
        ..entry("two")
    };
    press(&mut a, KeyCode::Down);
    let effects = press(&mut a, KeyCode::Enter);
    assert_eq!(a.state, AppState::Connecting);
    assert_eq!(a.status_message, "Connecting to two as alice...");
    assert_eq!(a.input_mode, InputMode::Character);
    assert_eq!(effects.len(), 1);
    match &effects[0] {
        Effect::Connect(r) => {
            assert_eq!((r.id, r.port, r.cols, r.rows), (1, 2222, 80, 23));
            assert_eq!(r.protocol, Protocol::Ssh);
            assert_eq!(r.host, "two.example");
            assert_eq!(r.username.as_deref(), Some(" alice "));
            assert_eq!(r.terminal_type, "vt100");
        }
        _ => panic!("expected a connection"),
    }
    press(&mut a, KeyCode::Esc);
    assert_eq!(a.status_message, "Connection cancelled");
    press(&mut a, KeyCode::Up);
    let again = press(&mut a, KeyCode::Enter);
    assert_eq!(a.status_message, "Connecting to one...");
    assert!(matches!(&again[0], Effect::Connect(r)
        if r.id == 3 && r.rows == 20 && r.terminal_type == "xterm-256color"));
}

#[test]
fn a_second_connection_ends_the_first() {
    let mut a = session(None);
    press(&mut a, KeyCode::Esc);
    press(&mut a, KeyCode::Down);
    let effects = press(&mut a, KeyCode::Enter);
    assert_eq!(effects.len(), 3);
    assert!(matches!(effects[0], Effect::Send(ConnectionCommand::Disconnect)));
    assert!(matches!(effects[1], Effect::StopTasks));
    assert!(matches!(effects[2], Effect::Connect(_)));
}

#[test]
fn the_hint_on_local_commands_is_shown_once() {
    let mut a = session(None);
    assert_eq!(a.status_message, "Connected to one — Press Ctrl+] ? for commands.");
    a.handle_app_event(AppEvent::Connected { id: 1, telnet_flags: None });
    assert_eq!(a.status_message, "Connected to one");
}

#[test]
fn a_suspended_session_still_draws_and_answers() {
    let mut a = session(None);
    press(&mut a, KeyCode::Esc);
    assert_eq!(
        a.status_message,
        "Session suspended — one (Enter to resume, Ctrl+D to disconnect)",
    );
    let effects =
        a.handle_app_event(AppEvent::NetworkData { id: 1, data: b"hi\x1b[6n".to_vec() });
    assert_eq!(sent(&effects), [b"\x1b[1;3R".to_vec()]);
    assert_eq!(a.emulator.cursor_position(), (0, 2));
    let effects = press_ctrl(&mut a, 'd');
    assert_eq!(a.status_message, "Disconnected");
    assert!(matches!(effects[0], Effect::Send(ConnectionCommand::Disconnect)));
    assert_eq!(a.book.connected, None);
}

#[test]
fn lines_are_sent_echoed_and_remembered() {
    let flags = Arc::new(TelnetFlags::new());
    let mut a = session(Some(flags.clone()));
    type_in(&mut a, "look");
    let effects = press(&mut a, KeyCode::Enter);
    assert_eq!(sent(&effects), [b"look\r\n".to_vec()]);
    assert_eq!(a.emulator.cursor_position(), (1, 0));
    assert_eq!(a.line.input, "");
    type_in(&mut a, "look");
    press(&mut a, KeyCode::Enter);
    type_in(&mut a, "north");
    press(&mut a, KeyCode::Enter);
    press(&mut a, KeyCode::Enter);
    assert_eq!(a.line.history, ["look", "north"]);
    type_in(&mut a, "dra");
    press(&mut a, KeyCode::Backspace);
    press(&mut a, KeyCode::Up);
    assert_eq!(a.line.input, "north");
    press(&mut a, KeyCode::Up);
    press(&mut a, KeyCode::Up);
    assert_eq!(a.line.input, "look");
    press(&mut a, KeyCode::Down);
    press(&mut a, KeyCode::Down);
    assert_eq!(a.line.input, "dr");
    press(&mut a, KeyCode::Down);
    assert_eq!(a.line.input, "dr");

    flags.server_echo.store(true, Ordering::Relaxed);
    let before = a.emulator.cursor_position();
    press(&mut a, KeyCode::Enter);
    assert_eq!(a.emulator.cursor_position(), before);
}

#[test]
fn keys_in_character_mode_become_bytes() {
    let bytes = |code: KeyCode| key_bytes(3, plain(code)).send;
    assert_eq!(bytes(KeyCode::Char('ü')).as_deref(), Some("ü".as_bytes()));
    assert_eq!(bytes(KeyCode::Enter).as_deref(), Some(&b"\r\n"[..]));
    assert_eq!(bytes(KeyCode::Backspace).as_deref(), Some(&[0x7f][..]));
    assert_eq!(bytes(KeyCode::Up).as_deref(), Some(&b"\x1b[A"[..]));
    assert_eq!(bytes(KeyCode::Down).as_deref(), Some(&b"\x1b[B"[..]));
    assert_eq!(bytes(KeyCode::Right).as_deref(), Some(&b"\x1b[C"[..]));
    assert_eq!(bytes(KeyCode::Left).as_deref(), Some(&b"\x1b[D"[..]));
    assert_eq!(bytes(KeyCode::Home).as_deref(), Some(&b"\x1b[H"[..]));
    assert_eq!(bytes(KeyCode::End).as_deref(), Some(&b"\x1b[F"[..]));
    assert_eq!(bytes(KeyCode::PageUp).as_deref(), Some(&b"\x1b[5~"[..]));
    assert_eq!(bytes(KeyCode::PageDown).as_deref(), Some(&b"\x1b[6~"[..]));
    assert_eq!(bytes(KeyCode::Delete).as_deref(), Some(&b"\x1b[3~"[..]));
    assert_eq!(bytes(KeyCode::Insert).as_deref(), Some(&b"\x1b[2~"[..]));
    assert_eq!(bytes(KeyCode::F(5)).as_deref(), Some(&b"\x1b[15~"[..]));
    assert_eq!(bytes(KeyCode::Esc), None);
    assert_eq!(bytes(KeyCode::Other), None);
    assert_eq!(key_bytes(0, plain(KeyCode::Backspace)).send, None);
    let control = Modifiers { shift: false, control: true, other: false };
    let ctrl = |c: char| key_bytes(3, Key { code: KeyCode::Char(c), modifiers: control }).send;
    assert_eq!(ctrl('a').as_deref(), Some(&[1][..]));
    assert_eq!(ctrl('Z').as_deref(), Some(&[26][..]));
    assert_eq!(ctrl('1'), None);
}

#[test]
fn function_keys_have_their_sequences() {
    let expected: [&[u8]; 12] = [
        b"\x1bOP", b"\x1bOQ", b"\x1bOR", b"\x1bOS", b"\x1b[15~", b"\x1b[17~", b"\x1b[18~",
        b"\x1b[19~", b"\x1b[20~", b"\x1b[21~", b"\x1b[23~", b"\x1b[24~",
    ];
    for (i, bytes) in expected.iter().enumerate() {
        assert_eq!(f_key_escape(i as u8 + 1), *bytes);
    }
    assert!(f_key_escape(0).is_empty());
    assert!(f_key_escape(13).is_empty());
}

#[test]
fn typed_characters_are_echoed_until_the_server_does() {
    let flags = Arc::new(TelnetFlags::new());
    let mut a = session(Some(flags.clone()));
    press(&mut a, KeyCode::Tab);
    type_in(&mut a, "ab");
    assert_eq!(a.emulator.cursor_position(), (0, 2));
    press(&mut a, KeyCode::Backspace);
    assert_eq!(a.emulator.cursor_position(), (0, 1));
    assert_eq!(a.char_input_len, 1);
    flags.server_echo.store(true, Ordering::Relaxed);
    type_in(&mut a, "c");
    assert_eq!(a.emulator.cursor_position(), (0, 1));
    assert!(!a.needs_local_echo(true));
    assert!(a.needs_local_echo(false));
    assert!(!session(None).needs_local_echo(false));
}

#[test]
fn pastes_are_cleaned_up() {
    assert_eq!(drop_breaks("a\r\nb\nc\r"), "abc");
    assert_eq!(keep_digits("1 000\n2x"), "10002");
    assert_eq!(crlf_bytes("a\rb\nc\r\nd\n\re"), b"a\r\nb\r\nc\r\nd\r\n\r\ne");
    let mut a = app(&["one"]);
    press(&mut a, KeyCode::Char('s'));
    a.handle_crossterm_event(TerminalEvent::Paste("12 a3\n".into()));
    match &a.popup {
        Some(Popup::EditSettings(p)) => assert_eq!(p.scrollback_input, "1000123"),
        _ => panic!("expected settings"),
    }
    press(&mut a, KeyCode::Esc);
    press(&mut a, KeyCode::Char('a'));
    a.handle_crossterm_event(TerminalEvent::Paste("my\nhost".into()));
    match &a.popup {
        Some(Popup::Form(f)) => assert_eq!(f.name, "myhost"),
        _ => panic!("expected a form"),
    }
    let effects = session(None).handle_crossterm_event(TerminalEvent::Paste(String::new()));
    assert!(effects.is_empty());
}

#[test]
fn the_wheel_and_the_page_keys_scroll() {
    let mut a = session(None);
    a.handle_crossterm_event(TerminalEvent::Mouse(Mouse::ScrollUp));
    assert_eq!(a.emulator.scroll_offset(), 3);
    press(&mut a, KeyCode::PageUp);
    assert_eq!(a.emulator.scroll_offset(), 13);
    a.handle_crossterm_event(TerminalEvent::Mouse(Mouse::ScrollDown));
    assert_eq!(a.emulator.scroll_offset(), 10);
    press(&mut a, KeyCode::PageDown);
    assert_eq!(a.emulator.scroll_offset(), 0);
    press(&mut a, KeyCode::Tab);
    let key = shifted(KeyCode::PageUp);
    let effects = a.handle_crossterm_event(TerminalEvent::Key { key, released: false });
    assert!(effects.is_empty());
    assert_eq!(a.emulator.scroll_offset(), 10);
    let mut book = app(&["one"]);
    book.handle_crossterm_event(TerminalEvent::Mouse(Mouse::ScrollUp));
    assert_eq!(book.emulator.scroll_offset(), 0);
}

#[test]
fn keys_that_are_let_go_do_nothing() {
    let mut a = session(None);
    a.chord = ChordMode::Awaiting;
    let key = plain(KeyCode::Char('q'));
    let effects = a.handle_crossterm_event(TerminalEvent::Key { key, released: true });
    assert!(effects.is_empty());
    assert_eq!(a.chord, ChordMode::Awaiting);
    assert!(!a.should_quit());
    assert!(a.handle_crossterm_event(TerminalEvent::Other).is_empty());
}

#[test]
fn local_commands_are_not_sent() {
    let mut a = session(None);
    press(&mut a, KeyCode::Tab);
    assert!(press_ctrl(&mut a, '5').is_empty());
    assert_eq!(a.status_message, "Ctrl+] (waiting for command — ? for help)");
    assert!(press(&mut a, KeyCode::Char('x')).is_empty());
    assert_eq!(a.chord, ChordMode::Normal);
    press_ctrl(&mut a, ']');
    press(&mut a, KeyCode::Char('?'));
    assert!(matches!(a.popup, Some(Popup::ChordHelp)));
    assert!(press(&mut a, KeyCode::Char('z')).is_empty());
    assert!(a.popup.is_none());
}

#[test]
fn a_capture_is_opened_counted_and_closed() {
    let mut a = session(None);
    press_ctrl(&mut a, ']');
    let effects = press(&mut a, KeyCode::Char('l'));
    assert!(matches!(&effects[0], Effect::OpenCapture { entry_name, host, port: 23 }
        if entry_name == "one" && host == "one.example"));
    a.capture_opened(CaptureFile::new("/l/one.log".into(), "# header\n"));
    assert_eq!(a.status_message, "Capture started → /l/one.log");
    let effects = a.handle_app_event(AppEvent::NetworkData { id: 1, data: b"abc".to_vec() });
    match effects.last() {
        Some(Effect::WriteCapture(data)) => {
            assert_eq!(data, b"abc");
            a.capture_written(data);
        }
        _ => panic!("expected a write"),
    }
    press_ctrl(&mut a, ']');
    let effects = press(&mut a, KeyCode::Char('L'));
    assert!(matches!(effects[0], Effect::CloseCapture));
    assert_eq!(a.status_message, "Capture stopped: saved 12 bytes → /l/one.log");
    assert!(a.capture.is_none());
}

#[test]
fn captures_that_fail_say_so() {
    let mut a = session(None);
    a.capture_not_opened("disk full");
    assert_eq!(a.status_message, "Capture failed: disk full");
    a.capture_opened(CaptureFile::new("/l".into(), "hdr"));
    a.capture_write_failed("disk full");
    assert_eq!(a.status_message, "Capture failed: disk full; saved 3 bytes → /l");
    assert!(a.capture.is_none());
    a.capture_opened(CaptureFile::new("/l".into(), "hdr"));
    let effects = a.handle_app_event(AppEvent::Disconnected { id: 1, reason: Some("bye".into()) });
    assert_eq!(a.status_message, "Capture stopped (disconnected): saved 3 bytes → /l");
    assert_eq!(effects.len(), 2);
    assert!(matches!(effects[1], Effect::CloseCapture));
    a.toggle_capture();
    assert_eq!(a.status_message, "Capture: no active connection");
    a.book.connected = Some(9);
    a.toggle_capture();
    assert_eq!(a.status_message, "Capture: connected entry vanished");
}

#[test]
fn a_lost_connection_says_why() {
    let mut a = session(None);
    let effects = a.handle_app_event(AppEvent::Disconnected { id: 1, reason: None });
    assert_eq!(a.status_message, "Disconnected");
    assert!(matches!(effects[0], Effect::ForgetTasks));
    let mut b = session(None);
    b.handle_app_event(AppEvent::Disconnected { id: 1, reason: Some("reset".into()) });
    assert_eq!(b.status_message, "Disconnected: reset");
}

#[test]
fn passwords_are_answered_or_withheld() {
    let mut a = app(&["one"]);
    a.link.id = 4;
    let effects = a.handle_app_event(AppEvent::PasswordNeeded { id: 4 });
    assert!(matches!(effects[0], Effect::Accept));
    assert_eq!(a.status_message, "SSH password required");
    type_in(&mut a, "s3crets");
    press(&mut a, KeyCode::Backspace);
    let effects = press(&mut a, KeyCode::Enter);
    assert_eq!(effects.len(), 1);
    assert!(matches!(&effects[0], Effect::AnswerPassword(p) if p == "s3cret"));
    assert!(a.popup.is_none());
    a.popup = Some(Popup::Password("again".into()));
    assert!(press(&mut a, KeyCode::Enter).is_empty());
    a.handle_app_event(AppEvent::PasswordNeeded { id: 4 });
    let effects = press(&mut a, KeyCode::Esc);
    assert!(matches!(effects[0], Effect::DropPassword));
    assert!(a.popup.is_none());
}

#[test]
fn host_keys_are_trusted_by_the_user() {
    let mut a = app(&["one"]);
    a.link.id = 4;
    let ask = |a: &mut App| {
        a.handle_app_event(AppEvent::HostKeyTrustNeeded {
            id: 4,
            host: "h".into(),
            port: 22,
            key_type: "ssh-ed25519".into(),
            fingerprint: "SHA256:abc".into(),
        })
    };
    assert!(matches!(ask(&mut a)[0], Effect::Accept));
    assert_eq!(a.status_message, "Verify host key for h:22");
    assert!(press(&mut a, KeyCode::Enter).is_empty());
    assert!(matches!(a.popup, Some(Popup::HostKeyTrust(_))));
    assert!(matches!(press(&mut a, KeyCode::Char('Y'))[0], Effect::AnswerHostKey(true)));
    assert!(a.popup.is_none());
    ask(&mut a);
    assert!(matches!(press(&mut a, KeyCode::Esc)[0], Effect::AnswerHostKey(false)));
}

#[test]
fn the_mismatch_banner_reads_in_full() {
    let mut a = app(&["one"]);
    a.handle_app_event(AppEvent::HostKeyMismatch {
        id: 0,
        host: "h".into(),
        port: 22,
        key_type: "ssh-rsa".into(),
        stored_fingerprint: "a".into(),
        received_fingerprint: "b".into(),
        file_path: "/kh".into(),
    });
    assert_eq!(
        a.status_message,
        "HOST KEY MISMATCH for h:22 (ssh-rsa)\n  stored:   a\n  received: b\n\
         This could be a man-in-the-middle attack, or the server's key\n\
         was rotated. To accept the new key, edit:\n  /kh\n\
         and remove the [[hosts]] entry with key_type = \"ssh-rsa\".",
    );
}

#[test]
fn entries_are_added_edited_and_deleted() {
    let mut a = app(&["one"]);
    press(&mut a, KeyCode::Char('a'));
    assert!(press(&mut a, KeyCode::Enter).is_empty());
    assert_eq!(
        a.status_message,
        "Invalid entry (name, host required; port must be a number)",
    );
    type_in(&mut a, "two");
    press(&mut a, KeyCode::Tab);
    type_in(&mut a, "h2");
    let effects = press(&mut a, KeyCode::Enter);
    assert!(matches!(effects[0], Effect::SaveEntries));
    assert_eq!(a.status_message, "Added 'two'");
    assert_eq!(a.book.selected, 1);
    assert_eq!(a.book.entries[1].host, "h2");

    press(&mut a, KeyCode::Char('e'));
    type_in(&mut a, "!");
    press(&mut a, KeyCode::Down);
    press(&mut a, KeyCode::Down);
    press(&mut a, KeyCode::Down);
    press(&mut a, KeyCode::Char(' '));
    press(&mut a, KeyCode::Enter);
    assert_eq!(a.status_message, "Updated 'two!'");
    assert_eq!(a.book.entries[1].protocol, Protocol::Ssh);
    assert_eq!(a.book.entries[1].port, 22);

    press(&mut a, KeyCode::Char('d'));
    assert!(press(&mut a, KeyCode::Char('n')).is_empty());
    assert_eq!(a.book.entries.len(), 2);
    press(&mut a, KeyCode::Char('D'));
    press(&mut a, KeyCode::Char('Y'));
    assert_eq!(a.status_message, "Deleted 'two!'");
    assert_eq!(a.book.selected, 0);
    a.entries_not_saved("denied");
    assert_eq!(a.status_message, "Failed to save: denied");
}

#[test]
fn settings_hold_once_they_are_saved() {
    let mut a = app(&["one"]);
    press(&mut a, KeyCode::Char('S'));
    type_in(&mut a, "0");
    press(&mut a, KeyCode::Tab);
    press(&mut a, KeyCode::Char(' '));
    let effects = press(&mut a, KeyCode::Enter);
    assert_eq!(effects.len(), 1);
    a.settings_not_saved("denied");
    match &a.popup {
        Some(Popup::EditSettings(p)) => {
            assert_eq!(p.error.as_deref(), Some("Could not save settings: denied"));
        }
        _ => panic!("expected settings"),
    }
    assert_eq!(a.settings.scrollback_lines, 1000);
    for effect in press(&mut a, KeyCode::Enter) {
        if let Effect::SaveSettings(s) = effect {
            a.settings_saved(s);
        }
    }
    assert!(a.popup.is_none());
    assert_eq!(a.settings.scrollback_lines, 10000);
    assert_eq!(a.settings.default_input_mode, InputMode::Character);
}

#[test]
fn settings_out_of_range_are_refused() {
    let mut a = app(&["one"]);
    let mut p = EditSettingsPopup::from_settings(&a.settings);
    p.scrollback_input = "100001".into();
    a.popup = Some(Popup::EditSettings(p));
    assert!(press(&mut a, KeyCode::Enter).is_empty());
    match &a.popup {
        Some(Popup::EditSettings(p)) => assert_eq!(
            p.error.as_deref(),
            Some("Scrollback must be a number between 0 and 100,000."),
        ),
        _ => panic!("expected settings"),
    }
}

#[test]
fn the_selection_goes_round() {
    let mut book = Book::new(vec![entry("a"), entry("b"), entry("c")]);
    book.select_previous();
    assert_eq!(book.selected, 2);
    book.select_next();
    assert_eq!(book.selected, 0);
    assert_eq!(book.selected_name(), "a");
    let mut empty = Book::new(Vec::new());
    empty.select_next();
    empty.select_previous();
    assert_eq!(empty.selected, 0);
    assert_eq!(empty.selected_name(), "unknown");
    let mut a = app(&["one", "two"]);
    press(&mut a, KeyCode::Char('k'));
    assert_eq!(a.book.selected, 1);
    press(&mut a, KeyCode::Char('j'));
    assert_eq!(a.book.selected, 0);
}

#[test]
fn the_line_editor_keeps_no_repeats() {
    let mut line = LineEditor::new();
    for text in ["a", "a", "", "b", "a"] {
        line.type_text(text);
        line.submit();
    }
    assert_eq!(line.history, ["a", "b", "a"]);
    line.backspace();
    assert_eq!(line.input, "");
    line.type_char('x');
    line.clear();
    assert_eq!(line.input, "");
}

#[test]
fn output_comes_back_where_it_may_not_be_drawn() {
    let mut a = session(None);
    let data = |id: u64| AppEvent::NetworkData { id, data: b"x".to_vec() };
    assert!(a.offer_app_event(data(1)).is_ok());
    assert_eq!(a.emulator.cursor_position(), (0, 1));
    a.handle_crossterm_event(TerminalEvent::Resize(80, 3));
    assert!(matches!(a.offer_app_event(data(7)), Ok(effects) if effects.is_empty()));
    match a.offer_app_event(data(1)) {
        Err(AppEvent::NetworkData { id: 1, data }) => assert_eq!(data, b"x"),
        _ => panic!("expected the event back"),
    }
    assert_eq!(a.emulator.cursor_position(), (0, 1));
    a.handle_app_event(data(1));
    assert_eq!(a.emulator.cursor_position(), (0, 2));
}

#[test]
fn the_screen_and_its_scrollback_survive_a_narrower_window() {
    let mut a = session(None);
    let stars = "\u{2605} \u{65e5}\r\n".repeat(40);
    a.handle_app_event(AppEvent::NetworkData { id: 1, data: stars.into_bytes() });
    a.handle_crossterm_event(TerminalEvent::Resize(79, 24));
    a.handle_app_event(AppEvent::NetworkData { id: 1, data: b"end".to_vec() });
    assert_eq!(a.emulator.cursor_position(), (19, 3));
    a.emulator.scroll_up(15);
    let guard = a.emulator.scroll_view();
    assert_eq!(guard.emulator.scroll_offset(), 15);
    assert_eq!(guard.screen().contents().lines().next(), Some("\u{2605} \u{65e5}"));
}

#[test]
fn events_that_do_not_fit_are_told() {
    let mut a = session(Some(Arc::new(TelnetFlags::new())));
    let key = |code: KeyCode| TerminalEvent::Key { key: plain(code), released: false };
    let wheel = || TerminalEvent::Mouse(Mouse::ScrollUp);
    assert!(a.takes_terminal_event(&key(KeyCode::Enter)));
    assert!(matches!(a.offer_terminal_event(key(KeyCode::Enter)), Ok(e) if e.len() == 1));
    a.handle_crossterm_event(TerminalEvent::Resize(2, 24));
    assert!(a.takes_terminal_event(&key(KeyCode::Enter)));
    assert!(matches!(
        a.offer_terminal_event(key(KeyCode::Enter)),
        Err(TerminalEvent::Key { key: k, released: false }) if k == plain(KeyCode::Enter)
    ));
    assert!(matches!(a.offer_terminal_event(key(KeyCode::Char('x'))), Ok(e) if e.is_empty()));
    assert_eq!(a.line.input, "x");
    a.emulator.scroll_up(usize::MAX - 5);
    assert!(a.takes_terminal_event(&wheel()));
    assert!(!a.takes_terminal_event(&key(KeyCode::PageUp)));
    assert!(a.offer_terminal_event(key(KeyCode::PageUp)).is_err());
    a.emulator.scroll_up(3);
    assert!(!a.takes_terminal_event(&wheel()));
    press(&mut a, KeyCode::Tab);
    assert!(a.offer_terminal_event(TerminalEvent::Paste("x".into())).is_err());
    assert!(a.offer_terminal_event(TerminalEvent::Paste(String::new())).is_ok());
    assert!(a.offer_terminal_event(key(KeyCode::Backspace)).is_ok());
    assert!(a.offer_terminal_event(key(KeyCode::Char('x'))).is_err());
    let mut b = app(&["one"]);
    b.link.id = u64::MAX;
    assert!(!b.takes_terminal_event(&key(KeyCode::Enter)));
    assert!(b.takes_terminal_event(&TerminalEvent::Other));
}

#[test]
fn quitting_ends_the_session() {
    let mut a = session(None);
    press(&mut a, KeyCode::Esc);
    let effects = press(&mut a, KeyCode::Char('q'));
    assert!(a.should_quit());
    assert!(matches!(effects[0], Effect::Send(ConnectionCommand::Disconnect)));
    assert!(matches!(effects[1], Effect::StopTasks));
    let mut b = app(&["one"]);
    assert!(press(&mut b, KeyCode::Esc).is_empty());
    assert!(b.should_quit());
}
