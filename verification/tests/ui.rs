use nerdterm::app::App;
use nerdterm::config::capture::CaptureFile;
use nerdterm::config::settings::Settings;
use nerdterm::entry::{AddressBookEntry, InputMode, Protocol};
use nerdterm::network::ssh::LoginNames;
use nerdterm::popup::{EditSettingsPopup, FormMode, FormPopup, HostKeyTrustPopup};
use nerdterm::ui::address_book::{
    format_entry_line, list_rows, menu_items, status_height, status_is_left_aligned,
};
use nerdterm::ui::popup::{
    centered_rect, chord_help_lines, delete_confirm_lines, form_field_views, form_title,
    host_key_trust_lines, password_field, settings_field_views, SETTINGS_LABEL_WIDTH,
};
use nerdterm::ui::terminal_view::{
    bar_heights, capture_badge, input_cursor_column, input_line, status_line,
};
use nerdterm::ui::{Area, TextLine, Tone};

fn entry(name: &str) -> AddressBookEntry {
    AddressBookEntry {
        name: name.into(),
        host: "h".into(),
        port: 23,
        protocol: Protocol::Telnet,
        username: None,
        terminal_type: None,
        default_input_mode: None,
    }
}

fn app(names: &[&str]) -> App {
    App::start(
        names.iter().map(|n| entry(n)).collect(),
        Settings::default(),
        String::new(),
        LoginNames { user: None, username: None },
    )
}

fn text(line: &TextLine) -> String {
    line.segments.iter().map(|s| s.text.as_str()).collect()
}

#[test]
fn format_entry_line_marks_connected_and_protocol() {
    assert_eq!(
        format_entry_line(true, Protocol::Ssh, "modernbbs", "localhost", 2222),
        "* [SSH] modernbbs - localhost:2222"
    );
    assert_eq!(
        format_entry_line(false, Protocol::Telnet, "mud", "example.com", 4000),
        "  [TEL] mud - example.com:4000"
    );
}

#[test]
fn the_live_session_is_marked_in_the_list() {
    let mut a = app(&["one", "two"]);
    a.book.connected = Some(1);
    let rows = list_rows(&a);
    assert_eq!(rows.len(), 2);
    assert_eq!(rows[0].text, "  [TEL] one - h:23");
    assert!(!rows[0].connected);
    assert_eq!(rows[1].text, "* [TEL] two - h:23");
    assert!(rows[1].connected);
}

#[test]
fn the_menu_follows_the_session() {
    let mut a = app(&["one", "two"]);
    let labels = |a: &App| -> Vec<String> {
        menu_items(a).iter().map(|i| format!("{} {}", i.key, i.label)).collect()
    };
    assert_eq!(
        labels(&a),
        ["Enter Connect", "A Add", "E Edit", "D Delete", "S Settings", "Q Quit"],
    );
    a.book.connected = Some(0);
    assert_eq!(
        labels(&a),
        ["Enter Resume", "A Add", "E Edit", "D Delete", "S Settings", "^D Disconnect", "Q Quit"],
    );
    a.book.selected = 1;
    assert_eq!(labels(&a)[0], "Enter Connect");
}

#[test]
fn the_status_takes_as_many_rows_as_it_has_lines() {
    assert_eq!(status_height(""), 1);
    assert_eq!(status_height("one"), 3);
    assert_eq!(status_height("one\n"), 3);
    assert_eq!(status_height("one\ntwo"), 4);
    assert_eq!(status_height("1\n2\n3\n4\n5\n6\n7\n8"), 10);
    assert_eq!(status_height("1\n2\n3\n4\n5\n6\n7\n8\n9\n10"), 10);
    for s in ["a", "a\nb", "\n", "\n\n", "a\n\nb\n"] {
        assert_eq!(status_height(s), s.lines().count().clamp(1, 8) as u16 + 2, "{s:?}");
    }
    assert!(status_is_left_aligned("a\nb"));
    assert!(!status_is_left_aligned("ab"));
}

#[test]
fn popups_are_centred_and_cut_to_the_screen() {
    let screen = Area { x: 0, y: 0, width: 80, height: 24 };
    assert_eq!(centered_rect(40, 5, screen), Area { x: 20, y: 9, width: 40, height: 5 });
    let small = Area { x: 2, y: 3, width: 10, height: 4 };
    assert_eq!(centered_rect(40, 5, small), Area { x: 2, y: 3, width: 10, height: 4 });
    assert_eq!(centered_rect(5, 2, small), Area { x: 4, y: 4, width: 5, height: 2 });
    let far = Area { x: 65530, y: 65535, width: 12, height: 3 };
    assert_eq!(centered_rect(4, 3, far), Area { x: 65534, y: 65535, width: 4, height: 3 });
}

#[test]
fn popups_read_as_they_should() {
    let help: Vec<String> = chord_help_lines().iter().map(text).collect();
    assert_eq!(
        help,
        ["", "  l    Toggle session capture (log)", "  ?    This help", "", "  Esc or any key to dismiss"],
    );
    assert_eq!(chord_help_lines()[1].segments[1].tone, Tone::Key);
    let trust = HostKeyTrustPopup {
        host: "h".into(),
        port: 22,
        key_type: "ssh-ed25519".into(),
        fingerprint: "SHA256:abc".into(),
    };
    let question: Vec<String> = host_key_trust_lines(&trust).iter().map(text).collect();
    assert_eq!(
        question,
        [
            "The server at h:22 presented a key we haven't seen before:",
            "",
            "  Type:        ssh-ed25519",
            "  Fingerprint: SHA256:abc",
            "",
            "Trust and connect? [y/N]",
        ],
    );
    let delete: Vec<String> = delete_confirm_lines().iter().map(text).collect();
    assert_eq!(delete, ["Delete this entry?", " Y Yes   N No"]);
    assert_eq!(form_title(FormMode::Add), " Add Entry ");
    assert_eq!(form_title(FormMode::Edit), " Edit Entry ");
}

#[test]
fn form_fields_show_the_focus() {
    let mut form = FormPopup::new_add();
    form.host = "ü".into();
    form.next_field();
    let fields = form_field_views(&form);
    let labels: Vec<&str> = fields.iter().map(|f| f.label).collect();
    assert_eq!(labels, ["Name:", "Host:", "Port:", "Type:", "User:"]);
    assert_eq!(fields[0].text, " ");
    assert!(!fields[0].active);
    assert_eq!(fields[1].text, "ü ");
    assert!(fields[1].active);
    assert_eq!(fields[1].cursor, Some(2));
    assert_eq!(fields[2].text, "23 ");
    assert_eq!(fields[2].cursor, None);
    assert_eq!(fields[3].text, "Telnet (Space to toggle)");
    form.next_field();
    form.next_field();
    let fields = form_field_views(&form);
    assert!(fields[3].active);
    assert!(fields.iter().all(|f| f.cursor.is_none()));
}

#[test]
fn passwords_are_masked() {
    let view = password_field("s3cret");
    assert_eq!(view.text, "****** ");
    assert_eq!(view.cursor, Some(6));
    assert_eq!(password_field("").text, " ");
}

#[test]
fn the_status_bar_tells_the_mode_and_the_view() {
    let mut a = app(&["one"]);
    a.status_message = "Connected to one".into();
    assert_eq!(
        status_line(&a),
        " Connected to one | [LINE] Tab: mode | Shift+PgUp/Dn: scroll | Esc: suspend",
    );
    a.input_mode = InputMode::Character;
    a.emulator.scroll_up(12);
    assert_eq!(
        status_line(&a),
        " Connected to one [scroll: -12] | [CHAR] Tab: mode | Shift+PgUp/Dn: scroll | Esc: suspend",
    );
    assert_eq!(capture_badge(&a), None);
    a.capture = Some(CaptureFile::new("/l".into(), "h"));
    assert_eq!(capture_badge(&a), Some(" ● REC "));
}

#[test]
fn the_input_bar_follows_the_input() {
    let mut a = app(&["one"]);
    a.line.input = "look".into();
    assert_eq!(input_line(&a), "> look");
    assert_eq!(input_cursor_column(0, 80, "look"), 7);
    assert_eq!(input_cursor_column(5, 10, "a long line of input"), 14);
    assert_eq!(input_cursor_column(5, 0, ""), 5);
    assert_eq!(input_cursor_column(65530, 6, "look"), 65535);
    assert_eq!(bar_heights(InputMode::Character), (1, 0));
    assert_eq!(bar_heights(InputMode::LineBuffered), (1, 3));
}

#[test]
fn the_settings_show_their_three_knobs() {
    let mut p = EditSettingsPopup::from_settings(&Settings::default());
    p.next_field();
    let fields = settings_field_views(&p);
    let labels: Vec<&str> = fields.iter().map(|f| f.label).collect();
    assert_eq!(labels, ["Scrollback (lines):", "Default input mode:", "Terminal type:"]);
    assert_eq!(fields[0].text, "1000 ");
    assert_eq!(fields[0].cursor, None);
    assert_eq!(fields[1].text, "line (Space to change)");
    assert!(fields[1].active);
    assert_eq!(fields[2].text, "xterm-256color (Space to change)");
    assert!(labels.iter().all(|l| l.len() < SETTINGS_LABEL_WIDTH as usize));
}
