use nerdterm::config::settings::Settings;
use nerdterm::entry::{AddressBookEntry, InputMode, Protocol};
use nerdterm::popup::{
    standard_terminal_types, EditSettingsPopup, FormPopup, PopupField, SettingsField,
};


fn entry() -> AddressBookEntry {
    AddressBookEntry {
        name: "x".into(),
        host: "h".into(),
        port: 23,
        protocol: Protocol::Telnet,
        username: None,
        terminal_type: None,
        default_input_mode: None,
    }
}

#[test]
fn add_starts_focused_on_name_with_default_telnet_port() {
    let f = FormPopup::new_add();
    assert_eq!(f.focused, PopupField::Name);
    assert_eq!(f.port_str, "23");
    assert_eq!(f.protocol, Protocol::Telnet);
}

#[test]
fn next_field_cycles_through_all_fields() {
    let mut f = FormPopup::new_add();
    let order = [
        PopupField::Name,
        PopupField::Host,
        PopupField::Port,
        PopupField::Protocol,
        PopupField::Username,
        PopupField::TerminalType,
        PopupField::InputMode,
        PopupField::Name,
    ];
    for window in order.windows(2) {
        assert_eq!(f.focused, window[0]);
        f.next_field();
        assert_eq!(f.focused, window[1]);
    }
}

#[test]
fn prev_field_is_inverse_of_next() {
    let mut f = FormPopup::new_add();
    for _ in 0..7 {
        f.next_field();
    }
    assert_eq!(f.focused, PopupField::Name);
    for _ in 0..7 {
        f.prev_field();
    }
    assert_eq!(f.focused, PopupField::Name);
}

#[test]
fn form_popup_starts_terminal_type_on_default_sentinel() {
    let f = FormPopup::new_add();
    assert_eq!(f.terminal_type_label(), "(default)");
    assert!(f.terminal_type_override().is_none());
}

#[test]
fn form_popup_cycles_terminal_type_through_default_then_standard_list() {
    let mut f = FormPopup::new_add();
    f.cycle_terminal_type();
    assert_eq!(f.terminal_type_label(), "xterm-256color");
    assert_eq!(
        f.terminal_type_override(),
        Some("xterm-256color".to_string())
    );
    // Cycle back around to the (default) sentinel
    let total = standard_terminal_types().len();
    for _ in 0..total {
        f.cycle_terminal_type();
    }
    assert_eq!(f.terminal_type_label(), "(default)");
    assert!(f.terminal_type_override().is_none());
}

#[test]
fn a_refused_form_may_have_any_choice() {
    let mut f = FormPopup::new_add();
    f.terminal_type_idx = 99;
    f.input_mode_idx = 99;
    assert!(f.to_entry().is_none());
}

#[test]
fn there_is_nothing_to_cycle_without_terminal_types() {
    let mut f = FormPopup::new_add();
    f.terminal_type_options.clear();
    f.terminal_type_idx = usize::MAX;
    f.cycle_terminal_type();
    assert_eq!(f.terminal_type_idx, usize::MAX);
}

#[test]
fn every_terminal_type_comes_once_in_a_cycle() {
    let mut f = FormPopup::new_add();
    let mut seen = Vec::new();
    for _ in 0..f.terminal_type_options.len() {
        seen.push(f.terminal_type_label().to_string());
        f.cycle_terminal_type();
    }
    assert_eq!(seen, f.terminal_type_options);
    assert_eq!(f.terminal_type_idx, 0);
}

#[test]
fn form_popup_edit_preserves_custom_terminal_type_at_head_of_cycle() {
    let entry = AddressBookEntry {
        name: "Custom".into(),
        host: "h".into(),
        port: 23,
        protocol: Protocol::Telnet,
        username: None,
        terminal_type: Some("rxvt-256color".into()),
        default_input_mode: None,
    };
    let f = FormPopup::new_edit(&entry);
    assert_eq!(f.terminal_type_label(), "rxvt-256color");
    assert_eq!(
        f.terminal_type_override(),
        Some("rxvt-256color".to_string())
    );
    // Custom value sits between the (default) sentinel and the standard list
    assert_eq!(f.terminal_type_options[0], "(default)");
    assert_eq!(f.terminal_type_options[1], "rxvt-256color");
}

#[test]
fn form_popup_to_entry_carries_terminal_type_override() {
    let mut f = FormPopup::new_add();
    f.name = "Test".into();
    f.host = "example.com".into();
    f.cycle_terminal_type(); // (default) -> xterm-256color
    f.cycle_terminal_type(); // -> xterm
    f.cycle_terminal_type(); // -> ansi
    let entry = f.to_entry().expect("expected valid entry");
    assert_eq!(entry.terminal_type, Some("ansi".to_string()));
}

#[test]
fn form_popup_to_entry_records_default_sentinel_as_none() {
    let mut f = FormPopup::new_add();
    f.name = "Test".into();
    f.host = "example.com".into();
    // Leave terminal_type on the (default) sentinel
    let entry = f.to_entry().expect("expected valid entry");
    assert!(entry.terminal_type.is_none());
}

#[test]
fn type_char_appends_to_focused_text_field() {
    let mut f = FormPopup::new_add();
    f.type_char('a');
    f.type_char('b');
    assert_eq!(f.name, "ab");
    f.next_field();
    f.type_char('h');
    assert_eq!(f.host, "h");
}

#[test]
fn type_char_into_protocol_field_is_noop() {
    let mut f = FormPopup::new_add();
    f.next_field();
    f.next_field();
    f.next_field(); // Name → Host → Port → Protocol
    assert_eq!(f.focused, PopupField::Protocol);
    let name_before = f.name.clone();
    f.type_char('z');
    assert_eq!(
        f.name, name_before,
        "typing on Protocol must not mutate Name"
    );
}

#[test]
fn toggle_protocol_swaps_default_port() {
    let mut f = FormPopup::new_add();
    assert_eq!(f.protocol, Protocol::Telnet);
    assert_eq!(f.port_str, "23");
    f.toggle_protocol();
    assert_eq!(f.protocol, Protocol::Ssh);
    assert_eq!(f.port_str, "22");
    f.toggle_protocol();
    assert_eq!(f.protocol, Protocol::Telnet);
    assert_eq!(f.port_str, "23");
}

#[test]
fn toggle_protocol_swaps_modernbbs_ports() {
    let mut f = FormPopup::new_add();
    f.port_str = "2323".into();
    f.toggle_protocol();
    assert_eq!(f.protocol, Protocol::Ssh);
    assert_eq!(f.port_str, "2222");
    f.toggle_protocol();
    assert_eq!(f.protocol, Protocol::Telnet);
    assert_eq!(f.port_str, "2323");
}

#[test]
fn toggle_protocol_preserves_custom_port() {
    let mut f = FormPopup::new_add();
    f.port_str = "9999".into();
    f.toggle_protocol();
    assert_eq!(f.port_str, "9999");
}

#[test]
fn form_popup_cycles_input_mode_and_to_entry() {
    let mut f = FormPopup::new_add();
    f.name = "n".into();
    f.host = "h".into();
    assert_eq!(f.input_mode_label(), "(default)");
    assert!(f.input_mode_override().is_none());
    f.cycle_input_mode();
    assert_eq!(f.input_mode_override(), Some(InputMode::LineBuffered));
    f.cycle_input_mode();
    assert_eq!(f.input_mode_override(), Some(InputMode::Character));
    let entry = f.to_entry().unwrap();
    assert_eq!(entry.default_input_mode, Some(InputMode::Character));
}

#[test]
fn to_entry_rejects_empty_name_or_host_or_bad_port() {
    let mut f = FormPopup::new_add();
    assert!(f.to_entry().is_none(), "empty name/host should fail");
    f.name = "n".into();
    assert!(f.to_entry().is_none(), "empty host should fail");
    f.host = "h".into();
    assert!(f.to_entry().is_some(), "valid form should pass");
    f.port_str = "not-a-number".into();
    assert!(f.to_entry().is_none(), "bad port should fail");
}

#[test]
fn new_edit_prefills_from_entry() {
    let f = FormPopup::new_edit(&entry());
    assert_eq!(f.name, "x");
    assert_eq!(f.host, "h");
    assert_eq!(f.port_str, "23");
}

#[test]
fn settings_popup_round_trips_focus_with_tab() {
    let s = Settings::default();
    let mut p = EditSettingsPopup::from_settings(&s);
    assert_eq!(p.focused, SettingsField::Scrollback);
    p.next_field();
    assert_eq!(p.focused, SettingsField::Mode);
    p.next_field();
    assert_eq!(p.focused, SettingsField::TerminalType);
    p.next_field();
    assert_eq!(p.focused, SettingsField::Scrollback);
    p.prev_field();
    assert_eq!(p.focused, SettingsField::TerminalType);
}

#[test]
fn settings_popup_toggle_mode_swaps_input_mode() {
    let s = Settings::default();
    let mut p = EditSettingsPopup::from_settings(&s);
    assert_eq!(p.mode, InputMode::LineBuffered);
    p.toggle_mode();
    assert_eq!(p.mode, InputMode::Character);
    p.toggle_mode();
    assert_eq!(p.mode, InputMode::LineBuffered);
}

#[test]
fn settings_popup_rejects_non_numeric_scrollback() {
    let s = Settings::default();
    let mut p = EditSettingsPopup::from_settings(&s);
    p.scrollback_input = "abc".into();
    assert!(p.validate().is_none());
    assert!(p.error.is_some());
}

#[test]
fn settings_popup_rejects_scrollback_above_cap() {
    let s = Settings::default();
    let mut p = EditSettingsPopup::from_settings(&s);
    p.scrollback_input = "100001".into();
    assert!(p.validate().is_none());
    assert!(p.error.is_some());
}

#[test]
fn settings_popup_cycles_terminal_type_through_standard_list() {
    let s = Settings::default();
    let mut p = EditSettingsPopup::from_settings(&s);
    // Default value is the first standard option
    assert_eq!(p.terminal_type_value(), "xterm-256color");
    p.cycle_terminal_type();
    assert_eq!(p.terminal_type_value(), "xterm");
    p.cycle_terminal_type();
    assert_eq!(p.terminal_type_value(), "ansi");
    // Cycle all the way back around
    for _ in 0..standard_terminal_types().len() {
        p.cycle_terminal_type();
    }
    assert_eq!(p.terminal_type_value(), "ansi");
}

#[test]
fn settings_popup_preserves_custom_terminal_type_at_head_of_cycle() {
    let s = Settings {
        scrollback_lines: 1000,
        default_input_mode: InputMode::LineBuffered,
        terminal_type: "rxvt-256color".into(),
    };
    let p = EditSettingsPopup::from_settings(&s);
    assert_eq!(p.terminal_type_value(), "rxvt-256color");
    // Custom value sits in front of the standard list
    assert_eq!(
        p.terminal_type_options.len(),
        standard_terminal_types().len() + 1
    );
    assert_eq!(p.terminal_type_options[0], "rxvt-256color");
}

#[test]
fn settings_popup_validate_returns_settings_on_valid_input() {
    let s = Settings::default();
    let mut p = EditSettingsPopup::from_settings(&s);
    p.scrollback_input = "4242".into();
    // Cycle terminal type to "ansi" (index 2 in the standard list)
    p.cycle_terminal_type();
    p.cycle_terminal_type();
    p.toggle_mode();
    let out = p.validate().expect("expected Ok validation");
    assert_eq!(out.scrollback_lines, 4242);
    assert_eq!(out.default_input_mode, InputMode::Character);
    assert_eq!(out.terminal_type, "ansi");
    assert!(p.error.is_none());
}

#[test]
fn form_edit_prefills_input_mode_override() {
    let entry = AddressBookEntry {
        name: "x".into(),
        host: "h".into(),
        port: 23,
        protocol: Protocol::Telnet,
        username: None,
        terminal_type: None,
        default_input_mode: Some(InputMode::Character),
    };
    let f = FormPopup::new_edit(&entry);
    assert_eq!(f.input_mode_override(), Some(InputMode::Character));
    assert_eq!(f.input_mode_label(), "character");
}
