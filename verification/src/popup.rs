//! The popups that edit an address-book entry or the settings, and the questions
//! that interrupt everything else.

use crate::config::settings::{Settings, SettingsModel};
use crate::entry::{other_mode, AddressBookEntry, EntryModel, InputMode, Protocol};
use crate::text::{
    decimal, decimal_reads_back, opt_text, parse_number, parsed, place_is_first, place_of,
    position_of, push_decimal, same_text, texts, trim, trimmed,
};
use vstd::prelude::*;
use vstd::string::*;

verus! {

#[derive(Debug, Clone, Copy, PartialEq, Eq, Structural)]
pub enum PopupField {
    Name,
    Host,
    Port,
    Protocol,
    Username,
    TerminalType,
    InputMode,
}

#[derive(Debug, Clone, Copy, PartialEq, Eq, Structural)]
pub enum FormMode {
    Add,
    Edit,
}

#[derive(Debug, Clone, Copy, PartialEq, Eq, Structural)]
pub enum SettingsField {
    Scrollback,
    Mode,
    TerminalType,
}

pub enum Popup {
    Form(FormPopup),
    EditSettings(EditSettingsPopup),
    DeleteConfirm,
    Password(String),
    HostKeyTrust(HostKeyTrustPopup),
    ChordHelp,
}

/// What a popup shows.
pub ghost enum PopupModel {
    Form(FormModel),
    EditSettings(EditSettingsModel),
    DeleteConfirm,
    Password(Seq<char>),
    HostKeyTrust(HostKeyTrustModel),
    ChordHelp,
}

impl Popup {
    /// What it holds.
    pub open spec fn view(&self) -> PopupModel {
        match *self {
            Popup::Form(form) => PopupModel::Form(form@),
            Popup::EditSettings(p) => PopupModel::EditSettings(p@),
            Popup::DeleteConfirm => PopupModel::DeleteConfirm,
            Popup::Password(input) => PopupModel::Password(input@),
            Popup::HostKeyTrust(p) => PopupModel::HostKeyTrust(p@),
            Popup::ChordHelp => PopupModel::ChordHelp,
        }
    }
}

pub struct HostKeyTrustPopup {
    pub host: String,
    pub port: u16,
    pub key_type: String,
    pub fingerprint: String,
}

/// The key that is asked about.
#[verifier::ext_equal]
pub ghost struct HostKeyTrustModel {
    pub host: Seq<char>,
    pub port: u16,
    pub key_type: Seq<char>,
    pub fingerprint: Seq<char>,
}

impl HostKeyTrustPopup {
    /// What it holds.
    pub open spec fn view(&self) -> HostKeyTrustModel {
        HostKeyTrustModel {
            host: self.host@,
            port: self.port,
            key_type: self.key_type@,
            fingerprint: self.fingerprint@,
        }
    }
}

/// The entry being added or edited, as typed so far.
pub struct FormPopup {
    pub mode: FormMode,
    pub focused: PopupField,
    pub name: String,
    pub host: String,
    pub port_str: String,
    pub protocol: Protocol,
    pub username: String,
    pub terminal_type_options: Vec<String>,
    pub terminal_type_idx: usize,
    /// Cycle index into `(default)` / `line` / `character`.
    pub input_mode_idx: usize,
}

/// What a form holds.
#[verifier::ext_equal]
pub ghost struct FormModel {
    pub mode: FormMode,
    pub focused: PopupField,
    pub name: Seq<char>,
    pub host: Seq<char>,
    pub port: Seq<char>,
    pub protocol: Protocol,
    pub username: Seq<char>,
    pub terminal_types: Seq<Seq<char>>,
    pub terminal_type: int,
    pub input_mode: int,
}

impl FormPopup {
    /// What it holds.
    pub open spec fn view(&self) -> FormModel {
        FormModel {
            mode: self.mode,
            focused: self.focused,
            name: self.name@,
            host: self.host@,
            port: self.port_str@,
            protocol: self.protocol,
            username: self.username@,
            terminal_types: texts(self.terminal_type_options@),
            terminal_type: self.terminal_type_idx as int,
            input_mode: self.input_mode_idx as int,
        }
    }
}

/// The choice that leaves a field of an entry to the settings.
pub open spec fn default_choice() -> Seq<char> {
    "(default)"@
}

/// The terminal types on offer. Users with unusual needs can still write another
/// one into the files: the popups keep it in their cycle.
pub open spec fn standard_types() -> Seq<Seq<char>> {
    seq!["xterm-256color"@, "xterm"@, "ansi"@, "vt100"@, "vt220"@, "dumb"@]
}

/// The terminal types on offer.
pub fn standard_terminal_types() -> (list: Vec<String>)
    ensures
        texts(list@) == standard_types(),
{
    let list = vec![
        "xterm-256color".to_owned(),
        "xterm".to_owned(),
        "ansi".to_owned(),
        "vt100".to_owned(),
        "vt220".to_owned(),
        "dumb".to_owned(),
    ];
    assert(texts(list@) =~= standard_types());
    list
}

/// The choices of the form's terminal-type field: the default, then the standard
/// list; a type that is not listed comes between them.
pub open spec fn form_types(current: Option<Seq<char>>) -> Seq<Seq<char>> {
    let listed = seq![default_choice()] + standard_types();
    match current {
        Some(c) => if c.len() > 0 && !listed.contains(c) {
            listed.insert(1, c)
        } else {
            listed
        },
        None => listed,
    }
}

/// Builds the cycle list shown in the form's terminal-type field. The "(default)"
/// choice is always first; a value that is not in the standard list is kept as the
/// second one, so that a hand-edited address book keeps its custom value.
pub fn form_terminal_type_options(current: Option<&str>) -> (list: Vec<String>)
    ensures
        texts(list@) == form_types(
            match current {
                Some(c) => Some(c@),
                None => None,
            },
        ),
{
    let mut list = standard_terminal_types();
    let ghost standard = list@;
    list.insert(0, "(default)".to_owned());
    proof {
        assert(texts(list@) =~= seq![default_choice()] + texts(standard));
    }
    match current {
        Some(c) => {
            proof {
                place_is_first(texts(list@), c@);
            }
            if !c.is_empty() && position_of(&list, c).is_none() {
                let ghost listed = list@;
                list.insert(1, c.to_owned());
                assert(texts(list@) =~= texts(listed).insert(1, c@));
            }
        },
        None => {},
    }
    list
}

/// The field after `field`.
pub open spec fn field_after(field: PopupField) -> PopupField {
    match field {
        PopupField::Name => PopupField::Host,
        PopupField::Host => PopupField::Port,
        PopupField::Port => PopupField::Protocol,
        PopupField::Protocol => PopupField::Username,
        PopupField::Username => PopupField::TerminalType,
        PopupField::TerminalType => PopupField::InputMode,
        PopupField::InputMode => PopupField::Name,
    }
}

/// The field before `field`.
pub open spec fn field_before(field: PopupField) -> PopupField {
    match field {
        PopupField::Name => PopupField::InputMode,
        PopupField::Host => PopupField::Name,
        PopupField::Port => PopupField::Host,
        PopupField::Protocol => PopupField::Port,
        PopupField::Username => PopupField::Protocol,
        PopupField::TerminalType => PopupField::Username,
        PopupField::InputMode => PopupField::TerminalType,
    }
}

/// The choices of the form's input-mode field.
pub open spec fn input_mode_choices() -> Seq<Seq<char>> {
    seq![default_choice(), "line"@, "character"@]
}

/// The mode that a choice stands for: none for the default.
pub open spec fn chosen_mode(choice: int) -> Option<InputMode> {
    if choice == 1 {
        Some(InputMode::LineBuffered)
    } else if choice == 2 {
        Some(InputMode::Character)
    } else {
        None
    }
}

/// The choice that stands for a mode.
pub open spec fn mode_choice(mode: Option<InputMode>) -> int {
    match mode {
        None => 0,
        Some(InputMode::LineBuffered) => 1,
        Some(InputMode::Character) => 2,
    }
}

/// An empty form for a telnet host on its usual port.
pub open spec fn add_form() -> FormModel {
    FormModel {
        mode: FormMode::Add,
        focused: PopupField::Name,
        name: seq![],
        host: seq![],
        port: "23"@,
        protocol: Protocol::Telnet,
        username: seq![],
        terminal_types: form_types(None),
        terminal_type: 0,
        input_mode: 0,
    }
}

/// A form filled in from an entry.
pub open spec fn edit_form(entry: EntryModel) -> FormModel {
    let types = form_types(entry.terminal_type);
    FormModel {
        mode: FormMode::Edit,
        focused: PopupField::Name,
        name: entry.name,
        host: entry.host,
        port: decimal(entry.port as nat),
        protocol: entry.protocol,
        username: match entry.username {
            Some(u) => u,
            None => seq![],
        },
        terminal_types: types,
        terminal_type: match entry.terminal_type {
            Some(t) => match place_of(types, t) {
                Some(i) => i,
                None => 0,
            },
            None => 0,
        },
        input_mode: mode_choice(entry.default_input_mode),
    }
}

/// The form with `c` typed into the field that has the focus, if it takes text.
pub open spec fn typed(m: FormModel, c: char) -> FormModel {
    match m.focused {
        PopupField::Name => FormModel { name: m.name.push(c), ..m },
        PopupField::Host => FormModel { host: m.host.push(c), ..m },
        PopupField::Port => FormModel { port: m.port.push(c), ..m },
        PopupField::Username => FormModel { username: m.username.push(c), ..m },
        _ => m,
    }
}

/// The form with `text` typed into the field that has the focus, if it takes text.
pub open spec fn typed_text(m: FormModel, text: Seq<char>) -> FormModel {
    match m.focused {
        PopupField::Name => FormModel { name: m.name + text, ..m },
        PopupField::Host => FormModel { host: m.host + text, ..m },
        PopupField::Port => FormModel { port: m.port + text, ..m },
        PopupField::Username => FormModel { username: m.username + text, ..m },
        _ => m,
    }
}

/// `s` without its last character.
pub open spec fn shortened(s: Seq<char>) -> Seq<char> {
    if s.len() == 0 {
        s
    } else {
        s.drop_last()
    }
}

/// The form with the last character of the field that has the focus erased, if it
/// takes text.
pub open spec fn erased(m: FormModel) -> FormModel {
    match m.focused {
        PopupField::Name => FormModel { name: shortened(m.name), ..m },
        PopupField::Host => FormModel { host: shortened(m.host), ..m },
        PopupField::Port => FormModel { port: shortened(m.port), ..m },
        PopupField::Username => FormModel { username: shortened(m.username), ..m },
        _ => m,
    }
}

/// The port that takes the place of a protocol's usual port when the protocol
/// changes: 23 and 22, 2323 and 2222. Any other port stays.
pub open spec fn port_after_toggle(protocol: Protocol, port: Seq<char>) -> Seq<char> {
    match protocol {
        Protocol::Telnet => if port == "23"@ {
            "22"@
        } else if port == "2323"@ {
            "2222"@
        } else {
            port
        },
        Protocol::Ssh => if port == "22"@ {
            "23"@
        } else if port == "2222"@ {
            "2323"@
        } else {
            port
        },
    }
}

/// The form with the other protocol.
pub open spec fn toggled(m: FormModel) -> FormModel {
    FormModel {
        protocol: match m.protocol {
            Protocol::Telnet => Protocol::Ssh,
            Protocol::Ssh => Protocol::Telnet,
        },
        port: port_after_toggle(m.protocol, m.port),
        ..m
    }
}

/// The next of `count` choices, after the last the first.
pub open spec fn cycled(choice: int, count: nat) -> int {
    if count == 0 {
        choice
    } else {
        (choice + 1) % (count as int)
    }
}

/// The terminal type that a form overrides the settings with.
pub open spec fn chosen_type(m: FormModel) -> Option<Seq<char>> {
    if m.terminal_types[m.terminal_type] == default_choice() {
        None
    } else {
        Some(m.terminal_types[m.terminal_type])
    }
}

/// The entry that a form describes: none without a name, a host and a port number.
pub open spec fn entry_of(m: FormModel) -> Option<EntryModel> {
    match parsed(m.port, u16::MAX as nat) {
        None => None,
        Some(port) => if m.name.len() == 0 || m.host.len() == 0 {
            None
        } else {
            Some(
                EntryModel {
                    name: m.name,
                    host: m.host,
                    port: port as u16,
                    protocol: m.protocol,
                    username: if m.username.len() == 0 {
                        None
                    } else {
                        Some(m.username)
                    },
                    terminal_type: chosen_type(m),
                    default_input_mode: chosen_mode(m.input_mode),
                },
            )
        },
    }
}

/// Whether the choices of a form are among those on offer.
pub open spec fn form_wf(m: FormModel) -> bool {
    0 <= m.terminal_type < m.terminal_types.len() && 0 <= m.input_mode < 3
}

impl FormPopup {
    pub fn new_add() -> (form: Self)
        ensures
            form@ == add_form(),
            form_wf(form@),
    {
        FormPopup {
            mode: FormMode::Add,
            focused: PopupField::Name,
            name: String::new(),
            host: String::new(),
            port_str: "23".to_owned(),
            protocol: Protocol::Telnet,
            username: String::new(),
            terminal_type_options: form_terminal_type_options(None),
            terminal_type_idx: 0,
            input_mode_idx: 0,
        }
    }

    pub fn new_edit(entry: &AddressBookEntry) -> (form: Self)
        ensures
            form@ == edit_form(entry@),
            form_wf(form@),
    {
        let options = match &entry.terminal_type {
            Some(t) => form_terminal_type_options(Some(t.as_str())),
            None => form_terminal_type_options(None),
        };
        let terminal_type_idx: usize = match &entry.terminal_type {
            None => 0,
            Some(t) => match position_of(&options, t.as_str()) {
                Some(i) => i,
                None => 0,
            },
        };
        let input_mode_idx: usize = match entry.default_input_mode {
            None => 0,
            Some(InputMode::LineBuffered) => 1,
            Some(InputMode::Character) => 2,
        };
        let mut port_str = String::new();
        push_decimal(&mut port_str, entry.port as u64);
        let username = match &entry.username {
            Some(u) => u.clone(),
            None => String::new(),
        };
        let form = FormPopup {
            mode: FormMode::Edit,
            focused: PopupField::Name,
            name: entry.name.clone(),
            host: entry.host.clone(),
            port_str,
            protocol: entry.protocol,
            username,
            terminal_type_options: options,
            terminal_type_idx,
            input_mode_idx,
        };
        assert(form.port_str@ =~= decimal(entry.port as nat));
        form
    }

    pub fn next_field(&mut self)
        ensures
            final(self)@ == (FormModel { focused: field_after(old(self)@.focused), ..old(self)@ }),
    {
        self.focused = match self.focused {
            PopupField::Name => PopupField::Host,
            PopupField::Host => PopupField::Port,
            PopupField::Port => PopupField::Protocol,
            PopupField::Protocol => PopupField::Username,
            PopupField::Username => PopupField::TerminalType,
            PopupField::TerminalType => PopupField::InputMode,
            PopupField::InputMode => PopupField::Name,
        };
    }

    pub fn prev_field(&mut self)
        ensures
            final(self)@ == (FormModel { focused: field_before(old(self)@.focused), ..old(self)@ }),
    {
        self.focused = match self.focused {
            PopupField::Name => PopupField::InputMode,
            PopupField::Host => PopupField::Name,
            PopupField::Port => PopupField::Host,
            PopupField::Protocol => PopupField::Port,
            PopupField::Username => PopupField::Protocol,
            PopupField::TerminalType => PopupField::Username,
            PopupField::InputMode => PopupField::TerminalType,
        };
    }

    pub fn cycle_terminal_type(&mut self)
        requires
            old(self).terminal_type_options@.len() > 0 ==> old(self).terminal_type_idx
                < usize::MAX,
        ensures
            final(self)@ == (FormModel {
                terminal_type: cycled(old(self)@.terminal_type, old(self)@.terminal_types.len()),
                ..old(self)@
            }),
    {
        if self.terminal_type_options.len() == 0 {
            return;
        }
        self.terminal_type_idx = (self.terminal_type_idx + 1) % self.terminal_type_options.len();
    }

    pub fn terminal_type_label(&self) -> (label: &str)
        requires
            self@.terminal_type < self@.terminal_types.len(),
        ensures
            label@ == self@.terminal_types[self@.terminal_type],
    {
        self.terminal_type_options[self.terminal_type_idx].as_str()
    }

    /// `None` when the popup is on the "(default)" choice, otherwise the override.
    /// Callers store this directly on the entry, where `None` means "fall back to
    /// Settings".
    pub fn terminal_type_override(&self) -> (name: Option<String>)
        requires
            self@.terminal_type < self@.terminal_types.len(),
        ensures
            opt_text(name) == chosen_type(self@),
    {
        let label = self.terminal_type_label();
        if same_text(label, "(default)") {
            None
        } else {
            Some(label.to_owned())
        }
    }

    pub fn cycle_input_mode(&mut self)
        requires
            old(self).input_mode_idx < usize::MAX,
        ensures
            final(self)@ == (FormModel {
                input_mode: cycled(old(self)@.input_mode, 3),
                ..old(self)@
            }),
    {
        self.input_mode_idx = (self.input_mode_idx + 1) % 3;
    }

    pub fn input_mode_label(&self) -> (label: &str)
        requires
            self.input_mode_idx < 3,
        ensures
            label@ == input_mode_choices()[self@.input_mode],
    {
        if self.input_mode_idx == 0 {
            "(default)"
        } else if self.input_mode_idx == 1 {
            "line"
        } else {
            "character"
        }
    }

    pub fn input_mode_override(&self) -> (mode: Option<InputMode>)
        requires
            self.input_mode_idx < 3,
        ensures
            mode == chosen_mode(self@.input_mode),
    {
        if self.input_mode_idx == 1 {
            Some(InputMode::LineBuffered)
        } else if self.input_mode_idx == 2 {
            Some(InputMode::Character)
        } else {
            None
        }
    }

    pub fn type_char(&mut self, c: char)
        ensures
            final(self)@ == typed(old(self)@, c),
    {
        match self.focused {
            PopupField::Name => self.name.push(c),
            PopupField::Host => self.host.push(c),
            PopupField::Port => self.port_str.push(c),
            PopupField::Username => self.username.push(c),
            PopupField::Protocol | PopupField::TerminalType | PopupField::InputMode => {},
        }
    }

    pub fn type_text(&mut self, text: &str)
        ensures
            final(self)@ == typed_text(old(self)@, text@),
    {
        match self.focused {
            PopupField::Name => self.name.append(text),
            PopupField::Host => self.host.append(text),
            PopupField::Port => self.port_str.append(text),
            PopupField::Username => self.username.append(text),
            PopupField::Protocol | PopupField::TerminalType | PopupField::InputMode => {},
        }
    }

    pub fn backspace(&mut self)
        ensures
            final(self)@ == erased(old(self)@),
    {
        match self.focused {
            PopupField::Name => {
                self.name.pop();
            },
            PopupField::Host => {
                self.host.pop();
            },
            PopupField::Port => {
                self.port_str.pop();
            },
            PopupField::Username => {
                self.username.pop();
            },
            PopupField::Protocol | PopupField::TerminalType | PopupField::InputMode => {},
        }
    }

    pub fn toggle_protocol(&mut self)
        ensures
            final(self)@ == toggled(old(self)@),
    {
        match self.protocol {
            Protocol::Telnet => {
                if same_text(&self.port_str, "23") {
                    self.port_str = "22".to_owned();
                } else if same_text(&self.port_str, "2323") {
                    // modernbbs telnet to its SSH preset
                    self.port_str = "2222".to_owned();
                }
                self.protocol = Protocol::Ssh;
            },
            Protocol::Ssh => {
                if same_text(&self.port_str, "22") {
                    self.port_str = "23".to_owned();
                } else if same_text(&self.port_str, "2222") {
                    // modernbbs SSH to its telnet preset
                    self.port_str = "2323".to_owned();
                }
                self.protocol = Protocol::Telnet;
            },
        }
    }

    pub fn to_entry(&self) -> (entry: Option<AddressBookEntry>)
        requires
            entry_of(self@) is Some ==> form_wf(self@),
        ensures
            match entry {
                Some(e) => entry_of(self@) == Some(e@),
                None => entry_of(self@) is None,
            },
    {
        let port: u16 = match parse_number(&self.port_str, 65535) {
            Some(n) => n as u16,
            None => {
                return None;
            },
        };
        if self.name.as_str().is_empty() || self.host.as_str().is_empty() {
            return None;
        }
        let username = if self.username.as_str().is_empty() {
            None
        } else {
            Some(self.username.clone())
        };
        Some(
            AddressBookEntry {
                name: self.name.clone(),
                host: self.host.clone(),
                port,
                protocol: self.protocol,
                username,
                terminal_type: self.terminal_type_override(),
                default_input_mode: self.input_mode_override(),
            },
        )
    }
}

/// The settings as typed so far.
pub struct EditSettingsPopup {
    pub focused: SettingsField,
    pub scrollback_input: String,
    pub mode: InputMode,
    pub terminal_type_options: Vec<String>,
    pub terminal_type_idx: usize,
    pub error: Option<String>,
}

/// What the settings popup holds.
#[verifier::ext_equal]
pub ghost struct EditSettingsModel {
    pub focused: SettingsField,
    pub scrollback: Seq<char>,
    pub mode: InputMode,
    pub terminal_types: Seq<Seq<char>>,
    pub terminal_type: int,
    pub error: Option<Seq<char>>,
}

impl EditSettingsPopup {
    /// What it holds.
    pub open spec fn view(&self) -> EditSettingsModel {
        EditSettingsModel {
            focused: self.focused,
            scrollback: self.scrollback_input@,
            mode: self.mode,
            terminal_types: texts(self.terminal_type_options@),
            terminal_type: self.terminal_type_idx as int,
            error: opt_text(self.error),
        }
    }
}

/// Whether the terminal type is among those on offer.
pub open spec fn settings_form_wf(m: EditSettingsModel) -> bool {
    0 <= m.terminal_type < m.terminal_types.len()
}

/// The popup filled in from the settings. A terminal type that is not listed comes
/// first in the cycle.
pub open spec fn settings_form(s: SettingsModel) -> EditSettingsModel {
    let listed = place_of(standard_types(), s.terminal_type);
    EditSettingsModel {
        focused: SettingsField::Scrollback,
        scrollback: decimal(s.scrollback_lines as nat),
        mode: s.default_input_mode,
        terminal_types: if s.terminal_type.len() == 0 || listed is Some {
            standard_types()
        } else {
            standard_types().insert(0, s.terminal_type)
        },
        terminal_type: match listed {
            Some(i) => if s.terminal_type.len() == 0 {
                0
            } else {
                i
            },
            None => 0,
        },
        error: None,
    }
}

/// The field after `field`.
pub open spec fn settings_field_after(field: SettingsField) -> SettingsField {
    match field {
        SettingsField::Scrollback => SettingsField::Mode,
        SettingsField::Mode => SettingsField::TerminalType,
        SettingsField::TerminalType => SettingsField::Scrollback,
    }
}

/// The field before `field`.
pub open spec fn settings_field_before(field: SettingsField) -> SettingsField {
    match field {
        SettingsField::Scrollback => SettingsField::TerminalType,
        SettingsField::Mode => SettingsField::Scrollback,
        SettingsField::TerminalType => SettingsField::Mode,
    }
}

/// The most scrollback lines that the settings take.
pub const MAX_SCROLLBACK: u64 = 100_000;

/// What is shown when the scrollback is not a number that the settings take.
pub open spec fn scrollback_error() -> Seq<char> {
    "Scrollback must be a number between 0 and 100,000."@
}

/// The settings that the popup describes: none where the scrollback is not a
/// number up to the limit, white space around it aside.
pub open spec fn settings_of(m: EditSettingsModel) -> Option<SettingsModel> {
    match parsed(trimmed(m.scrollback), MAX_SCROLLBACK as nat) {
        Some(lines) => Some(
            SettingsModel {
                scrollback_lines: lines as usize,
                default_input_mode: m.mode,
                terminal_type: m.terminal_types[m.terminal_type],
            },
        ),
        None => None,
    }
}

/// The popup after its contents were looked at: it shows an error or none.
pub open spec fn validated(m: EditSettingsModel) -> EditSettingsModel {
    EditSettingsModel {
        error: if settings_of(m) is Some {
            None
        } else {
            Some(scrollback_error())
        },
        ..m
    }
}

impl EditSettingsPopup {
    pub fn from_settings(s: &Settings) -> (popup: Self)
        ensures
            popup@ == settings_form(s@),
            settings_form_wf(popup@),
    {
        let mut options = standard_terminal_types();
        let ghost standard = options@;
        let mut terminal_type_idx: usize = 0;
        if !s.terminal_type.as_str().is_empty() {
            match position_of(&options, s.terminal_type.as_str()) {
                Some(i) => {
                    terminal_type_idx = i;
                },
                None => {
                    options.insert(0, s.terminal_type.clone());
                    assert(texts(options@) =~= texts(standard).insert(0, s.terminal_type@));
                },
            }
        }
        let mut scrollback_input = String::new();
        push_decimal(&mut scrollback_input, s.scrollback_lines as u64);
        let popup = EditSettingsPopup {
            focused: SettingsField::Scrollback,
            scrollback_input,
            mode: s.default_input_mode,
            terminal_type_options: options,
            terminal_type_idx,
            error: None,
        };
        assert(popup.scrollback_input@ =~= decimal(s.scrollback_lines as nat));
        popup
    }

    pub fn next_field(&mut self)
        ensures
            final(self)@ == (EditSettingsModel {
                focused: settings_field_after(old(self)@.focused),
                ..old(self)@
            }),
    {
        self.focused = match self.focused {
            SettingsField::Scrollback => SettingsField::Mode,
            SettingsField::Mode => SettingsField::TerminalType,
            SettingsField::TerminalType => SettingsField::Scrollback,
        };
    }

    pub fn prev_field(&mut self)
        ensures
            final(self)@ == (EditSettingsModel {
                focused: settings_field_before(old(self)@.focused),
                ..old(self)@
            }),
    {
        self.focused = match self.focused {
            SettingsField::Scrollback => SettingsField::TerminalType,
            SettingsField::Mode => SettingsField::Scrollback,
            SettingsField::TerminalType => SettingsField::Mode,
        };
    }

    pub fn toggle_mode(&mut self)
        ensures
            final(self)@ == (EditSettingsModel { mode: other_mode(old(self)@.mode), ..old(self)@ }),
    {
        self.mode = self.mode.toggled();
    }

    pub fn cycle_terminal_type(&mut self)
        requires
            old(self).terminal_type_options@.len() > 0 ==> old(self).terminal_type_idx
                < usize::MAX,
        ensures
            final(self)@ == (EditSettingsModel {
                terminal_type: cycled(old(self)@.terminal_type, old(self)@.terminal_types.len()),
                ..old(self)@
            }),
    {
        if self.terminal_type_options.len() == 0 {
            return;
        }
        self.terminal_type_idx = (self.terminal_type_idx + 1) % self.terminal_type_options.len();
    }

    pub fn terminal_type_value(&self) -> (name: &str)
        requires
            settings_form_wf(self@),
        ensures
            name@ == self@.terminal_types[self@.terminal_type],
    {
        self.terminal_type_options[self.terminal_type_idx].as_str()
    }

    /// Validate and produce the settings on success, or set `self.error` and return
    /// `None` on failure. The caller owns persistence and closing the popup.
    pub fn validate(&mut self) -> (settings: Option<Settings>)
        requires
            settings_form_wf(old(self)@),
        ensures
            match settings {
                Some(s) => settings_of(old(self)@) == Some(s@),
                None => settings_of(old(self)@) is None,
            },
            final(self)@ == validated(old(self)@),
    {
        let lines: usize = match parse_number(trim(&self.scrollback_input), MAX_SCROLLBACK) {
            Some(n) => n as usize,
            None => {
                self.error = Some("Scrollback must be a number between 0 and 100,000.".to_owned());
                return None;
            },
        };
        let terminal_type = self.terminal_type_value().to_owned();
        self.error = None;
        Some(
            Settings { scrollback_lines: lines, default_input_mode: self.mode, terminal_type },
        )
    }
}

/// Going to the next field and back leads nowhere else, in either order.
pub proof fn fields_form_a_cycle(field: PopupField, other: SettingsField)
    ensures
        field_before(field_after(field)) == field,
        field_after(field_before(field)) == field,
        settings_field_before(settings_field_after(other)) == other,
        settings_field_after(settings_field_before(other)) == other,
{
}

/// Changing the protocol twice gives the form back, unless the port was the other
/// protocol's usual one.
pub proof fn toggling_twice_restores(m: FormModel)
    requires
        m.protocol == Protocol::Telnet ==> m.port != "22"@ && m.port != "2222"@,
        m.protocol == Protocol::Ssh ==> m.port != "23"@ && m.port != "2323"@,
    ensures
        toggled(toggled(m)) == m,
{
    lemma_usual_ports_differ();
}

pub(crate) proof fn lemma_usual_ports_differ()
    ensures
        "22"@ != "2222"@,
        "23"@ != "2323"@,
        "22"@ != "23"@,
        "2222"@ != "2323"@,
        "22"@ != "2323"@,
        "23"@ != "2222"@,
{
    reveal_strlit("22");
    reveal_strlit("23");
    reveal_strlit("2222");
    reveal_strlit("2323");
    assert("22"@.len() == 2 && "23"@.len() == 2 && "2222"@.len() == 4 && "2323"@.len() == 4);
    assert("22"@[1] != "23"@[1]);
    assert("2222"@[1] != "2323"@[1]);
}

/// Typing a text is typing its characters one after another.
pub proof fn a_text_is_typed_by_characters(m: FormModel, text: Seq<char>, c: char)
    ensures
        typed_text(m, seq![]) == m,
        typed_text(m, text.push(c)) == typed(typed_text(m, text), c),
{
    assert(m.name + seq![] =~= m.name);
    assert(m.host + seq![] =~= m.host);
    assert(m.port + seq![] =~= m.port);
    assert(m.username + seq![] =~= m.username);
    assert(m.name + text.push(c) =~= (m.name + text).push(c));
    assert(m.host + text.push(c) =~= (m.host + text).push(c));
    assert(m.port + text.push(c) =~= (m.port + text).push(c));
    assert(m.username + text.push(c) =~= (m.username + text).push(c));
}

/// Typing a character and erasing it leaves the form as it was.
pub proof fn erasing_undoes_typing(m: FormModel, c: char)
    ensures
        erased(typed(m, c)) == m,
{
    assert(m.name.push(c).drop_last() =~= m.name);
    assert(m.host.push(c).drop_last() =~= m.host);
    assert(m.port.push(c).drop_last() =~= m.port);
    assert(m.username.push(c).drop_last() =~= m.username);
}

/// The choice after a choice is the next one, and after the last the first.
pub proof fn cycling_comes_round(choice: int, count: nat)
    requires
        0 <= choice < count,
    ensures
        0 <= cycled(choice, count) < count,
        choice + 1 < count ==> cycled(choice, count) == choice + 1,
        choice + 1 == count ==> cycled(choice, count) == 0,
{
    if choice + 1 < count {
        vstd::arithmetic::div_mod::lemma_small_mod((choice + 1) as nat, count);
    } else {
        vstd::arithmetic::div_mod::lemma_mod_self_0(count as int);
    }
}

/// The choice after cycling some times.
pub open spec fn cycled_times(choice: int, count: nat, times: nat) -> int
    decreases times,
{
    if times == 0 {
        choice
    } else {
        cycled(cycled_times(choice, count, (times - 1) as nat), count)
    }
}

/// Cycling goes on by one choice each time, after the last to the first; where there is
/// nothing to choose from, nothing changes.
pub proof fn cycling_goes_round(choice: int, count: nat, times: nat)
    requires
        count > 0 ==> 0 <= choice < count,
    ensures
        count == 0 ==> cycled_times(choice, count, times) == choice,
        count > 0 ==> cycled_times(choice, count, times) == (choice + times) % (count as int),
        count > 0 ==> 0 <= cycled_times(choice, count, times) < count,
    decreases times,
{
    if times > 0 {
        let before = (times - 1) as nat;
        cycling_goes_round(choice, count, before);
        if count > 0 {
            vstd::arithmetic::div_mod::lemma_add_mod_noop(choice + before, 1, count as int);
            vstd::arithmetic::div_mod::lemma_add_mod_noop(
                (choice + before) % (count as int),
                1,
                count as int,
            );
            vstd::arithmetic::div_mod::lemma_mod_twice(choice + before, count as int);
        }
    } else if count > 0 {
        vstd::arithmetic::div_mod::lemma_small_mod(choice as nat, count);
    }
}

/// Cycling as often as there are choices visits each of them once and comes back to
/// where it started.
pub proof fn cycling_visits_every_choice_once(choice: int, count: nat, other: int)
    requires
        0 <= choice < count,
        0 <= other < count,
    ensures
        cycled_times(choice, count, count) == choice,
        exists|times: nat|
            times < count && #[trigger] cycled_times(choice, count, times) == other,
        forall|i: nat, j: nat|
            i < j < count ==> #[trigger] cycled_times(choice, count, i)
                != #[trigger] cycled_times(choice, count, j),
{
    assert forall|times: nat| times <= count implies #[trigger] cycled_times(choice, count, times)
        == (if choice + times < count {
        choice + times
    } else {
        choice + times - count
    }) by {
        cycling_goes_round(choice, count, times);
        let sum = choice + times;
        if sum < count {
            vstd::arithmetic::div_mod::lemma_small_mod(sum as nat, count);
        } else {
            vstd::arithmetic::div_mod::lemma_small_mod((sum - count) as nat, count);
            vstd::arithmetic::div_mod::lemma_mod_add_multiples_vanish(sum - count, count as int);
        }
    }
    let times: nat = if other >= choice {
        (other - choice) as nat
    } else {
        (other - choice + count) as nat
    };
    assert(cycled_times(choice, count, times) == other);
}

/// Opening an entry for editing and saving the form as it stands keeps the entry,
/// custom terminal type and all. An entry has a name and a host; a user name or a
/// terminal type that is empty, or spelled like the default choice, means none.
pub proof fn editing_keeps_an_entry(entry: EntryModel)
    requires
        entry.name.len() > 0,
        entry.host.len() > 0,
        entry.username != Some(Seq::<char>::empty()),
        entry.terminal_type != Some(Seq::<char>::empty()),
        entry.terminal_type != Some(default_choice()),
    ensures
        entry_of(edit_form(entry)) == Some(entry),
{
    let m = edit_form(entry);
    decimal_reads_back(entry.port as nat, u16::MAX as nat);
    let listed = seq![default_choice()] + standard_types();
    match entry.username {
        Some(u) => {
            if u.len() == 0 {
                assert(u =~= Seq::<char>::empty());
            }
        },
        None => {},
    }
    match entry.terminal_type {
        Some(t) => {
            if t.len() == 0 {
                assert(t =~= Seq::<char>::empty());
            }
            if !listed.contains(t) {
                assert(m.terminal_types == listed.insert(1, t));
                assert(m.terminal_types[1] == t);
                assert(m.terminal_types.contains(t));
            }
            place_is_first(m.terminal_types, t);
        },
        None => {
            assert(m.terminal_types[0] == default_choice());
        },
    }
}

/// Opening the settings and saving them as they stand keeps them, where they are
/// ones that the popup can describe: a scrollback within the limit and a terminal
/// type that is not empty.
pub proof fn editing_keeps_the_settings(s: SettingsModel)
    requires
        s.scrollback_lines <= MAX_SCROLLBACK,
        s.terminal_type.len() > 0,
    ensures
        settings_of(settings_form(s)) == Some(s),
        validated(settings_form(s)) == settings_form(s),
{
    let m = settings_form(s);
    let n = s.scrollback_lines as nat;
    crate::text::decimal_is_trimmed(n);
    decimal_reads_back(n, MAX_SCROLLBACK as nat);
    place_is_first(standard_types(), s.terminal_type);
}

/// The terminal types on offer are these six; a form offers the default before them, and a
/// type of the entry's own that is not among them in between.
pub proof fn terminal_types_on_offer(own: Seq<char>)
    ensures
        standard_types().len() == 6,
        standard_types()[0] == "xterm-256color"@,
        standard_types()[1] == "xterm"@,
        standard_types()[2] == "ansi"@,
        standard_types()[3] == "vt100"@,
        standard_types()[4] == "vt220"@,
        standard_types()[5] == "dumb"@,
        form_types(None).len() == 7,
        form_types(None)[0] == "(default)"@,
        forall|i: int| 0 <= i < 6 ==> form_types(None)[i + 1] == #[trigger] standard_types()[i],
        form_types(Some(seq![])) == form_types(None),
        form_types(None).contains(own) ==> form_types(Some(own)) == form_types(None),
        own.len() > 0 && !form_types(None).contains(own) ==> {
            &&& form_types(Some(own)).len() == 8
            &&& form_types(Some(own))[0] == "(default)"@
            &&& form_types(Some(own))[1] == own
            &&& forall|i: int|
                0 <= i < 6 ==> form_types(Some(own))[i + 2] == #[trigger] standard_types()[i]
        },
{
}

/// The choices of a form's input mode are the default, `line` and `character`, in this
/// order, and mean no mode of its own, line mode and character mode.
pub proof fn input_modes_on_offer()
    ensures
        input_mode_choices().len() == 3,
        input_mode_choices()[0] == "(default)"@,
        input_mode_choices()[1] == "line"@,
        input_mode_choices()[2] == "character"@,
        chosen_mode(0) is None,
        chosen_mode(1) == Some(InputMode::LineBuffered),
        chosen_mode(2) == Some(InputMode::Character),
        mode_choice(None) == 0,
        mode_choice(Some(InputMode::LineBuffered)) == 1,
        mode_choice(Some(InputMode::Character)) == 2,
{
}

/// A form of an entry has the entry's own terminal type chosen, or the default where it has
/// none; the settings have theirs chosen, first on the list if it is not on it.
pub proof fn the_terminal_type_is_chosen(entry: EntryModel, s: SettingsModel)
    requires
        entry.terminal_type != Some(Seq::<char>::empty()),
        s.terminal_type.len() > 0,
    ensures
        ({
            let form = edit_form(entry);
            let p = settings_form(s);
            &&& 0 <= form.terminal_type < form.terminal_types.len()
            &&& 0 <= p.terminal_type < p.terminal_types.len()
            &&& entry.terminal_type is Some ==> form.terminal_types[form.terminal_type]
                == entry.terminal_type->0
            &&& entry.terminal_type is None ==> form.terminal_types[form.terminal_type]
                == "(default)"@
            &&& p.terminal_types[p.terminal_type] == s.terminal_type
            &&& standard_types().contains(s.terminal_type) ==> p.terminal_types == standard_types()
            &&& !standard_types().contains(s.terminal_type) ==> p.terminal_types
                == standard_types().insert(0, s.terminal_type)
        }),
{
    let form = edit_form(entry);
    place_is_first(standard_types(), s.terminal_type);
    match entry.terminal_type {
        Some(t) => {
            if t.len() == 0 {
                assert(t =~= Seq::<char>::empty());
            }
            let listed = seq![default_choice()] + standard_types();
            if !listed.contains(t) {
                assert(form.terminal_types == listed.insert(1, t));
                assert(form.terminal_types[1] == t);
                assert(form.terminal_types.contains(t));
            }
            place_is_first(form.terminal_types, t);
        },
        None => {},
    }
}

} // verus!
