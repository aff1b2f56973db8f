//! The application: what is on screen, and what keys and network events do to it.

pub mod book;
pub mod book_laws;
pub mod call_laws;
pub mod event_laws;
pub mod input;
pub mod keys;
pub mod laws;
pub mod line;
pub mod link;
pub mod model;
pub mod popups;
pub mod session;
pub mod typing;
pub mod typing_laws;

use self::book::{Book, BookModel};
use self::line::{blank_line, LineEditor};
use self::link::{no_link, Link};
use self::model::{
    app_wf, cancelled, connect, event_echo, initial_mode, key_counts, local_echo, popup_wf,
    terminal_event_counts, viewport, viewport_applied, AppModel, KEY_SCROLL_LINES,
    MOUSE_SCROLL_LINES,
};
use crate::config::address_book::LoadResult;
use crate::config::capture::{CaptureFile, CaptureModel};
use crate::config::settings::{LoadedSettings, Settings, SettingsModel};
use crate::entry::{entry_models, AddressBookEntry, EntryModel, InputMode, Protocol};
use crate::events::{
    effect_models, ConnectModel, ConnectRequest, ConnectionCommand, Effect, EffectModel,
};
use crate::keys::{Key, KeyCode, Mouse, TerminalEvent};
use crate::network::ssh::{resolve_ssh_username, LoginModel, LoginNames};
use crate::popup::{Popup, PopupModel};
use crate::terminal::ansi_query::AnsiQueryScanner;
use crate::terminal::emulator::{opened, TerminalEmulator};
use crate::text::{clone_opt, opt_text};
use vstd::prelude::*;
use vstd::string::*;

verus! {

/// Whether a local command is being typed.
#[derive(Debug, Clone, Copy, PartialEq, Eq, Structural)]
pub enum ChordMode {
    Normal,
    Awaiting,
}

#[derive(Debug, Clone, Copy, PartialEq, Eq, Structural)]
pub enum AppState {
    AddressBook,
    Connecting,
    Connected,
}

pub struct App {
    pub state: AppState,
    pub input_mode: InputMode,
    pub popup: Option<Popup>,
    pub book: Book,
    pub line: LineEditor,
    pub link: Link,
    pub emulator: TerminalEmulator,
    pub ansi_query_scanner: AnsiQueryScanner,
    pub status_message: String,
    pub settings: Settings,
    pub capture: Option<CaptureFile>,
    /// Typed characters on the current line in character mode.
    pub char_input_len: usize,
    pub chord: ChordMode,
    pub shown_chord_hint: bool,
    /// True once the user has Tab-toggled input mode this session. Suppresses the
    /// switch on telnet WILL ECHO so we don't fight the user's choice.
    pub input_mode_user_set: bool,
    pub quit: bool,
    pub width: u16,
    pub height: u16,
    /// Who the environment says is at the keyboard.
    pub login: LoginNames,
}

/// What an optional popup shows.
pub open spec fn popup_model(popup: Option<Popup>) -> Option<PopupModel> {
    match popup {
        Some(p) => Some(p@),
        None => None,
    }
}

/// What an optional capture file says.
pub open spec fn capture_model(capture: Option<CaptureFile>) -> Option<CaptureModel> {
    match capture {
        Some(file) => Some(file@),
        None => None,
    }
}

/// The warnings that there are, one per line.
pub open spec fn warning_lines(warnings: Seq<Option<Seq<char>>>) -> Seq<char>
    decreases warnings.len(),
{
    if warnings.len() == 0 {
        seq![]
    } else {
        let before = warning_lines(warnings.drop_last());
        match warnings.last() {
            Some(w) => if any_warning(warnings.drop_last()) {
                before + "\n"@ + w
            } else {
                w
            },
            None => before,
        }
    }
}

/// Whether there is a warning.
pub open spec fn any_warning(warnings: Seq<Option<Seq<char>>>) -> bool {
    exists|i: int| 0 <= i < warnings.len() && #[trigger] warnings[i] is Some
}

/// The warnings that there are, one per line.
fn join_warnings(warnings: &Vec<Option<String>>) -> (lines: String)
    ensures
        lines@ == warning_lines(Seq::new(warnings@.len(), |i: int| opt_text(warnings@[i]))),
{
    let ghost all = Seq::new(warnings@.len(), |i: int| opt_text(warnings@[i]));
    let mut lines = String::new();
    let mut any = false;
    let mut i: usize = 0;
    assert(all.take(0) =~= seq![]);
    while i < warnings.len()
        invariant
            i <= warnings@.len(),
            all == Seq::new(warnings@.len(), |i: int| opt_text(warnings@[i])),
            lines@ == warning_lines(all.take(i as int)),
            any == any_warning(all.take(i as int)),
            !any ==> lines@ == Seq::<char>::empty(),
        decreases warnings@.len() - i,
    {
        let ghost before = all.take(i as int);
        let ghost after = all.take(i + 1);
        assert(after.drop_last() =~= before);
        match &warnings[i] {
            Some(w) => {
                if any {
                    lines.append("\n");
                }
                lines.append(w);
                assert(!any ==> lines@ =~= w@);
                any = true;
                assert(after[i as int] is Some);
            },
            None => {
                proof {
                    assert forall|j: int| 0 <= j < after.len() && #[trigger] after[j] is Some implies
                    before[j] is Some && j < before.len() by {}
                    if any {
                        let j = choose|j: int| 0 <= j < before.len() && #[trigger] before[j] is Some;
                        assert(after[j] is Some);
                    }
                }
            },
        }
        i = i + 1;
    }
    assert(all.take(i as int) =~= all);
    lines
}

/// The application at its start.
pub open spec fn started(
    entries: Seq<EntryModel>,
    settings: SettingsModel,
    status: Seq<char>,
    login: LoginModel,
) -> AppModel {
    AppModel {
        state: AppState::AddressBook,
        input_mode: settings.default_input_mode,
        popup: None,
        book: BookModel { entries, selected: 0, connected: None },
        line: blank_line(),
        link: no_link(),
        emulator: opened(24, 80, settings.scrollback_lines),
        scanner: seq![],
        status,
        settings,
        capture: None,
        char_input_len: 0,
        chord: ChordMode::Normal,
        shown_chord_hint: false,
        input_mode_user_set: false,
        quit: false,
        width: 80,
        height: 24,
        login,
    }
}

impl App {
    /// The state of the application.
    pub open spec fn view(&self) -> AppModel {
        AppModel {
            state: self.state,
            input_mode: self.input_mode,
            popup: popup_model(self.popup),
            book: self.book@,
            line: self.line@,
            link: self.link@,
            emulator: self.emulator@,
            scanner: self.ansi_query_scanner.pending(),
            status: self.status_message@,
            settings: self.settings@,
            capture: capture_model(self.capture),
            char_input_len: self.char_input_len as int,
            chord: self.chord,
            shown_chord_hint: self.shown_chord_hint,
            input_mode_user_set: self.input_mode_user_set,
            quit: self.quit,
            width: self.width,
            height: self.height,
            login: self.login@,
        }
    }

    /// The indices that the application holds are in range, and its emulator knows
    /// its screen.
    pub open spec fn wf(&self) -> bool {
        app_wf(self@) && self.emulator.wf()
    }

    /// The application with what was found in its files, and the login names of the
    /// environment. Warnings are shown one per line.
    pub fn new(
        book: LoadResult,
        hosts_warning: Option<String>,
        loaded: LoadedSettings,
        login: LoginNames,
    ) -> (app: Self)
        ensures
            app@ == started(
                entry_models(book.entries@),
                loaded.settings@,
                warning_lines(
                    seq![opt_text(book.warning), opt_text(hosts_warning), opt_text(loaded.warning)],
                ),
                login@,
            ),
            app.wf(),
    {
        let ghost warned = seq![
            opt_text(book.warning),
            opt_text(hosts_warning),
            opt_text(loaded.warning),
        ];
        let warnings = vec![book.warning, hosts_warning, loaded.warning];
        assert(Seq::new(warnings@.len(), |i: int| opt_text(warnings@[i])) =~= warned);
        let status_message = join_warnings(&warnings);
        Self::start(book.entries, loaded.settings, status_message, login)
    }

    /// The application with the given entries, settings and status line.
    pub fn start(
        entries: Vec<AddressBookEntry>,
        settings: Settings,
        status_message: String,
        login: LoginNames,
    ) -> (app: Self)
        ensures
            app@ == started(entry_models(entries@), settings@, status_message@, login@),
            app.wf(),
    {
        proof {
            reveal(popup_wf);
        }
        let scrollback: usize = settings.scrollback_lines;
        let initial_mode = settings.default_input_mode;
        App {
            state: AppState::AddressBook,
            input_mode: initial_mode,
            popup: None,
            book: Book::new(entries),
            line: LineEditor::new(),
            link: Link::new(),
            emulator: TerminalEmulator::new(24, 80, scrollback),
            ansi_query_scanner: AnsiQueryScanner::new(),
            status_message,
            settings,
            capture: None,
            char_input_len: 0,
            chord: ChordMode::Normal,
            shown_chord_hint: false,
            input_mode_user_set: false,
            quit: false,
            width: 80,
            height: 24,
            login,
        }
    }

    pub fn should_quit(&self) -> (quit: bool)
        ensures
            quit == self@.quit,
    {
        self.quit
    }

    /// Returns true if we should echo typed characters locally. SSH handles echo
    /// via the PTY, so no local echo is needed. For telnet: when the server
    /// negotiates WILL ECHO, it handles echoing.
    pub fn needs_local_echo(&self, server_echo: bool) -> (echo: bool)
        ensures
            echo == local_echo(self@, server_echo),
    {
        match &self.link.telnet_flags {
            Some(_) => !server_echo,
            None => false,
        }
    }

    /// Viewport size, columns first: character mode is the full height minus the
    /// status bar; line mode also subtracts the 3-row input bar.
    pub fn terminal_viewport(&self) -> (size: (u16, u16))
        ensures
            size == viewport(self@),
            size.0 > 0,
            size.1 > 0,
    {
        let cols: u16 = if self.width == 0 {
            1
        } else {
            self.width
        };
        let chrome: u16 = match self.input_mode {
            InputMode::Character => 1,
            InputMode::LineBuffered => 4,
        };
        let rows: u16 = if self.height <= chrome {
            1
        } else {
            self.height - chrome
        };
        (cols, rows)
    }

    /// Resize the local emulator and notify the peer (NAWS / SSH window change).
    pub fn apply_viewport_to_connection(&mut self) -> (effects: Vec<Effect>)
        requires
            old(self).wf(),
        ensures
            final(self)@ == viewport_applied(old(self)@).app,
            effect_models(effects@) == viewport_applied(old(self)@).effects,
            final(self).wf(),
    {
        let (cols, rows) = self.terminal_viewport();
        self.emulator.resize(rows, cols);
        self.link.command(ConnectionCommand::Resize(cols, rows))
    }

    pub fn resize(&mut self, width: u16, height: u16)
        requires
            old(self).wf(),
        ensures
            final(self)@ == (AppModel { width, height, ..old(self)@ }),
            final(self).wf(),
    {
        self.width = width;
        self.height = height;
    }

    /// Pick the initial input mode for a new connection.
    pub fn initial_input_mode_for(entry: &AddressBookEntry, settings: &Settings) -> (mode:
        InputMode)
        ensures
            mode == initial_mode(entry@, settings@),
    {
        match entry.default_input_mode {
            Some(mode) => mode,
            None => match entry.protocol {
                // Interactive shells and full-screen apps expect raw keys.
                Protocol::Ssh => InputMode::Character,
                Protocol::Telnet => settings.default_input_mode,
            },
        }
    }

    /// Whether the counters leave room for what an event of the user's terminal does.
    pub fn takes_terminal_event(&self, event: &TerminalEvent) -> (takes: bool)
        requires
            self.wf(),
        ensures
            takes == terminal_event_counts(self@, event@),
    {
        match event {
            TerminalEvent::Key { key, released } => *released || self.takes_key(*key),
            TerminalEvent::Mouse(mouse) => self.state != AppState::Connected || *mouse
                != Mouse::ScrollUp || self.emulator.scroll_offset() <= usize::MAX
                - MOUSE_SCROLL_LINES,
            TerminalEvent::Paste(_) | TerminalEvent::Resize(_, _) | TerminalEvent::Other => true,
        }
    }

    /// Whether the counters leave room for what a key does.
    fn takes_key(&self, key: Key) -> (takes: bool)
        requires
            self.wf(),
        ensures
            takes == key_counts(self@, key),
    {
        if self.popup.is_some() {
            return true;
        }
        match self.state {
            AppState::Connecting => true,
            AppState::AddressBook => {
                key.code != KeyCode::Enter || (self.book.on_session() && self.link.open)
                    || self.book.selected >= self.book.entries.len() || self.link.id < u64::MAX
            },
            AppState::Connected => self.chord != ChordMode::Normal || self.takes_session_key(key),
        }
    }

    /// Whether the counters leave room for what a key does in a session.
    fn takes_session_key(&self, key: Key) -> (takes: bool)
        requires
            self.wf(),
            self@.popup is None,
            self@.state == AppState::Connected,
            self@.chord == ChordMode::Normal,
        ensures
            takes == key_counts(self@, key),
    {
        let typed = match key.code {
            KeyCode::Char(_) => !key.modifiers.control,
            _ => false,
        };
        let in_char = self.input_mode == InputMode::Character;
        if in_char && self.link.open && typed && self.char_input_len == usize::MAX {
            return false;
        }
        !(key.code == KeyCode::PageUp && (key.modifiers.shift || !in_char)
            && self.emulator.scroll_offset() > usize::MAX - KEY_SCROLL_LINES)
    }

    /// Whether an event draws something when the server does not echo.
    fn may_echo(&self, event: &TerminalEvent) -> (draws: bool)
        ensures
            draws == (event_echo(self@, event@) is Some),
    {
        if self.popup.is_some() || self.state != AppState::Connected || !self.link.open {
            return false;
        }
        let in_char = self.input_mode == InputMode::Character;
        match event {
            TerminalEvent::Key { key, released } => {
                if *released || self.chord != ChordMode::Normal {
                    return false;
                }
                match key.code {
                    KeyCode::Enter => true,
                    KeyCode::Char(_) => in_char && !key.modifiers.control,
                    KeyCode::Backspace => in_char && self.char_input_len > 0,
                    _ => false,
                }
            },
            TerminalEvent::Paste(text) => in_char && !text.as_str().is_empty(),
            _ => false,
        }
    }

    /// Cancel the connection. A graceful Disconnect goes first, so that the peer
    /// sees EOF when possible.
    pub fn cancel_connection(&mut self) -> (effects: Vec<Effect>)
        requires
            old(self).wf(),
        ensures
            final(self)@ == cancelled(old(self)@).app,
            effect_models(effects@) == cancelled(old(self)@).effects,
            final(self).wf(),
    {
        self.link.cancel()
    }

    /// What is shown while a connection is made.
    fn connecting_message(entry: &AddressBookEntry, login: &LoginNames) -> (message: String)
        ensures
            message@ == model::connecting_message(entry@, login@),
    {
        let mut message = "Connecting to ".to_owned();
        message.append(&entry.name);
        match entry.protocol {
            Protocol::Telnet => {},
            Protocol::Ssh => {
                let resolved = match &entry.username {
                    Some(u) => resolve_ssh_username(Some(u.as_str()), login),
                    None => resolve_ssh_username(None, login),
                };
                message.append(" as ");
                message.append(&resolved);
            },
        }
        message.append("...");
        message
    }

    /// The request for a connection to `entry`.
    fn request(&self, entry: &AddressBookEntry, cols: u16, rows: u16) -> (request: ConnectRequest)
        ensures
            request@ == (ConnectModel {
                id: self@.link.id,
                protocol: entry@.protocol,
                host: entry@.host,
                port: entry@.port,
                username: entry@.username,
                cols,
                rows,
                terminal_type: model::terminal_type_for(entry@, self@.settings),
            }),
    {
        let terminal_type = match &entry.terminal_type {
            Some(t) => t.clone(),
            None => self.settings.terminal_type.clone(),
        };
        ConnectRequest {
            id: self.link.id,
            protocol: entry.protocol,
            host: entry.host.clone(),
            port: entry.port,
            username: clone_opt(&entry.username),
            cols,
            rows,
            terminal_type,
        }
    }

    /// Connect to the selected entry.
    pub fn connect(&mut self) -> (effects: Vec<Effect>)
        requires
            old(self).wf(),
            old(self)@.book.selected < old(self)@.book.entries.len() ==> old(self)@.link.id
                < u64::MAX,
        ensures
            final(self)@ == connect(old(self)@).app,
            effect_models(effects@) == connect(old(self)@).effects,
            final(self).wf(),
    {
        if self.book.selected >= self.book.entries.len() {
            return Vec::new();
        }
        let entry = self.book.entries[self.book.selected].clone();
        assert(entry@ == self@.book.entries[self@.book.selected]);
        let mut effects = self.link.cancel();
        let ghost before = effects@;
        self.link.id = self.link.id + 1;
        self.link.tasks_running = true;
        self.state = AppState::Connecting;
        self.line.clear();
        self.input_mode = Self::initial_input_mode_for(&entry, &self.settings);
        self.input_mode_user_set = false;
        let (cols, rows) = self.terminal_viewport();
        self.emulator = TerminalEmulator::new(rows, cols, self.settings.scrollback_lines);
        self.status_message = Self::connecting_message(&entry, &self.login);
        let request = self.request(&entry, cols, rows);
        effects.push(Effect::Connect(request));
        assert(effect_models(effects@) =~= effect_models(before).push(
            EffectModel::Connect(request@),
        ));
        effects
    }
}

} // verus!
