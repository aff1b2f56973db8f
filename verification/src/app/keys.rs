//! What keys, the mouse and pastes do.

use super::link::echo_read;
use super::model::{
    address_book_key, address_book_letter, capture_toggled, chord_key, connected_key,
    connecting_key, disconnected, entered, key_counts, key_fits, key_pressed, letter_popup,
    mouse_used, no_popup_is_wf, paste, pasted, popup_wf, quit, resumes, saved_bytes,
    session_key, terminal_event, terminal_event_counts, terminal_event_fits,
    terminal_event_is_safe, AppModel, KEY_SCROLL_LINES, MOUSE_SCROLL_LINES,
};
use super::typing::{crlf_bytes, drop_breaks, keep_digits};
use super::book::{selected_next, selected_previous, selecting_goes_round, Book};
use super::{popup_model, App, AppState, ChordMode};
use crate::config::capture::CaptureFile;
use crate::config::settings::Settings;
use crate::entry::InputMode;
use crate::events::{effect_models, ConnectionCommand, Effect};
use crate::keys::{Key, KeyCode, Mouse, TerminalEvent, TerminalEventModel};
use crate::popup::{EditSettingsPopup, FormPopup, Popup, SettingsField};
use crate::terminal::emulator::ready_screens_take_any_output;
use crate::text::push_decimal;
use vstd::prelude::*;
use vstd::string::*;

verus! {

/// How much a capture has saved, and where.
pub(super) fn push_saved_bytes(out: &mut String, cap: &CaptureFile)
    ensures
        final(out)@ == old(out)@ + saved_bytes(cap@),
{
    out.append("saved ");
    push_decimal(out, cap.bytes_written());
    out.append(" bytes → ");
    out.append(cap.path());
    assert(out@ =~= old(out)@ + saved_bytes(cap@));
}

/// A popup with `text` pasted into it, if it takes text.
fn paste_into_popup(popup: Popup, text: &str) -> (after: Popup)
    ensures
        after@ == pasted(popup@, text@),
        forall|selected: int, count: nat|
            #![trigger popup_wf(Some(after@), selected, count)]
            popup_wf(Some(popup@), selected, count) ==> popup_wf(Some(after@), selected, count),
{
    proof {
        reveal(popup_wf);
    }
    match popup {
        Popup::Password(mut pw) => {
            pw.append(&drop_breaks(text));
            Popup::Password(pw)
        },
        Popup::Form(mut form) => {
            form.type_text(&drop_breaks(text));
            Popup::Form(form)
        },
        Popup::EditSettings(mut p) => {
            if p.focused == SettingsField::Scrollback {
                p.scrollback_input.append(&keep_digits(text));
            }
            Popup::EditSettings(p)
        },
        other => other,
    }
}

/// The popup that a letter opens in the address book, if any.
fn popup_for(book: &Book, settings: &Settings, c: char) -> (popup: Option<Popup>)
    ensures
        popup_model(popup) == letter_popup(book@, settings@, c),
        popup_wf(popup_model(popup), book@.selected, book@.entries.len()),
{
    proof {
        reveal(popup_wf);
    }
    if c == 'a' || c == 'A' {
        return Some(Popup::Form(FormPopup::new_add()));
    }
    if (c == 'e' || c == 'E') && book.selected < book.entries.len() {
        let form = FormPopup::new_edit(&book.entries[book.selected]);
        assert(form@ == crate::popup::edit_form(book@.entries[book@.selected]));
        return Some(Popup::Form(form));
    }
    if (c == 'd' || c == 'D') && book.entries.len() > 0 {
        return Some(Popup::DeleteConfirm);
    }
    if c == 's' || c == 'S' {
        return Some(Popup::EditSettings(EditSettingsPopup::from_settings(settings)));
    }
    None
}

impl App {
    /// An event of the user's terminal, given whether the telnet server echoes.
    pub fn on_terminal_event(&mut self, event: TerminalEvent, server_echo: bool) -> (effects: Vec<
        Effect,
    >)
        requires
            old(self).wf(),
            terminal_event_fits(old(self)@, event@, server_echo),
        ensures
            final(self)@ == terminal_event(old(self)@, event@, server_echo).app,
            effect_models(effects@) == terminal_event(old(self)@, event@, server_echo).effects,
            final(self).wf(),
    {
        match event {
            // Only react to press and repeat. Release events would otherwise
            // double-fire handlers and silently consume chord state.
            TerminalEvent::Key { key, released } => {
                if released {
                    return Vec::new();
                }
                return self.handle_key(key, server_echo);
            },
            TerminalEvent::Mouse(mouse) => {
                self.handle_mouse(mouse);
                return Vec::new();
            },
            TerminalEvent::Resize(w, h) => {
                self.resize(w, h);
                return self.apply_viewport_to_connection();
            },
            TerminalEvent::Paste(text) => {
                return self.handle_paste(text, server_echo);
            },
            TerminalEvent::Other => {
                return Vec::new();
            },
        }
    }

    /// An event of the user's terminal. Whether the telnet server echoes is read from
    /// the flags that are shared with the connection.
    pub fn handle_crossterm_event(&mut self, event: TerminalEvent) -> (effects: Vec<Effect>)
        requires
            old(self).wf(),
            forall|server_echo: bool|
                echo_read(old(self)@.link, server_echo) ==> #[trigger] terminal_event_fits(
                    old(self)@,
                    event@,
                    server_echo,
                ),
        ensures
            exists|server_echo: bool|
                echo_read(old(self)@.link, server_echo) && {
                    let outcome = #[trigger] terminal_event(old(self)@, event@, server_echo);
                    final(self)@ == outcome.app && effect_models(effects@) == outcome.effects
                },
            final(self).wf(),
    {
        let server_echo = self.link.server_echo();
        let effects = self.on_terminal_event(event, server_echo);
        assert(effect_models(effects@) == terminal_event(
            old(self)@,
            event@,
            server_echo,
        ).effects);
        effects
    }

    /// Takes an event of the user's terminal if it can be told beforehand that what it
    /// draws can be drawn; otherwise the event comes back, and nothing has changed.
    pub fn offer_terminal_event(&mut self, event: TerminalEvent) -> (taken: Result<
        Vec<Effect>,
        TerminalEvent,
    >)
        requires
            old(self).wf(),
        ensures
            taken is Ok == terminal_event_is_safe(old(self)@, event@),
            match taken {
                Ok(effects) => exists|server_echo: bool|
                    echo_read(old(self)@.link, server_echo) && {
                        let outcome = #[trigger] terminal_event(old(self)@, event@, server_echo);
                        final(self)@ == outcome.app && effect_models(effects@) == outcome.effects
                    },
                Err(e) => e == event && final(self)@ == old(self)@,
            },
            final(self).wf(),
    {
        if !self.takes_terminal_event(&event) {
            return Err(event);
        }
        if self.link.telnet_flags.is_some() && self.may_echo(&event) {
            if !self.emulator.can_process() {
                return Err(event);
            }
            proof {
                ready_screens_take_any_output(&self.emulator);
            }
        }
        Ok(self.handle_crossterm_event(event))
    }

    /// A bracketed paste. It goes into the active text field, the password popup, or
    /// the live connection.
    pub fn handle_paste(&mut self, text: String, server_echo: bool) -> (effects: Vec<Effect>)
        requires
            old(self).wf(),
            terminal_event_fits(old(self)@, TerminalEventModel::Paste(text@), server_echo),
        ensures
            final(self)@ == paste(old(self)@, text@, server_echo).app,
            effect_models(effects@) == paste(old(self)@, text@, server_echo).effects,
            final(self).wf(),
    {
        if text.as_str().is_empty() {
            return Vec::new();
        }
        match self.popup.take() {
            Some(popup) => {
                self.popup = Some(paste_into_popup(popup, &text));
                return Vec::new();
            },
            None => {},
        }
        if self.state != AppState::Connected {
            return Vec::new();
        }
        if self.input_mode == InputMode::LineBuffered {
            // The user hits Enter explicitly to send.
            self.line.type_text(&drop_breaks(&text));
            return Vec::new();
        }
        if !self.link.open {
            return Vec::new();
        }
        let bytes = crlf_bytes(&text);
        if self.needs_local_echo(server_echo) {
            self.emulator.process(&bytes);
        }
        vec![Effect::Send(ConnectionCommand::SendRaw(bytes))]
    }

    pub fn handle_mouse(&mut self, mouse: Mouse)
        requires
            old(self).wf(),
            terminal_event_counts(old(self)@, TerminalEventModel::Mouse(mouse)),
        ensures
            final(self)@ == mouse_used(old(self)@, mouse),
            final(self).wf(),
    {
        if self.state != AppState::Connected {
            return;
        }
        match mouse {
            Mouse::ScrollUp => self.emulator.scroll_up(MOUSE_SCROLL_LINES),
            Mouse::ScrollDown => self.emulator.scroll_down(MOUSE_SCROLL_LINES),
            Mouse::Other => {},
        }
    }

    pub fn handle_key(&mut self, key: Key, server_echo: bool) -> (effects: Vec<Effect>)
        requires
            old(self).wf(),
            key_fits(old(self)@, key, server_echo),
        ensures
            final(self)@ == key_pressed(old(self)@, key, server_echo).app,
            effect_models(effects@) == key_pressed(old(self)@, key, server_echo).effects,
            final(self).wf(),
    {
        // Ctrl+C quits everywhere except character mode while connected: there ^C
        // must reach the remote. Quit from there with Ctrl+] q instead.
        let in_char_session = self.state == AppState::Connected && self.input_mode
            == InputMode::Character && self.popup.is_none() && self.chord == ChordMode::Normal;
        if key.modifiers.control && key.code == KeyCode::Char('c') && !in_char_session {
            let effects = self.cancel_connection();
            self.quit = true;
            return effects;
        }
        // A popup intercepts all keys when open.
        if self.popup.is_some() {
            return self.handle_key_popup(key);
        }
        match self.state {
            AppState::AddressBook => {
                return self.handle_key_address_book(key);
            },
            AppState::Connecting => {
                return self.handle_key_connecting(key);
            },
            AppState::Connected => {
                return self.handle_key_connected(key, server_echo);
            },
        }
    }

    /// The session ends and the program with it.
    fn quit_now(&mut self) -> (effects: Vec<Effect>)
        requires
            old(self).wf(),
        ensures
            final(self)@ == quit(old(self)@).app,
            effect_models(effects@) == quit(old(self)@).effects,
            final(self).wf(),
    {
        let effects = self.cancel_connection();
        self.book.connected = None;
        self.quit = true;
        effects
    }

    /// The session ends, and the address book says so.
    fn disconnect(&mut self) -> (effects: Vec<Effect>)
        requires
            old(self).wf(),
        ensures
            final(self)@ == disconnected(old(self)@).app,
            effect_models(effects@) == disconnected(old(self)@).effects,
            final(self).wf(),
    {
        let effects = self.cancel_connection();
        self.book.connected = None;
        self.status_message = "Disconnected".to_owned();
        effects
    }

    /// Resumes the selected entry's session, or connects to it.
    fn enter(&mut self) -> (effects: Vec<Effect>)
        requires
            old(self).wf(),
            !resumes(old(self)@) && old(self)@.book.selected < old(self)@.book.entries.len()
                ==> old(self)@.link.id < u64::MAX,
        ensures
            final(self)@ == entered(old(self)@).app,
            effect_models(effects@) == entered(old(self)@).effects,
            final(self).wf(),
    {
        if self.book.on_session() && self.link.open {
            self.state = AppState::Connected;
            let mut status = "Connected to ".to_owned();
            status.append(self.book.selected_name());
            self.status_message = status;
            return Vec::new();
        }
        self.connect()
    }

    /// Moves the selection up.
    fn select_previous(&mut self)
        requires
            old(self).wf(),
            old(self)@.popup is None,
        ensures
            final(self)@ == (AppModel { book: selected_previous(old(self)@.book), ..old(self)@ }),
            final(self).wf(),
    {
        self.book.select_previous();
        proof {
            selecting_goes_round(old(self)@.book);
            no_popup_is_wf(self@.book.selected, self@.book.entries.len());
        }
    }

    /// Moves the selection down.
    fn select_next(&mut self)
        requires
            old(self).wf(),
            old(self)@.popup is None,
        ensures
            final(self)@ == (AppModel { book: selected_next(old(self)@.book), ..old(self)@ }),
            final(self).wf(),
    {
        self.book.select_next();
        proof {
            selecting_goes_round(old(self)@.book);
            no_popup_is_wf(self@.book.selected, self@.book.entries.len());
        }
    }

    /// A letter in the address book.
    fn handle_letter_address_book(&mut self, c: char) -> (effects: Vec<Effect>)
        requires
            old(self).wf(),
            old(self)@.popup is None,
        ensures
            final(self)@ == address_book_letter(old(self)@, c).app,
            effect_models(effects@) == address_book_letter(old(self)@, c).effects,
            final(self).wf(),
    {
        if c == 'q' || c == 'Q' {
            return self.quit_now();
        }
        if c == 'k' {
            self.select_previous();
            return Vec::new();
        }
        if c == 'j' {
            self.select_next();
            return Vec::new();
        }
        self.popup = popup_for(&self.book, &self.settings, c);
        Vec::new()
    }

    pub fn handle_key_address_book(&mut self, key: Key) -> (effects: Vec<Effect>)
        requires
            old(self).wf(),
            old(self)@.popup is None,
            old(self)@.state == AppState::AddressBook,
            key_counts(old(self)@, key),
        ensures
            final(self)@ == address_book_key(old(self)@, key).app,
            effect_models(effects@) == address_book_key(old(self)@, key).effects,
            final(self).wf(),
    {
        // Ctrl+D: disconnect active session from address book.
        if key.modifiers.control && key.code == KeyCode::Char('d') {
            if self.book.connected.is_some() {
                return self.disconnect();
            }
            return Vec::new();
        }
        match key.code {
            KeyCode::Esc => {
                return self.quit_now();
            },
            KeyCode::Up => {
                self.select_previous();
                return Vec::new();
            },
            KeyCode::Down => {
                self.select_next();
                return Vec::new();
            },
            KeyCode::Enter => {
                return self.enter();
            },
            KeyCode::Char(c) => {
                return self.handle_letter_address_book(c);
            },
            _ => {
                return Vec::new();
            },
        }
    }

    pub fn handle_key_connecting(&mut self, key: Key) -> (effects: Vec<Effect>)
        requires
            old(self).wf(),
        ensures
            final(self)@ == connecting_key(old(self)@, key).app,
            effect_models(effects@) == connecting_key(old(self)@, key).effects,
            final(self).wf(),
    {
        if key.code != KeyCode::Esc {
            return Vec::new();
        }
        let effects = self.cancel_connection();
        // A Connected event already queued for the aborted attempt is stale.
        self.link.bump();
        self.state = AppState::AddressBook;
        self.status_message = "Connection cancelled".to_owned();
        effects
    }

    /// Toggle session capture: if it is on, close the file and tell bytes saved and
    /// path; if it is off, ask for a fresh file for the connected entry.
    pub fn toggle_capture(&mut self) -> (effects: Vec<Effect>)
        requires
            old(self).wf(),
        ensures
            final(self)@ == capture_toggled(old(self)@).app,
            effect_models(effects@) == capture_toggled(old(self)@).effects,
            final(self).wf(),
    {
        match self.capture.take() {
            Some(cap) => {
                let mut status = "Capture stopped: ".to_owned();
                push_saved_bytes(&mut status, &cap);
                self.status_message = status;
                return vec![Effect::CloseCapture];
            },
            None => {},
        }
        let index: usize = match self.book.connected {
            Some(i) => i,
            None => {
                self.status_message = "Capture: no active connection".to_owned();
                return Vec::new();
            },
        };
        if index >= self.book.entries.len() {
            self.status_message = "Capture: connected entry vanished".to_owned();
            return Vec::new();
        }
        let entry = &self.book.entries[index];
        assert(entry@ == self@.book.entries[index as int]);
        vec![
            Effect::OpenCapture {
                entry_name: entry.name.clone(),
                host: entry.host.clone(),
                port: entry.port,
            },
        ]
    }

    /// The key after `Ctrl+]`.
    fn handle_chord(&mut self, key: Key) -> (effects: Vec<Effect>)
        requires
            old(self).wf(),
            old(self)@.popup is None,
        ensures
            final(self)@ == chord_key(old(self)@, key).app,
            effect_models(effects@) == chord_key(old(self)@, key).effects,
            final(self).wf(),
    {
        proof {
            reveal(popup_wf);
        }
        self.chord = ChordMode::Normal;
        let c: char = match key.code {
            KeyCode::Char(c) => c,
            _ => {
                return Vec::new();
            },
        };
        if c == 'l' || c == 'L' {
            return self.toggle_capture();
        }
        if c == '?' {
            self.popup = Some(Popup::ChordHelp);
            return Vec::new();
        }
        if c == 'q' || c == 'Q' {
            return self.quit_now();
        }
        // A mistype is swallowed rather than sent on.
        Vec::new()
    }

    pub fn handle_key_connected(&mut self, key: Key, server_echo: bool) -> (effects: Vec<Effect>)
        requires
            old(self).wf(),
            old(self)@.popup is None,
            old(self)@.state == AppState::Connected,
            key_fits(old(self)@, key, server_echo),
        ensures
            final(self)@ == connected_key(old(self)@, key, server_echo).app,
            effect_models(effects@) == connected_key(old(self)@, key, server_echo).effects,
            final(self).wf(),
    {
        if self.chord == ChordMode::Awaiting {
            return self.handle_chord(key);
        }
        // Ctrl+] starts a local command. Terminals in legacy mode report its byte
        // as Ctrl+5. It is never forwarded, so local commands stay available.
        if key.modifiers.control && (key.code == KeyCode::Char(']') || key.code == KeyCode::Char(
            '5',
        )) {
            self.chord = ChordMode::Awaiting;
            self.status_message = "Ctrl+] (waiting for command — ? for help)".to_owned();
            return Vec::new();
        }
        // Esc: suspend the session and return to the address book, still connected.
        if key.code == KeyCode::Esc {
            self.state = AppState::AddressBook;
            let mut status = "Session suspended — ".to_owned();
            status.append(self.book.selected_name());
            status.append(" (Enter to resume, Ctrl+D to disconnect)");
            self.status_message = status;
            return Vec::new();
        }
        self.handle_key_session(key, server_echo)
    }

    /// A key in a session that neither leaves it nor starts a local command.
    fn handle_key_session(&mut self, key: Key, server_echo: bool) -> (effects: Vec<Effect>)
        requires
            old(self).wf(),
            old(self)@.popup is None,
            old(self)@.state == AppState::Connected,
            old(self)@.chord == ChordMode::Normal,
            key_fits(old(self)@, key, server_echo),
        ensures
            final(self)@ == session_key(old(self)@, key, server_echo).app,
            effect_models(effects@) == session_key(old(self)@, key, server_echo).effects,
            final(self).wf(),
    {
        // Ctrl+D: disconnect in line mode only. In character mode ^D is EOT and must
        // reach the remote.
        if key.modifiers.control && key.code == KeyCode::Char('d') && self.input_mode
            == InputMode::LineBuffered {
            let effects = self.disconnect();
            self.state = AppState::AddressBook;
            return effects;
        }
        // Tab toggles the input mode. The viewport changes, so the peer is told.
        if key.code == KeyCode::Tab && !key.modifiers.shift && !key.modifiers.control
            && !key.modifiers.other {
            self.input_mode = self.input_mode.toggled();
            self.input_mode_user_set = true;
            return self.apply_viewport_to_connection();
        }
        // Shift+PageUp/Down always scrolls locally, regardless of mode.
        if key.modifiers.shift && key.code == KeyCode::PageUp {
            self.emulator.scroll_up(KEY_SCROLL_LINES);
            return Vec::new();
        }
        if key.modifiers.shift && key.code == KeyCode::PageDown {
            self.emulator.scroll_down(KEY_SCROLL_LINES);
            return Vec::new();
        }
        match self.input_mode {
            InputMode::LineBuffered => {
                return self.handle_key_line_buffered(key, server_echo);
            },
            InputMode::Character => {
                return self.handle_key_character(key, server_echo);
            },
        }
    }
}

} // verus!
