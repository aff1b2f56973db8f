//! What the application does, as a function of its state and of what happens.

use super::book::{
    book_wf, selected_name, selected_next, selected_previous, with_entry, with_selected,
    without_selected, BookModel,
};
use super::line::{browsed_down, browsed_up, line_wf, submitted, LineModel};
use super::link::{bumped, cancel_effects, cut, teardown_effects, to_peer, LinkModel};
use super::{AppState, ChordMode};
use crate::config::capture::CaptureModel;
use crate::config::settings::SettingsModel;
use crate::entry::{other_mode, EntryModel, InputMode, Protocol};
use crate::events::{AppEventModel, CommandModel, ConnectModel, EffectModel};
use crate::keys::{f_key_bytes, unmodified, Key, KeyCode, Mouse, TerminalEventModel};
use crate::network::ssh::{login_name, LoginModel};
use crate::network::telnet::TelnetFlags;
use crate::popup::{
    add_form, cycled, edit_form, entry_of, erased, field_after, field_before, form_wf,
    settings_field_after, settings_field_before, settings_form, settings_form_wf, settings_of,
    shortened, toggled, typed, typed_text, validated, EditSettingsModel, FormMode, FormModel,
    HostKeyTrustModel, PopupField, PopupModel, SettingsField,
};
use crate::terminal::ansi_query::{pending_after_all, queries_of};
use crate::terminal::emulator::{fed, opened, resized, scrolled_down, EmulatorModel};
use crate::terminal::responder::{all_drawn, drawn, draws_all};
use crate::terminal::vt::{vt_draws, vt_ready};
use crate::text::{decimal, is_digit};
use std::sync::Arc;
use vstd::prelude::*;
use vstd::utf8::encode_utf8;

verus! {

/// The state of the application.
pub ghost struct AppModel {
    pub state: AppState,
    pub input_mode: InputMode,
    pub popup: Option<PopupModel>,
    pub book: BookModel,
    pub line: LineModel,
    pub link: LinkModel,
    pub emulator: EmulatorModel,
    /// The unfinished escape sequence that the query scanner has seen.
    pub scanner: Seq<u8>,
    pub status: Seq<char>,
    pub settings: SettingsModel,
    pub capture: Option<CaptureModel>,
    /// Typed characters on the current line in character mode.
    pub char_input_len: int,
    pub chord: ChordMode,
    pub shown_chord_hint: bool,
    pub input_mode_user_set: bool,
    pub quit: bool,
    pub width: u16,
    pub height: u16,
    pub login: LoginModel,
}

/// A new state, and what to do about it.
pub ghost struct Outcome {
    pub app: AppModel,
    pub effects: Seq<EffectModel>,
}

/// A new state with nothing to do.
pub open spec fn just(m: AppModel) -> Outcome {
    Outcome { app: m, effects: seq![] }
}

/// Whether a popup is one that can be open while the entry at `selected` of `count`
/// is selected: its choices are among those on offer, and there is an entry to edit.
#[verifier::opaque]
pub open spec fn popup_wf(popup: Option<PopupModel>, selected: int, count: nat) -> bool {
    match popup {
        Some(PopupModel::Form(form)) => form_wf(form) && (form.mode == FormMode::Edit ==> selected
            < count),
        Some(PopupModel::EditSettings(p)) => settings_form_wf(p),
        _ => true,
    }
}

/// No popup is always fine.
pub proof fn no_popup_is_wf(selected: int, count: nat)
    ensures
        popup_wf(None, selected, count),
{
    reveal(popup_wf);
}

/// Whether the indices that the application holds are in range.
pub open spec fn app_wf(m: AppModel) -> bool {
    &&& book_wf(m.book)
    &&& line_wf(m.line)
    &&& popup_wf(m.popup, m.book.selected, m.book.entries.len())
}

/// The size of the terminal, columns first: the window without the status bar and,
/// in line mode, without the input bar.
pub open spec fn viewport(m: AppModel) -> (u16, u16) {
    let cols: u16 = if m.width == 0 {
        1
    } else {
        m.width
    };
    let chrome: int = match m.input_mode {
        InputMode::Character => 1,
        InputMode::LineBuffered => 4,
    };
    let rows: u16 = if m.height <= chrome {
        1
    } else {
        (m.height - chrome) as u16
    };
    (cols, rows)
}

/// The terminal takes on the size of the viewport, and the peer is told.
pub open spec fn viewport_applied(m: AppModel) -> Outcome {
    let (cols, rows) = viewport(m);
    Outcome {
        app: AppModel { emulator: resized(m.emulator, rows, cols), ..m },
        effects: to_peer(m.link, CommandModel::Resize(cols, rows)),
    }
}

/// The connection is cancelled; the peer is told where there is one.
pub open spec fn cancelled(m: AppModel) -> Outcome {
    Outcome { app: AppModel { link: cut(m.link), ..m }, effects: cancel_effects(m.link) }
}

/// Pick the initial input mode for a new connection.
pub open spec fn initial_mode(entry: EntryModel, settings: SettingsModel) -> InputMode {
    match entry.default_input_mode {
        Some(mode) => mode,
        None => match entry.protocol {
            Protocol::Ssh => InputMode::Character,
            Protocol::Telnet => settings.default_input_mode,
        },
    }
}

/// What is shown while a connection is made.
pub open spec fn connecting_message(entry: EntryModel, login: LoginModel) -> Seq<char> {
    match entry.protocol {
        Protocol::Telnet => "Connecting to "@ + entry.name + "..."@,
        Protocol::Ssh => "Connecting to "@ + entry.name + " as "@ + login_name(
            entry.username,
            login,
        ) + "..."@,
    }
}

/// The terminal type of a new connection.
pub open spec fn terminal_type_for(entry: EntryModel, settings: SettingsModel) -> Seq<char> {
    match entry.terminal_type {
        Some(t) => t,
        None => settings.terminal_type,
    }
}

/// A connection to the selected entry replaces the one that there is. It starts
/// with a screen, an input line and a mode of its own.
pub open spec fn connect(m: AppModel) -> Outcome {
    if m.book.selected >= m.book.entries.len() {
        just(m)
    } else {
        let entry = m.book.entries[m.book.selected];
        let fresh = AppModel {
            link: LinkModel { id: (m.link.id + 1) as u64, tasks_running: true, ..cut(m.link) },
            state: AppState::Connecting,
            line: LineModel { input: seq![], ..m.line },
            input_mode: initial_mode(entry, m.settings),
            input_mode_user_set: false,
            status: connecting_message(entry, m.login),
            ..m
        };
        let (cols, rows) = viewport(fresh);
        Outcome {
            app: AppModel {
                emulator: opened(rows, cols, m.settings.scrollback_lines),
                ..fresh
            },
            effects: cancel_effects(m.link).push(
                EffectModel::Connect(
                    ConnectModel {
                        id: fresh.link.id,
                        protocol: entry.protocol,
                        host: entry.host,
                        port: entry.port,
                        username: entry.username,
                        cols,
                        rows,
                        terminal_type: terminal_type_for(entry, m.settings),
                    },
                ),
            ),
        }
    }
}

/// Whether what is typed is shown at once: telnet without an echoing server.
pub open spec fn local_echo(m: AppModel, server_echo: bool) -> bool {
    m.link.telnet is Some && !server_echo
}

/// The emulator with local echo drawn, if there is any.
pub open spec fn echoed(m: AppModel, server_echo: bool, bytes: Seq<u8>) -> EmulatorModel {
    if local_echo(m, server_echo) {
        fed(m.emulator, bytes)
    } else {
        m.emulator
    }
}

// ---------------------------------------------------------------------------
// Pasting
// ---------------------------------------------------------------------------

/// `text` without line breaks.
pub open spec fn without_breaks(text: Seq<char>) -> Seq<char> {
    text.filter(|c: char| c != '\n' && c != '\r')
}

/// The digits of `text`.
pub open spec fn digits_only(text: Seq<char>) -> Seq<char> {
    text.filter(|c: char| is_digit(c))
}

/// `text` with every line break, be it CR, LF or CR LF, as CR LF.
pub open spec fn with_crlf(text: Seq<char>) -> Seq<char>
    decreases text.len(),
{
    if text.len() == 0 {
        seq![]
    } else if text[0] == '\r' {
        seq!['\r', '\n'] + with_crlf(
            if text.len() > 1 && text[1] == '\n' {
                text.skip(2)
            } else {
                text.skip(1)
            },
        )
    } else if text[0] == '\n' {
        seq!['\r', '\n'] + with_crlf(text.skip(1))
    } else {
        seq![text[0]] + with_crlf(text.skip(1))
    }
}

/// A popup with `text` pasted into it, if it takes text. Its fields are single-line,
/// and the scrollback takes digits only.
pub open spec fn pasted(popup: PopupModel, text: Seq<char>) -> PopupModel {
    match popup {
        PopupModel::Password(pw) => PopupModel::Password(pw + without_breaks(text)),
        PopupModel::Form(form) => PopupModel::Form(typed_text(form, without_breaks(text))),
        PopupModel::EditSettings(p) => if p.focused == SettingsField::Scrollback {
            PopupModel::EditSettings(
                EditSettingsModel { scrollback: p.scrollback + digits_only(text), ..p },
            )
        } else {
            popup
        },
        _ => popup,
    }
}

/// A paste goes to the popup that is open; otherwise to the input line, or straight
/// to the peer.
pub open spec fn paste(m: AppModel, text: Seq<char>, server_echo: bool) -> Outcome {
    if text.len() == 0 {
        just(m)
    } else if m.popup is Some {
        just(AppModel { popup: Some(pasted(m.popup->0, text)), ..m })
    } else if m.state != AppState::Connected {
        just(m)
    } else if m.input_mode == InputMode::LineBuffered {
        just(
            AppModel {
                line: LineModel {
                    input: m.line.input + without_breaks(text),
                    index: None,
                    ..m.line
                },
                ..m
            },
        )
    } else if m.link.open {
        let bytes = encode_utf8(with_crlf(text));
        Outcome {
            app: AppModel { emulator: echoed(m, server_echo, bytes), ..m },
            effects: seq![EffectModel::Send(CommandModel::SendRaw(bytes))],
        }
    } else {
        just(m)
    }
}

// ---------------------------------------------------------------------------
// Keys in popups
// ---------------------------------------------------------------------------

/// What a key says to the question whether a host key is trusted: `y`, or `n` and
/// Esc. Any other key says nothing.
pub open spec fn trust_answer(key: Key) -> Option<bool> {
    match key.code {
        KeyCode::Char(c) => if c == 'y' || c == 'Y' {
            Some(true)
        } else if c == 'n' || c == 'N' {
            Some(false)
        } else {
            None
        },
        KeyCode::Esc => Some(false),
        _ => None,
    }
}

/// A key while a host key is asked about.
pub open spec fn host_key_trust_key(m: AppModel, key: Key) -> Outcome {
    match trust_answer(key) {
        Some(trusted) => Outcome {
            app: AppModel {
                popup: None,
                link: LinkModel { host_key_pending: false, ..m.link },
                ..m
            },
            effects: if m.link.host_key_pending {
                seq![EffectModel::AnswerHostKey(trusted)]
            } else {
                seq![]
            },
        },
        None => just(m),
    }
}

/// A text after a key that is typed into it.
pub open spec fn text_typed(text: Seq<char>, code: KeyCode) -> Seq<char> {
    match code {
        KeyCode::Char(c) => text.push(c),
        KeyCode::Backspace => shortened(text),
        _ => text,
    }
}

/// The password is typed, and handed over with Enter or withheld with Esc. `m` is
/// the state with the popup closed.
pub open spec fn password_key(m: AppModel, pw: Seq<char>, key: Key) -> Outcome {
    match key.code {
        KeyCode::Enter => Outcome {
            app: AppModel { link: LinkModel { password_pending: false, ..m.link }, ..m },
            effects: if m.link.password_pending {
                seq![EffectModel::AnswerPassword(pw)]
            } else {
                seq![]
            },
        },
        KeyCode::Esc => Outcome {
            app: AppModel { link: LinkModel { password_pending: false, ..m.link }, ..m },
            effects: if m.link.password_pending {
                seq![EffectModel::DropPassword]
            } else {
                seq![]
            },
        },
        _ => just(AppModel { popup: Some(PopupModel::Password(text_typed(pw, key.code))), ..m }),
    }
}

/// The connection once the selected entry is gone: if it is that entry's, it is cut,
/// and whatever it still sends is stale.
pub open spec fn link_without_selected(b: BookModel, l: LinkModel) -> LinkModel {
    if b.connected == Some(b.selected) {
        LinkModel { telnet: None, id: bumped(l.id), ..cut(l) }
    } else {
        l
    }
}

/// The selected entry is gone. A live session keeps its entry, or ends with it.
pub open spec fn deleted(m: AppModel) -> Outcome {
    Outcome {
        app: AppModel {
            book: without_selected(m.book),
            link: link_without_selected(m.book, m.link),
            status: "Deleted '"@ + m.book.entries[m.book.selected].name + "'"@,
            ..m
        },
        effects: if m.book.connected == Some(m.book.selected) {
            teardown_effects(m.link).push(EffectModel::SaveEntries)
        } else {
            seq![EffectModel::SaveEntries]
        },
    }
}

/// Deleting needs a `y`; any other key closes the question. `m` is the state with
/// the popup closed.
pub open spec fn delete_key(m: AppModel, key: Key) -> Outcome {
    if (key.code == KeyCode::Char('y') || key.code == KeyCode::Char('Y')) && m.book.entries.len()
        > 0 {
        deleted(m)
    } else {
        just(m)
    }
}

/// What is shown when a form does not describe an entry.
pub open spec fn invalid_entry() -> Seq<char> {
    "Invalid entry (name, host required; port must be a number)"@
}

/// The form is saved, if it describes an entry. `m` is the state with the popup
/// closed.
pub open spec fn form_saved(m: AppModel, form: FormModel) -> Outcome {
    match entry_of(form) {
        None => just(
            AppModel { status: invalid_entry(), popup: Some(PopupModel::Form(form)), ..m },
        ),
        Some(entry) => Outcome {
            app: match form.mode {
                FormMode::Add => AppModel {
                    status: "Added '"@ + entry.name + "'"@,
                    book: with_entry(m.book, entry),
                    ..m
                },
                FormMode::Edit => AppModel {
                    status: "Updated '"@ + entry.name + "'"@,
                    book: with_selected(m.book, entry),
                    ..m
                },
            },
            effects: seq![EffectModel::SaveEntries],
        },
    }
}

/// A form after a key that is neither Enter nor Esc.
pub open spec fn form_typed(form: FormModel, code: KeyCode) -> FormModel {
    match code {
        KeyCode::Tab => FormModel { focused: field_after(form.focused), ..form },
        KeyCode::Down => FormModel { focused: field_after(form.focused), ..form },
        KeyCode::BackTab => FormModel { focused: field_before(form.focused), ..form },
        KeyCode::Up => FormModel { focused: field_before(form.focused), ..form },
        KeyCode::Char(c) => if c == ' ' && form.focused == PopupField::Protocol {
            toggled(form)
        } else if c == ' ' && form.focused == PopupField::TerminalType {
            FormModel {
                terminal_type: cycled(form.terminal_type, form.terminal_types.len()),
                ..form
            }
        } else if c == ' ' && form.focused == PopupField::InputMode {
            FormModel { input_mode: cycled(form.input_mode, 3), ..form }
        } else {
            typed(form, c)
        },
        KeyCode::Backspace => erased(form),
        _ => form,
    }
}

/// A key in the form. `m` is the state with the popup closed.
pub open spec fn form_key(m: AppModel, form: FormModel, key: Key) -> Outcome {
    match key.code {
        KeyCode::Esc => just(m),
        KeyCode::Enter => form_saved(m, form),
        _ => just(AppModel { popup: Some(PopupModel::Form(form_typed(form, key.code))), ..m }),
    }
}

/// The settings popup after a key that is neither Enter nor Esc.
pub open spec fn settings_typed(p: EditSettingsModel, key: Key) -> EditSettingsModel {
    match key.code {
        KeyCode::Tab => EditSettingsModel {
            focused: if key.modifiers.shift {
                settings_field_before(p.focused)
            } else {
                settings_field_after(p.focused)
            },
            ..p
        },
        KeyCode::BackTab => EditSettingsModel { focused: settings_field_before(p.focused), ..p },
        KeyCode::Char(c) => match p.focused {
            SettingsField::Scrollback => EditSettingsModel { scrollback: p.scrollback.push(c), ..p },
            SettingsField::Mode => if c == ' ' {
                EditSettingsModel { mode: other_mode(p.mode), ..p }
            } else {
                p
            },
            SettingsField::TerminalType => if c == ' ' {
                EditSettingsModel {
                    terminal_type: cycled(p.terminal_type, p.terminal_types.len()),
                    ..p
                }
            } else {
                p
            },
        },
        KeyCode::Backspace => if p.focused == SettingsField::Scrollback {
            EditSettingsModel { scrollback: shortened(p.scrollback), ..p }
        } else {
            p
        },
        _ => p,
    }
}

/// A key in the settings popup. Enter asks for the settings to be saved, if they
/// are valid; the popup stays open until that is done. `m` is the state with the
/// popup closed.
pub open spec fn settings_key(m: AppModel, p: EditSettingsModel, key: Key) -> Outcome {
    match key.code {
        KeyCode::Esc => just(m),
        KeyCode::Enter => Outcome {
            app: AppModel { popup: Some(PopupModel::EditSettings(validated(p))), ..m },
            effects: match settings_of(p) {
                Some(s) => seq![EffectModel::SaveSettings(s)],
                None => seq![],
            },
        },
        _ => just(
            AppModel { popup: Some(PopupModel::EditSettings(settings_typed(p, key))), ..m },
        ),
    }
}

/// New settings are in force, and the popup is closed.
pub open spec fn with_settings(m: AppModel, settings: SettingsModel) -> AppModel {
    AppModel { settings, popup: None, ..m }
}

/// A key while a popup is open.
pub open spec fn popup_key(m: AppModel, key: Key) -> Outcome {
    let closed = AppModel { popup: None, ..m };
    match m.popup {
        None => just(m),
        Some(PopupModel::Form(form)) => form_key(closed, form, key),
        Some(PopupModel::EditSettings(p)) => settings_key(closed, p, key),
        Some(PopupModel::DeleteConfirm) => delete_key(closed, key),
        Some(PopupModel::Password(pw)) => password_key(closed, pw, key),
        Some(PopupModel::HostKeyTrust(_)) => host_key_trust_key(m, key),
        Some(PopupModel::ChordHelp) => just(closed),
    }
}

// ---------------------------------------------------------------------------
// Keys in the address book
// ---------------------------------------------------------------------------

/// The session ends and the program with it.
pub open spec fn quit(m: AppModel) -> Outcome {
    let end = cancelled(m);
    Outcome {
        app: AppModel { book: BookModel { connected: None, ..m.book }, quit: true, ..end.app },
        effects: end.effects,
    }
}

/// Enter resumes the selected entry's session, or connects to it.
pub open spec fn entered(m: AppModel) -> Outcome {
    if resumes(m) {
        just(
            AppModel {
                state: AppState::Connected,
                status: "Connected to "@ + selected_name(m.book),
                ..m
            },
        )
    } else {
        connect(m)
    }
}

/// Whether the selected entry has a session to resume.
pub open spec fn resumes(m: AppModel) -> bool {
    m.book.connected == Some(m.book.selected) && m.link.open
}

/// The session ends, and the address book says so.
pub open spec fn disconnected(m: AppModel) -> Outcome {
    let end = cancelled(m);
    Outcome {
        app: AppModel {
            book: BookModel { connected: None, ..m.book },
            status: "Disconnected"@,
            ..end.app
        },
        effects: end.effects,
    }
}

/// The popup that a letter opens in the address book, if any.
pub open spec fn letter_popup(b: BookModel, settings: SettingsModel, c: char) -> Option<
    PopupModel,
> {
    if c == 'a' || c == 'A' {
        Some(PopupModel::Form(add_form()))
    } else if (c == 'e' || c == 'E') && b.selected < b.entries.len() {
        Some(PopupModel::Form(edit_form(b.entries[b.selected])))
    } else if (c == 'd' || c == 'D') && b.entries.len() > 0 {
        Some(PopupModel::DeleteConfirm)
    } else if c == 's' || c == 'S' {
        Some(PopupModel::EditSettings(settings_form(settings)))
    } else {
        None
    }
}

/// A letter in the address book, with no popup open.
pub open spec fn address_book_letter(m: AppModel, c: char) -> Outcome {
    if c == 'q' || c == 'Q' {
        quit(m)
    } else if c == 'k' {
        just(AppModel { book: selected_previous(m.book), ..m })
    } else if c == 'j' {
        just(AppModel { book: selected_next(m.book), ..m })
    } else {
        just(AppModel { popup: letter_popup(m.book, m.settings, c), ..m })
    }
}

/// A key in the address book, with no popup open.
pub open spec fn address_book_key(m: AppModel, key: Key) -> Outcome {
    if key.modifiers.control && key.code == KeyCode::Char('d') {
        if m.book.connected is Some {
            disconnected(m)
        } else {
            just(m)
        }
    } else {
        match key.code {
            KeyCode::Esc => quit(m),
            KeyCode::Up => just(AppModel { book: selected_previous(m.book), ..m }),
            KeyCode::Down => just(AppModel { book: selected_next(m.book), ..m }),
            KeyCode::Enter => entered(m),
            KeyCode::Char(c) => address_book_letter(m, c),
            _ => just(m),
        }
    }
}

/// A key while a connection is made: Esc gives it up. Its events are stale from
/// then on.
pub open spec fn connecting_key(m: AppModel, key: Key) -> Outcome {
    if key.code == KeyCode::Esc {
        Outcome {
            app: AppModel {
                link: LinkModel { id: bumped(m.link.id), ..cut(m.link) },
                state: AppState::AddressBook,
                status: "Connection cancelled"@,
                ..m
            },
            effects: cancel_effects(m.link),
        }
    } else {
        just(m)
    }
}

// ---------------------------------------------------------------------------
// Keys in a session
// ---------------------------------------------------------------------------

/// How much a capture has saved, and where.
pub open spec fn saved_bytes(cap: CaptureModel) -> Seq<char> {
    "saved "@ + decimal(cap.bytes_written as nat) + " bytes → "@ + cap.path
}

/// Capturing is turned off, or a capture file is asked for.
pub open spec fn capture_toggled(m: AppModel) -> Outcome {
    match m.capture {
        Some(cap) => Outcome {
            app: AppModel { capture: None, status: "Capture stopped: "@ + saved_bytes(cap), ..m },
            effects: seq![EffectModel::CloseCapture],
        },
        None => match m.book.connected {
            None => just(AppModel { status: "Capture: no active connection"@, ..m }),
            Some(i) => if 0 <= i < m.book.entries.len() {
                Outcome {
                    app: m,
                    effects: seq![
                        EffectModel::OpenCapture {
                            entry_name: m.book.entries[i].name,
                            host: m.book.entries[i].host,
                            port: m.book.entries[i].port,
                        },
                    ],
                }
            } else {
                just(AppModel { status: "Capture: connected entry vanished"@, ..m })
            },
        },
    }
}

/// The key after `Ctrl+]`. A key that is no command is swallowed.
pub open spec fn chord_key(m: AppModel, key: Key) -> Outcome {
    let m = AppModel { chord: ChordMode::Normal, ..m };
    match key.code {
        KeyCode::Char(c) => if c == 'l' || c == 'L' {
            capture_toggled(m)
        } else if c == '?' {
            just(AppModel { popup: Some(PopupModel::ChordHelp), ..m })
        } else if c == 'q' || c == 'Q' {
            quit(m)
        } else {
            just(m)
        },
        _ => just(m),
    }
}

/// The input line is sent.
pub open spec fn line_sent(m: AppModel, server_echo: bool) -> Outcome {
    if m.link.open {
        let text = m.line.input + "\r\n"@;
        Outcome {
            app: AppModel {
                emulator: echoed(m, server_echo, encode_utf8(text)),
                line: submitted(m.line),
                ..m
            },
            effects: seq![EffectModel::Send(CommandModel::SendText(text))],
        }
    } else {
        just(m)
    }
}

/// The view moved back by `lines`.
pub open spec fn scrolled_up(m: AppModel, lines: usize) -> AppModel {
    AppModel {
        emulator: EmulatorModel {
            scroll_offset: (m.emulator.scroll_offset + lines) as usize,
            ..m.emulator
        },
        ..m
    }
}

/// The view moved forward by `lines`.
pub open spec fn scrolled_forward(m: AppModel, lines: usize) -> AppModel {
    AppModel { emulator: scrolled_down(m.emulator, lines), ..m }
}

/// Lines scrolled per page key.
pub const KEY_SCROLL_LINES: usize = 10;

/// Lines scrolled per mouse wheel notch.
pub const MOUSE_SCROLL_LINES: usize = 3;

/// The input line after a key in line mode that does not send it.
pub open spec fn line_typed(l: LineModel, code: KeyCode) -> LineModel {
    match code {
        KeyCode::Up => browsed_up(l),
        KeyCode::Down => browsed_down(l),
        KeyCode::Char(c) => LineModel { input: l.input.push(c), index: None, ..l },
        KeyCode::Backspace => LineModel { input: shortened(l.input), index: None, ..l },
        _ => l,
    }
}

/// A key in line mode.
pub open spec fn line_key(m: AppModel, key: Key, server_echo: bool) -> Outcome {
    match key.code {
        KeyCode::Enter => line_sent(m, server_echo),
        KeyCode::PageUp => just(scrolled_up(m, KEY_SCROLL_LINES)),
        KeyCode::PageDown => just(scrolled_forward(m, KEY_SCROLL_LINES)),
        _ => just(AppModel { line: line_typed(m.line, key.code), ..m }),
    }
}

/// The byte of a letter typed with Ctrl: 1 for A to 26 for Z.
pub open spec fn control_byte(c: char) -> Option<u8> {
    if 'a' <= c && c <= 'z' {
        Some((c as u32 - 0x60) as u8)
    } else if 'A' <= c && c <= 'Z' {
        Some((c as u32 - 0x40) as u8)
    } else {
        None
    }
}

/// What a key does in character mode.
pub ghost struct Keystroke {
    /// What goes to the peer.
    pub send: Option<Seq<u8>>,
    /// What local echo draws.
    pub draw: Option<Seq<u8>>,
    /// How many characters stand on the line afterwards.
    pub len: int,
}

/// A keystroke that is sent and not echoed.
pub open spec fn sent(len: int, bytes: Seq<u8>) -> Keystroke {
    Keystroke { send: Some(bytes), draw: None, len }
}

/// What a key does in character mode on a line with `len` characters. Backspace
/// sends DEL, which hosts take for "erase the last character", and only where there
/// is one.
pub open spec fn keystroke(len: int, key: Key) -> Keystroke {
    let nothing = Keystroke { send: None, draw: None, len };
    match key.code {
        KeyCode::Char(c) => if key.modifiers.control {
            match control_byte(c) {
                Some(b) => sent(len, seq![b]),
                None => nothing,
            }
        } else {
            let bytes = encode_utf8(seq![c]);
            Keystroke { send: Some(bytes), draw: Some(bytes), len: len + 1 }
        },
        KeyCode::Enter => Keystroke {
            send: Some(seq![0x0d, 0x0a]),
            draw: Some(seq![0x0d, 0x0a]),
            len: 0,
        },
        KeyCode::Backspace => if len > 0 {
            Keystroke { send: Some(seq![0x7f]), draw: Some(seq![0x08, 0x20, 0x08]), len: len - 1 }
        } else {
            nothing
        },
        KeyCode::Up => sent(len, seq![0x1b, 0x5b, 0x41]),
        KeyCode::Down => sent(len, seq![0x1b, 0x5b, 0x42]),
        KeyCode::Right => sent(len, seq![0x1b, 0x5b, 0x43]),
        KeyCode::Left => sent(len, seq![0x1b, 0x5b, 0x44]),
        KeyCode::Home => sent(len, seq![0x1b, 0x5b, 0x48]),
        KeyCode::End => sent(len, seq![0x1b, 0x5b, 0x46]),
        KeyCode::PageUp => sent(len, seq![0x1b, 0x5b, 0x35, 0x7e]),
        KeyCode::PageDown => sent(len, seq![0x1b, 0x5b, 0x36, 0x7e]),
        KeyCode::Delete => sent(len, seq![0x1b, 0x5b, 0x33, 0x7e]),
        KeyCode::Insert => sent(len, seq![0x1b, 0x5b, 0x32, 0x7e]),
        KeyCode::F(n) => sent(len, f_key_bytes(n)),
        _ => nothing,
    }
}

/// A key in character mode.
pub open spec fn character_key(m: AppModel, key: Key, server_echo: bool) -> Outcome {
    if !m.link.open {
        just(m)
    } else {
        let k = keystroke(m.char_input_len, key);
        Outcome {
            app: AppModel {
                char_input_len: k.len,
                emulator: match k.draw {
                    Some(bytes) => echoed(m, server_echo, bytes),
                    None => m.emulator,
                },
                ..m
            },
            effects: match k.send {
                Some(bytes) => seq![EffectModel::Send(CommandModel::SendRaw(bytes))],
                None => seq![],
            },
        }
    }
}

/// A key in a session that neither leaves it nor starts a local command.
pub open spec fn session_key(m: AppModel, key: Key, server_echo: bool) -> Outcome {
    if key.modifiers.control && key.code == KeyCode::Char('d') && m.input_mode
        == InputMode::LineBuffered {
        let end = disconnected(m);
        Outcome {
            app: AppModel { state: AppState::AddressBook, ..end.app },
            effects: end.effects,
        }
    } else if key.code == KeyCode::Tab && unmodified(key.modifiers) {
        viewport_applied(
            AppModel { input_mode: other_mode(m.input_mode), input_mode_user_set: true, ..m },
        )
    } else if key.modifiers.shift && key.code == KeyCode::PageUp {
        just(scrolled_up(m, KEY_SCROLL_LINES))
    } else if key.modifiers.shift && key.code == KeyCode::PageDown {
        just(scrolled_forward(m, KEY_SCROLL_LINES))
    } else {
        match m.input_mode {
            InputMode::LineBuffered => line_key(m, key, server_echo),
            InputMode::Character => character_key(m, key, server_echo),
        }
    }
}

/// A key in a session.
pub open spec fn connected_key(m: AppModel, key: Key, server_echo: bool) -> Outcome {
    if m.chord == ChordMode::Awaiting {
        chord_key(m, key)
    } else if key.modifiers.control && (key.code == KeyCode::Char(']') || key.code
        == KeyCode::Char('5')) {
        just(
            AppModel {
                chord: ChordMode::Awaiting,
                status: "Ctrl+] (waiting for command — ? for help)"@,
                ..m
            },
        )
    } else if key.code == KeyCode::Esc {
        just(
            AppModel {
                state: AppState::AddressBook,
                status: "Session suspended — "@ + selected_name(m.book)
                    + " (Enter to resume, Ctrl+D to disconnect)"@,
                ..m
            },
        )
    } else {
        session_key(m, key, server_echo)
    }
}

/// Whether Ctrl+C belongs to the remote host: it is an interrupt there.
pub open spec fn in_char_session(m: AppModel) -> bool {
    m.state == AppState::Connected && m.input_mode == InputMode::Character && m.popup is None
        && m.chord == ChordMode::Normal
}

/// A key.
pub open spec fn key_pressed(m: AppModel, key: Key, server_echo: bool) -> Outcome {
    if key.modifiers.control && key.code == KeyCode::Char('c') && !in_char_session(m) {
        let end = cancelled(m);
        Outcome { app: AppModel { quit: true, ..end.app }, effects: end.effects }
    } else if m.popup is Some {
        popup_key(m, key)
    } else {
        match m.state {
            AppState::AddressBook => address_book_key(m, key),
            AppState::Connecting => connecting_key(m, key),
            AppState::Connected => connected_key(m, key, server_echo),
        }
    }
}

/// The mouse wheel scrolls in a session.
pub open spec fn mouse_used(m: AppModel, mouse: Mouse) -> AppModel {
    if m.state != AppState::Connected {
        m
    } else {
        match mouse {
            Mouse::ScrollUp => scrolled_up(m, MOUSE_SCROLL_LINES),
            Mouse::ScrollDown => scrolled_forward(m, MOUSE_SCROLL_LINES),
            Mouse::Other => m,
        }
    }
}

/// An event of the user's terminal. A key that is let go does nothing.
pub open spec fn terminal_event(m: AppModel, event: TerminalEventModel, server_echo: bool) -> Outcome {
    match event {
        TerminalEventModel::Key { key, released } => if released {
            just(m)
        } else {
            key_pressed(m, key, server_echo)
        },
        TerminalEventModel::Mouse(mouse) => just(mouse_used(m, mouse)),
        TerminalEventModel::Resize(w, h) => viewport_applied(
            AppModel { width: w, height: h, ..m },
        ),
        TerminalEventModel::Paste(text) => paste(m, text, server_echo),
        TerminalEventModel::Other => just(m),
    }
}

/// What a key draws when the server does not echo, if anything.
pub open spec fn key_echo(m: AppModel, key: Key) -> Option<Seq<u8>> {
    if m.state == AppState::Connected && m.popup is None && m.chord == ChordMode::Normal
        && m.link.open {
        match m.input_mode {
            InputMode::LineBuffered => if key.code == KeyCode::Enter {
                Some(encode_utf8(m.line.input + "\r\n"@))
            } else {
                None
            },
            InputMode::Character => keystroke(m.char_input_len, key).draw,
        }
    } else {
        None
    }
}

/// What an event draws when the server does not echo, if anything.
pub open spec fn event_echo(m: AppModel, event: TerminalEventModel) -> Option<Seq<u8>> {
    match event {
        TerminalEventModel::Key { key, released } => if released {
            None
        } else {
            key_echo(m, key)
        },
        TerminalEventModel::Paste(text) => if text.len() > 0 && m.popup is None && m.state
            == AppState::Connected && m.input_mode == InputMode::Character && m.link.open {
            Some(encode_utf8(with_crlf(text)))
        } else {
            None
        },
        _ => None,
    }
}

/// Whether the screen takes what is drawn, if anything is.
pub open spec fn echo_fits(m: AppModel, server_echo: bool, drawn: Option<Seq<u8>>) -> bool {
    match drawn {
        Some(bytes) => local_echo(m, server_echo) ==> vt_draws(m.emulator.screen, bytes),
        None => true,
    }
}

/// Whether the counters leave room for what a key does.
pub open spec fn key_counts(m: AppModel, key: Key) -> bool {
    let in_book = m.popup is None && m.state == AppState::AddressBook;
    let in_session = m.popup is None && m.state == AppState::Connected && m.chord
        == ChordMode::Normal;
    &&& in_book && key.code == KeyCode::Enter && !resumes(m) && m.book.selected
        < m.book.entries.len() ==> m.link.id < u64::MAX
    &&& in_session && m.input_mode == InputMode::Character && m.link.open && key.code is Char
        && !key.modifiers.control ==> m.char_input_len < usize::MAX
    &&& in_session && key.code == KeyCode::PageUp && (key.modifiers.shift || m.input_mode
        == InputMode::LineBuffered) ==> m.emulator.scroll_offset + KEY_SCROLL_LINES <= usize::MAX
}

/// Whether the counters leave room for what a key does, and the screen takes what it
/// draws.
pub open spec fn key_fits(m: AppModel, key: Key, server_echo: bool) -> bool {
    key_counts(m, key) && echo_fits(m, server_echo, key_echo(m, key))
}

/// Whether the counters leave room for what an event of the user's terminal does.
pub open spec fn terminal_event_counts(m: AppModel, event: TerminalEventModel) -> bool {
    match event {
        TerminalEventModel::Key { key, released } => released || key_counts(m, key),
        TerminalEventModel::Mouse(mouse) => m.state == AppState::Connected && mouse
            == Mouse::ScrollUp ==> m.emulator.scroll_offset + MOUSE_SCROLL_LINES <= usize::MAX,
        _ => true,
    }
}

/// Whether the application can take an event of the user's terminal.
pub open spec fn terminal_event_fits(
    m: AppModel,
    event: TerminalEventModel,
    server_echo: bool,
) -> bool {
    terminal_event_counts(m, event) && echo_fits(m, server_echo, event_echo(m, event))
}

/// Whether it can be told beforehand that the application can take an event of the
/// user's terminal: there is nothing to draw, or the screen takes any output.
pub open spec fn terminal_event_is_safe(m: AppModel, event: TerminalEventModel) -> bool {
    terminal_event_counts(m, event) && (m.link.telnet is Some && event_echo(m, event) is Some
        ==> vt_ready(m.emulator.screen))
}

// ---------------------------------------------------------------------------
// Events of a connection
// ---------------------------------------------------------------------------

/// Replies, each as a command to the connection.
pub open spec fn sent_replies(replies: Seq<Seq<u8>>) -> Seq<EffectModel> {
    Seq::new(replies.len(), |i: int| EffectModel::Send(CommandModel::SendRaw(replies[i])))
}

/// Whether an echoing telnet server switches the session to character mode: not
/// when the user has picked a mode, nor against the entry's own line mode.
pub open spec fn switches(m: AppModel, server_echo: bool) -> bool {
    &&& !m.input_mode_user_set
    &&& m.input_mode == InputMode::LineBuffered
    &&& !(m.book.connected is Some && 0 <= m.book.connected->0 < m.book.entries.len()
        && m.book.entries[m.book.connected->0].default_input_mode == Some(
        InputMode::LineBuffered,
    ))
    &&& m.link.telnet is Some
    &&& server_echo
}

/// The session switches to character mode where an echoing server asks for it.
pub open spec fn auto_switched(m: AppModel, server_echo: bool) -> Outcome {
    if switches(m, server_echo) {
        viewport_applied(AppModel { input_mode: InputMode::Character, ..m })
    } else {
        just(m)
    }
}

/// Output of the peer: it is drawn, also while the session is suspended, its
/// queries are answered, and it goes into the capture.
pub open spec fn data_received(m: AppModel, data: Seq<u8>, server_echo: bool) -> Outcome {
    let queries = queries_of(m.scanner, data);
    let after = AppModel {
        scanner: pending_after_all(m.scanner, data),
        emulator: all_drawn(m.emulator, data, queries),
        ..m
    };
    let switched = auto_switched(after, server_echo);
    Outcome {
        app: switched.app,
        effects: (if m.link.open {
            sent_replies(drawn(m.emulator, data, queries).replies)
        } else {
            seq![]
        }) + switched.effects + (if m.capture is Some {
            seq![EffectModel::WriteCapture(data)]
        } else {
            seq![]
        }),
    }
}

/// The peer is there.
pub open spec fn connection_made(m: AppModel, telnet: Option<Arc<TelnetFlags>>) -> Outcome {
    let greeting = "Connected to "@ + selected_name(m.book);
    Outcome {
        app: AppModel {
            state: AppState::Connected,
            link: LinkModel { open: true, telnet, ..m.link },
            scanner: seq![],
            book: BookModel { connected: Some(m.book.selected), ..m.book },
            status: if m.shown_chord_hint {
                greeting
            } else {
                greeting + " — Press Ctrl+] ? for commands."@
            },
            shown_chord_hint: true,
            ..m
        },
        effects: seq![EffectModel::Accept],
    }
}

/// The connection is gone. Where the capture went matters more than why.
pub open spec fn connection_lost(m: AppModel, reason: Option<Seq<char>>) -> Outcome {
    Outcome {
        app: AppModel {
            state: AppState::AddressBook,
            link: LinkModel { telnet: None, ..cut(m.link) },
            book: BookModel { connected: None, ..m.book },
            capture: None,
            status: match m.capture {
                Some(cap) => "Capture stopped (disconnected): "@ + saved_bytes(cap),
                None => match reason {
                    Some(why) => "Disconnected: "@ + why,
                    None => "Disconnected"@,
                },
            },
            ..m
        },
        effects: if m.capture is Some {
            seq![EffectModel::ForgetTasks, EffectModel::CloseCapture]
        } else {
            seq![EffectModel::ForgetTasks]
        },
    }
}

/// What is shown when a host key is not the stored one.
pub open spec fn mismatch_banner(
    host: Seq<char>,
    port: u16,
    key_type: Seq<char>,
    stored: Seq<char>,
    received: Seq<char>,
    file_path: Seq<char>,
) -> Seq<char> {
    "HOST KEY MISMATCH for "@ + host + ":"@ + decimal(port as nat) + " ("@ + key_type
        + ")\n  stored:   "@ + stored + "\n  received: "@ + received
        + "\nThis could be a man-in-the-middle attack, or the server's key\nwas rotated. To accept the new key, edit:\n  "@
        + file_path + "\nand remove the [[hosts]] entry with key_type = \""@ + key_type + "\"."@
}

/// An event of the current connection.
pub open spec fn own_event(m: AppModel, event: AppEventModel, server_echo: bool) -> Outcome {
    match event {
        AppEventModel::Connected(telnet) => connection_made(m, telnet),
        AppEventModel::NetworkData(data) => data_received(m, data, server_echo),
        AppEventModel::Disconnected(reason) => connection_lost(m, reason),
        AppEventModel::PasswordNeeded => Outcome {
            app: AppModel {
                link: LinkModel { password_pending: true, ..m.link },
                popup: Some(PopupModel::Password(seq![])),
                status: "SSH password required"@,
                ..m
            },
            effects: seq![EffectModel::Accept],
        },
        AppEventModel::HostKeyTrustNeeded { host, port, key_type, fingerprint } => Outcome {
            app: AppModel {
                link: LinkModel { host_key_pending: true, ..m.link },
                popup: Some(
                    PopupModel::HostKeyTrust(
                        HostKeyTrustModel { host, port, key_type, fingerprint },
                    ),
                ),
                status: "Verify host key for "@ + host + ":"@ + decimal(port as nat),
                ..m
            },
            effects: seq![EffectModel::Accept],
        },
        AppEventModel::HostKeyMismatch { host, port, key_type, stored, received, file_path } => {
            just(
                AppModel {
                    state: AppState::AddressBook,
                    status: mismatch_banner(host, port, key_type, stored, received, file_path),
                    // The disconnect that follows is stale and leaves the banner alone.
                    link: LinkModel { id: bumped(m.link.id), ..m.link },
                    ..m
                },
            )
        },
    }
}

/// An event of a connection: one that was abandoned is not listened to.
pub open spec fn app_event(
    m: AppModel,
    id: u64,
    event: AppEventModel,
    server_echo: bool,
) -> Outcome {
    if id != m.link.id {
        just(m)
    } else {
        own_event(m, event, server_echo)
    }
}

/// Whether the application can take an event of a connection: the screen takes the
/// output.
pub open spec fn app_event_fits(m: AppModel, id: u64, event: AppEventModel) -> bool {
    id == m.link.id ==> match event {
        AppEventModel::NetworkData(data) => draws_all(
            m.emulator,
            data,
            queries_of(m.scanner, data),
        ),
        _ => true,
    }
}

/// Whether it can be told beforehand that the application can take an event of a
/// connection: there is nothing to draw, or the screen takes any output.
pub open spec fn app_event_is_safe(m: AppModel, id: u64, event: AppEventModel) -> bool {
    id == m.link.id && event is NetworkData ==> vt_ready(m.emulator.screen)
}

} // verus!
