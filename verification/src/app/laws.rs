//! What holds of the application across events.

use super::book::book_wf;
use super::line::LineModel;
use super::model::{
    address_book_key, app_event, character_key, connect, connected_key, connecting_key,
    connection_lost, data_received, deleted, in_char_session, initial_mode, just, key_pressed,
    own_event, password_key, popup_key, switches, terminal_event, terminal_type_for, viewport,
    viewport_applied, with_crlf, with_settings, AppModel, Outcome,
};
use super::{AppState, ChordMode};
use crate::config::settings::SettingsModel;
use crate::entry::{other_mode, InputMode};
use crate::events::{AppEventModel, CommandModel, EffectModel};
use crate::keys::{Key, KeyCode, Modifiers, TerminalEventModel};
use crate::network::telnet::TelnetFlags;
use crate::popup::PopupModel;
use crate::terminal::ansi_query::{queries_end_in_order, queries_of};
use crate::terminal::emulator::opened;
use crate::terminal::responder::{all_drawn, all_output_is_drawn, drawn, in_order, output};
use crate::terminal::vt::vt_size;
use std::sync::Arc;
use vstd::prelude::*;

verus! {

/// A key without modifiers.
pub open spec fn plain(code: KeyCode) -> Key {
    Key { code, modifiers: Modifiers { shift: false, control: false, other: false } }
}

/// A key with these modifiers held down.
pub open spec fn held(code: KeyCode, modifiers: Modifiers) -> Key {
    Key { code, modifiers }
}

/// A letter with Ctrl held down.
pub open spec fn ctrl(c: char) -> Key {
    Key {
        code: KeyCode::Char(c),
        modifiers: Modifiers { shift: false, control: true, other: false },
    }
}

/// Whether something is handed to the remote host.
pub open spec fn reaches_the_host(effect: EffectModel) -> bool {
    match effect {
        EffectModel::Send(CommandModel::SendText(_)) => true,
        EffectModel::Send(CommandModel::SendRaw(_)) => true,
        _ => false,
    }
}

/// Events of a connection that was given up do nothing.
pub proof fn stale_events_are_ignored(
    m: AppModel,
    id: u64,
    event: AppEventModel,
    server_echo: bool,
)
    requires
        id != m.link.id,
    ensures
        app_event(m, id, event, server_echo) == just(m),
{
}

/// Once a connection attempt is cancelled, whatever it still sends does nothing: an
/// event that says that it succeeded does not revive it.
pub proof fn a_cancelled_attempt_stays_cancelled(
    m: AppModel,
    event: AppEventModel,
    server_echo: bool,
)
    ensures
        ({
            let after = connecting_key(m, plain(KeyCode::Esc)).app;
            &&& after.state == AppState::AddressBook
            &&& !after.link.open
            &&& app_event(after, m.link.id, event, server_echo) == just(after)
        }),
{
}

/// After a host key mismatch the disconnect that follows does not touch the banner,
/// nor anything else.
pub proof fn a_mismatch_banner_stays(
    m: AppModel,
    mismatch: AppEventModel,
    event: AppEventModel,
    server_echo: bool,
)
    requires
        mismatch is HostKeyMismatch,
    ensures
        ({
            let after = own_event(m, mismatch, server_echo).app;
            &&& after.state == AppState::AddressBook
            &&& app_event(after, m.link.id, event, server_echo) == just(after)
        }),
{
}

/// Deleting the entry of the live session ends the session: its connection is cut
/// and whatever it still sends does nothing. Deleting another entry leaves the
/// connection alone.
pub proof fn deleting_ends_only_its_own_session(
    m: AppModel,
    event: AppEventModel,
    server_echo: bool,
)
    requires
        m.book.entries.len() > 0,
    ensures
        m.book.connected == Some(m.book.selected) ==> {
            let after = deleted(m).app;
            &&& !after.link.open
            &&& !after.link.tasks_running
            &&& after.book.connected is None
            &&& app_event(after, m.link.id, event, server_echo) == just(after)
        },
        m.book.connected != Some(m.book.selected) ==> deleted(m).app.link == m.link
            && deleted(m).effects == seq![EffectModel::SaveEntries],
{
}

/// A session that is suspended with Esc and resumed with Enter is as it was, but for
/// the status line: its connection, entry, mode, screen and telnet flags are the same,
/// its host hears nothing of it, and no other connection is made.
pub proof fn suspending_and_resuming_keeps_the_session(m: AppModel, server_echo: bool)
    requires
        m.state == AppState::Connected,
        m.chord == ChordMode::Normal,
        m.link.open,
        m.book.connected == Some(m.book.selected),
    ensures
        ({
            let away = connected_key(m, plain(KeyCode::Esc), server_echo);
            let back = address_book_key(away.app, plain(KeyCode::Enter));
            &&& away.app == AppModel {
                state: AppState::AddressBook,
                status: away.app.status,
                ..m
            }
            &&& away.effects.len() == 0
            &&& back.effects.len() == 0
            &&& back.app == AppModel { status: back.app.status, ..m }
            // Where no popup is open, these are what the keys do.
            &&& m.popup is None ==> key_pressed(m, plain(KeyCode::Esc), server_echo) == away
                && key_pressed(away.app, plain(KeyCode::Enter), server_echo) == back
        }),
{
}

/// A session has the flags that its connection shares with it, and keeps them whatever
/// the user does; only deleting its entry, which ends it, takes them away.
pub proof fn a_session_keeps_its_flags(
    m: AppModel,
    telnet: Option<Arc<TelnetFlags>>,
    event: TerminalEventModel,
    server_echo: bool,
)
    ensures
        own_event(m, AppEventModel::Connected(telnet), server_echo).app.link.telnet == telnet,
        ({
            let after = terminal_event(m, event, server_echo).app;
            after.link.telnet == m.link.telnet || (m.popup == Some(PopupModel::DeleteConfirm)
                && m.book.connected == Some(m.book.selected) && !after.link.open
                && after.link.telnet is None)
        }),
{
}

/// Tab twice gives the mode back; once the user has used it, no server switches the
/// mode.
pub proof fn the_users_mode_stands(m: AppModel, data: Seq<u8>, echo: bool, later: bool)
    requires
        m.state == AppState::Connected,
        m.popup is None,
        m.chord == ChordMode::Normal,
    ensures
        ({
            let once = key_pressed(m, plain(KeyCode::Tab), echo).app;
            let twice = key_pressed(once, plain(KeyCode::Tab), echo).app;
            &&& once.input_mode == other_mode(m.input_mode)
            &&& twice.input_mode == m.input_mode
            &&& data_received(once, data, later).app.input_mode == once.input_mode
            &&& data_received(twice, data, later).app.input_mode == twice.input_mode
        }),
{
}

/// An entry that asks for line mode keeps it, whatever the server does.
pub proof fn an_entrys_line_mode_stands(m: AppModel, data: Seq<u8>, server_echo: bool)
    requires
        m.book.connected is Some,
        0 <= m.book.connected->0 < m.book.entries.len(),
        m.book.entries[m.book.connected->0].default_input_mode == Some(InputMode::LineBuffered),
    ensures
        data_received(m, data, server_echo).app.input_mode == m.input_mode,
{
}

/// An echoing telnet server switches an untouched line-mode session to character
/// mode, and the host is told the size that the terminal has then.
pub proof fn an_echoing_server_switches(m: AppModel, data: Seq<u8>)
    requires
        switches(m, true),
        m.link.open,
    ensures
        ({
            let after = data_received(m, data, true);
            let (cols, rows) = viewport(after.app);
            &&& after.app.input_mode == InputMode::Character
            &&& after.effects.contains(EffectModel::Send(CommandModel::Resize(cols, rows)))
        }),
{
    let queries = queries_of(m.scanner, data);
    let after = data_received(m, data, true);
    let (cols, rows) = viewport(after.app);
    let at = drawn(m.emulator, data, queries).replies.len() as int;
    assert(after.effects[at] == EffectModel::Send(CommandModel::Resize(cols, rows)));
}

/// The state after a character is typed.
#[verifier::opaque]
pub open spec fn after_char(m: AppModel, c: char, server_echo: bool) -> AppModel {
    key_pressed(m, plain(KeyCode::Char(c)), server_echo).app
}

/// The state after the characters of `text` are typed, one by one.
pub open spec fn after_typing(m: AppModel, text: Seq<char>, server_echo: bool) -> AppModel
    decreases text.len(),
{
    if text.len() == 0 {
        m
    } else {
        after_char(after_typing(m, text.drop_last(), server_echo), text.last(), server_echo)
    }
}

/// In line mode, what is typed adds to the input line and changes nothing else; Enter
/// sends the whole line, once, and leaves it empty.
pub proof fn typed_lines_are_sent(m: AppModel, text: Seq<char>, server_echo: bool)
    requires
        m.state == AppState::Connected,
        m.popup is None,
        m.chord == ChordMode::Normal,
        m.input_mode == InputMode::LineBuffered,
        m.link.open,
    ensures
        ({
            let typed = after_typing(m, text, server_echo);
            let sent = key_pressed(typed, plain(KeyCode::Enter), server_echo);
            &&& typed.line.input == m.line.input + text
            &&& typed == AppModel { line: typed.line, ..m }
            &&& sent.effects == seq![
                EffectModel::Send(CommandModel::SendText(m.line.input + text + "\r\n"@)),
            ]
            &&& sent.app.line.input == Seq::<char>::empty()
        }),
{
    lemma_typed(m, text, server_echo);
    lemma_entered(after_typing(m, text, server_echo), server_echo);
}

/// One character typed in line mode.
proof fn lemma_typed_char(m: AppModel, c: char, server_echo: bool)
    requires
        m.state == AppState::Connected,
        m.popup is None,
        m.chord == ChordMode::Normal,
        m.input_mode == InputMode::LineBuffered,
    ensures
        after_char(m, c, server_echo) == (AppModel {
            line: LineModel { input: m.line.input.push(c), index: None, ..m.line },
            ..m
        }),
{
    reveal(after_char);
}

proof fn lemma_typed(m: AppModel, text: Seq<char>, server_echo: bool)
    requires
        m.state == AppState::Connected,
        m.popup is None,
        m.chord == ChordMode::Normal,
        m.input_mode == InputMode::LineBuffered,
    ensures
        ({
            let typed = after_typing(m, text, server_echo);
            &&& typed.line.input == m.line.input + text
            &&& typed == AppModel { line: typed.line, ..m }
        }),
    decreases text.len(),
{
    if text.len() == 0 {
        assert(m.line.input + text =~= m.line.input);
    } else {
        let shorter = text.drop_last();
        lemma_typed(m, shorter, server_echo);
        lemma_typed_char(after_typing(m, shorter, server_echo), text.last(), server_echo);
        assert((m.line.input + shorter).push(text.last()) =~= m.line.input + text);
    }
}

/// Enter in line mode.
proof fn lemma_entered(m: AppModel, server_echo: bool)
    requires
        m.state == AppState::Connected,
        m.popup is None,
        m.chord == ChordMode::Normal,
        m.input_mode == InputMode::LineBuffered,
        m.link.open,
    ensures
        ({
            let sent = key_pressed(m, plain(KeyCode::Enter), server_echo);
            &&& sent.effects == seq![
                EffectModel::Send(CommandModel::SendText(m.line.input + "\r\n"@)),
            ]
            &&& sent.app.line.input == Seq::<char>::empty()
        }),
{
}

/// Ctrl+C quits, and takes the connection down; in character mode it goes to the
/// host instead, and Ctrl+D with it.
pub proof fn interrupts_reach_the_host_in_character_mode(m: AppModel, server_echo: bool)
    requires
        m.link.open,
    ensures
        !in_char_session(m) ==> {
            let after = key_pressed(m, ctrl('c'), server_echo);
            after.app.quit && !after.app.link.open && after.effects[0] == EffectModel::Send(
                CommandModel::Disconnect,
            )
        },
        in_char_session(m) ==> {
            let c = key_pressed(m, ctrl('c'), server_echo);
            let d = key_pressed(m, ctrl('d'), server_echo);
            &&& c == Outcome {
                app: m,
                effects: seq![EffectModel::Send(CommandModel::SendRaw(seq![3u8]))],
            }
            &&& d == Outcome {
                app: m,
                effects: seq![EffectModel::Send(CommandModel::SendRaw(seq![4u8]))],
            }
        },
{
    if in_char_session(m) {
        assert(character_key(m, ctrl('c'), server_echo).app == m);
        assert(character_key(m, ctrl('d'), server_echo).app == m);
    }
}

/// What is typed into a popup never reaches the host.
pub proof fn popups_keep_keys_to_themselves(m: AppModel, key: Key, i: int)
    requires
        0 <= i < popup_key(m, key).effects.len(),
    ensures
        !reaches_the_host(popup_key(m, key).effects[i]),
{
}

/// Local commands never reach the host: neither the key that starts one, nor the one
/// after it.
pub proof fn local_commands_stay_local(m: AppModel, key: Key, server_echo: bool, i: int)
    requires
        m.state == AppState::Connected,
        m.popup is None,
    ensures
        m.chord == ChordMode::Awaiting && 0 <= i < connected_key(
            m,
            key,
            server_echo,
        ).effects.len() ==> !reaches_the_host(connected_key(m, key, server_echo).effects[i]),
        m.chord == ChordMode::Normal ==> connected_key(m, ctrl(']'), server_echo).effects.len()
            == 0 && connected_key(m, ctrl(']'), server_echo).app.chord == ChordMode::Awaiting,
{
}

/// A password is handed over at most once for each time that it is asked for.
pub proof fn a_password_is_answered_once(m: AppModel, pw: Seq<char>, again: Seq<char>)
    ensures
        ({
            let first = password_key(m, pw, plain(KeyCode::Enter));
            let second = password_key(first.app, again, plain(KeyCode::Enter));
            &&& first.effects == (if m.link.password_pending {
                seq![EffectModel::AnswerPassword(pw)]
            } else {
                seq![]
            })
            &&& second.effects.len() == 0
        }),
{
}

/// Quitting from the address book, with `q` or Esc, says goodbye to the peer first,
/// and takes the connection down.
pub proof fn quitting_disconnects_first(m: AppModel, server_echo: bool)
    requires
        m.state == AppState::AddressBook,
        m.popup is None,
        m.link.open,
    ensures
        forall|code: KeyCode|
            code == KeyCode::Char('q') || code == KeyCode::Char('Q') || code == KeyCode::Esc ==> {
                let after = key_pressed(m, #[trigger] plain(code), server_echo);
                &&& after.app.quit
                &&& !after.app.link.open
                &&& after.effects == seq![
                    EffectModel::Send(CommandModel::Disconnect),
                    EffectModel::StopTasks,
                ]
            },
{
}

/// New settings leave the session as it is; the next connection starts with them:
/// their scrollback, and their input mode and terminal type where the entry has none
/// of its own.
pub proof fn settings_wait_for_the_next_connection(m: AppModel, settings: SettingsModel)
    requires
        book_wf(m.book),
    ensures
        ({
            let after = with_settings(m, settings);
            &&& after.state == m.state
            &&& after.input_mode == m.input_mode
            &&& after.link == m.link
            &&& after.emulator == m.emulator
            &&& after.capture == m.capture
        }),
        m.book.entries.len() > 0 ==> {
            let entry = m.book.entries[m.book.selected];
            let next = connect(with_settings(m, settings));
            let (cols, rows) = viewport(next.app);
            &&& next.app.input_mode == initial_mode(entry, settings)
            &&& next.app.emulator == opened(rows, cols, settings.scrollback_lines)
            &&& next.effects.last() is Connect
            &&& next.effects.last()->Connect_0.terminal_type == terminal_type_for(entry, settings)
            &&& next.effects.last()->Connect_0.cols == cols
            &&& next.effects.last()->Connect_0.rows == rows
        },
{
}

/// Whether every line break in `text` is a CR LF.
pub open spec fn breaks_are_crlf(text: Seq<char>) -> bool {
    forall|i: int|
        0 <= i < text.len() ==> {
            &&& #[trigger] text[i] == '\r' ==> i + 1 < text.len() && text[i + 1] == '\n'
            &&& text[i] == '\n' ==> i > 0 && text[i - 1] == '\r'
        }
}

/// What is pasted in character mode has its line breaks as CR LF, and a text that has
/// them so already is pasted as it is.
pub proof fn pasted_breaks_are_crlf(text: Seq<char>)
    ensures
        breaks_are_crlf(with_crlf(text)),
        breaks_are_crlf(text) ==> with_crlf(text) == text,
    decreases text.len(),
{
    if text.len() > 0 {
        let two = text[0] == '\r' && text.len() > 1 && text[1] == '\n';
        let rest = if two {
            text.skip(2)
        } else {
            text.skip(1)
        };
        let out = with_crlf(text);
        let tail = with_crlf(rest);
        pasted_breaks_are_crlf(rest);
        let head = out.len() - tail.len();
        assert forall|i: int| 0 <= i < out.len() implies {
            &&& #[trigger] out[i] == '\r' ==> i + 1 < out.len() && out[i + 1] == '\n'
            &&& out[i] == '\n' ==> i > 0 && out[i - 1] == '\r'
        } by {
            if i >= head {
                assert(out[i] == tail[i - head]);
                if i + 1 < out.len() {
                    assert(out[i + 1] == tail[i + 1 - head]);
                }
                if i > head {
                    assert(out[i - 1] == tail[i - 1 - head]);
                }
            }
        }
        if breaks_are_crlf(text) {
            let shift = text.len() - rest.len();
            assert(text[0] == '\r' ==> two);
            assert forall|i: int| 0 <= i < rest.len() implies {
                &&& #[trigger] rest[i] == '\r' ==> i + 1 < rest.len() && rest[i + 1] == '\n'
                &&& rest[i] == '\n' ==> i > 0 && rest[i - 1] == '\r'
            } by {
                assert(rest[i] == text[i + shift]);
            }
            assert(out =~= text);
        }
    }
}

/// When a connection is lost, nothing of the session is left: no channel, no tasks,
/// no marked entry, no capture.
pub proof fn a_lost_connection_leaves_nothing(m: AppModel, reason: Option<Seq<char>>)
    ensures
        ({
            let after = connection_lost(m, reason);
            &&& after.app.state == AppState::AddressBook
            &&& !after.app.link.open
            &&& !after.app.link.tasks_running
            &&& after.app.link.telnet is None
            &&& after.app.book.connected is None
            &&& after.app.capture is None
            &&& after.effects.contains(EffectModel::CloseCapture) <==> m.capture is Some
        }),
{
    let after = connection_lost(m, reason);
    if m.capture is Some {
        assert(after.effects[1] == EffectModel::CloseCapture);
    }
}

/// The terminal is at least one character large; without the input bar it is three
/// rows higher, where the window has them.
pub proof fn the_viewport_follows_the_mode(m: AppModel)
    ensures
        viewport(m).0 >= 1,
        viewport(m).1 >= 1,
        m.height >= 5 ==> viewport(AppModel { input_mode: InputMode::Character, ..m }).1
            == viewport(AppModel { input_mode: InputMode::LineBuffered, ..m }).1 + 3,
{
}

/// Whenever the viewport is applied, the screen has its size, and so has the host
/// been told.
pub proof fn the_screen_follows_the_viewport(m: AppModel)
    ensures
        ({
            let (cols, rows) = viewport(m);
            let after = viewport_applied(m);
            &&& vt_size(after.app.emulator.screen) == (rows, cols)
            &&& m.link.open ==> after.effects == seq![
                EffectModel::Send(CommandModel::Resize(cols, rows)),
            ]
        }),
{
}

/// All output of the host is drawn, in order and once, also while the session is
/// suspended; the view stays where the user has scrolled to.
pub proof fn output_is_drawn_in_every_state(m: AppModel, data: Seq<u8>, server_echo: bool)
    ensures
        ({
            let after = data_received(m, data, server_echo).app;
            &&& output(after.emulator.screen) == output(m.emulator.screen) + data
            &&& after.emulator.scroll_offset == m.emulator.scroll_offset
        }),
{
    let queries = queries_of(m.scanner, data);
    queries_end_in_order(m.scanner, data);
    assert(in_order(data, queries));
    all_output_is_drawn(m.emulator, data, queries);
    let shown = all_drawn(m.emulator, data, queries);
    let after = data_received(m, data, server_echo).app.emulator;
    if after.screen != shown.screen {
        assert(after.screen.last() is Size);
        assert(after.screen.drop_last() =~= shown.screen);
    }
}

/// What comes in goes into the capture, whole and unchanged, and only while one is
/// on.
pub proof fn captures_hold_the_raw_output(m: AppModel, data: Seq<u8>, server_echo: bool)
    ensures
        data_received(m, data, server_echo).effects.contains(EffectModel::WriteCapture(data))
            <==> m.capture is Some,
{
    let after = data_received(m, data, server_echo);
    if m.capture is Some {
        assert(after.effects.last() == EffectModel::WriteCapture(data));
    }
}

} // verus!
