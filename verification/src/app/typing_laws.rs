//! What becomes of keys and pastes in a session: what the host receives, and what is
//! drawn.

use super::book_laws::goodbye;
use super::laws::{held, plain};
use super::line::LineModel;
use super::link::LinkModel;
use super::model::{
    digits_only, key_pressed, paste, terminal_event, with_crlf, without_breaks, AppModel, Outcome,
};
use super::{AppState, ChordMode};
use crate::entry::InputMode;
use crate::events::{CommandModel, EffectModel};
use crate::keys::{Key, KeyCode, Modifiers, Mouse, TerminalEventModel};
use crate::popup::{EditSettingsModel, FormModel, PopupField, PopupModel, SettingsField};
use crate::terminal::emulator::EmulatorModel;
use crate::terminal::vt::VtOp;
use vstd::prelude::*;
use vstd::utf8::encode_utf8;

verus! {

/// Whether keys go to a host in this mode: its session is on screen, nothing covers it,
/// and no local command is under way.
pub open spec fn at_the_host(m: AppModel, mode: InputMode) -> bool {
    &&& m.state == AppState::Connected
    &&& m.popup is None
    &&& m.chord == ChordMode::Normal
    &&& m.link.open
    &&& m.input_mode == mode
}

/// A terminal that was handed `bytes`, if they are echoed at all: only on telnet, and only
/// where the server does not echo.
pub open spec fn with_echo(m: AppModel, server_echo: bool, bytes: Seq<u8>) -> EmulatorModel {
    if m.link.telnet is Some && !server_echo {
        EmulatorModel {
            screen: m.emulator.screen.push(VtOp::Feed(bytes)),
            scroll_offset: m.emulator.scroll_offset,
        }
    } else {
        m.emulator
    }
}

/// These bytes go to the host, and nothing else happens.
pub open spec fn only_sent(bytes: Seq<u8>) -> Seq<EffectModel> {
    seq![EffectModel::Send(CommandModel::SendRaw(bytes))]
}

// ---------------------------------------------------------------------------
// Character mode
// ---------------------------------------------------------------------------

/// In character mode every character typed without Ctrl goes to the host at once, in
/// UTF-8, and is drawn where the server does not echo. Nothing else changes but the number
/// of characters on the line.
pub proof fn characters_are_sent_as_typed(
    m: AppModel,
    c: char,
    modifiers: Modifiers,
    server_echo: bool,
)
    requires
        at_the_host(m, InputMode::Character),
        !modifiers.control,
    ensures
        key_pressed(m, Key { code: KeyCode::Char(c), modifiers }, server_echo) == (Outcome {
            app: AppModel {
                char_input_len: m.char_input_len + 1,
                emulator: with_echo(m, server_echo, encode_utf8(seq![c])),
                ..m
            },
            effects: only_sent(encode_utf8(seq![c])),
        }),
{
}

/// What a character that is typed does.
#[verifier::opaque]
pub open spec fn after_key(m: AppModel, c: char, server_echo: bool) -> Outcome {
    key_pressed(m, plain(KeyCode::Char(c)), server_echo)
}

/// The bytes that go to the host among these effects, where they are all that there is.
#[verifier::opaque]
pub open spec fn bytes_of(effects: Seq<EffectModel>) -> Seq<u8> {
    if effects.len() == 1 && effects[0] is Send && effects[0]->Send_0 is SendRaw {
        effects[0]->Send_0->SendRaw_0
    } else {
        seq![]
    }
}

proof fn lemma_after_key(m: AppModel, c: char, server_echo: bool)
    requires
        at_the_host(m, InputMode::Character),
    ensures
        ({
            let next = after_key(m, c, server_echo);
            &&& at_the_host(next.app, InputMode::Character)
            &&& next.app.char_input_len == m.char_input_len + 1
            &&& next.app.link == m.link
            &&& bytes_of(next.effects) == encode_utf8(seq![c])
        }),
{
    reveal(after_key);
    reveal(bytes_of);
    characters_are_sent_as_typed(m, c, plain(KeyCode::Char(c)).modifiers, server_echo);
}

/// What the host has received after the characters of `text` were typed one by one, and
/// the state then.
pub open spec fn received(m: AppModel, text: Seq<char>, server_echo: bool) -> (AppModel, Seq<u8>)
    decreases text.len(),
{
    if text.len() == 0 {
        (m, seq![])
    } else {
        let (before, bytes) = received(m, text.drop_last(), server_echo);
        let next = after_key(before, text.last(), server_echo);
        (next.app, bytes + bytes_of(next.effects))
    }
}

/// The UTF-8 of a text is that of its characters, one after another.
proof fn lemma_encode_push(text: Seq<char>, c: char)
    ensures
        encode_utf8(text.push(c)) == encode_utf8(text) + encode_utf8(seq![c]),
    decreases text.len(),
{
    if text.len() == 0 {
        assert(text.push(c) =~= seq![c]);
        assert(encode_utf8(text) + encode_utf8(seq![c]) =~= encode_utf8(seq![c]));
    } else {
        lemma_encode_push(text.drop_first(), c);
        assert(text.push(c).drop_first() =~= text.drop_first().push(c));
        assert(encode_utf8(text.push(c)) =~= encode_utf8(text) + encode_utf8(seq![c]));
    }
}

/// What is typed in character mode is what the host receives: the text in UTF-8, whole and
/// in order.
pub proof fn typed_texts_reach_the_host(m: AppModel, text: Seq<char>, server_echo: bool)
    requires
        at_the_host(m, InputMode::Character),
    ensures
        received(m, text, server_echo).1 == encode_utf8(text),
        at_the_host(received(m, text, server_echo).0, InputMode::Character),
        received(m, text, server_echo).0.char_input_len == m.char_input_len + text.len(),
        received(m, text, server_echo).0.link == m.link,
    decreases text.len(),
{
    if text.len() > 0 {
        let shorter = text.drop_last();
        typed_texts_reach_the_host(m, shorter, server_echo);
        lemma_after_key(received(m, shorter, server_echo).0, text.last(), server_echo);
        lemma_encode_push(shorter, text.last());
        assert(shorter.push(text.last()) =~= text);
    }
}

/// In character mode Enter goes out as CR LF and starts a line; Backspace goes out as DEL,
/// and is drawn as one character erased, only where something was typed on the line.
#[verifier::rlimit(40)]
pub proof fn enter_and_backspace_reach_the_host(m: AppModel, modifiers: Modifiers, server_echo: bool)
    requires
        !modifiers.control,
        at_the_host(m, InputMode::Character),
        0 <= m.char_input_len,
    ensures
        key_pressed(m, held(KeyCode::Enter, modifiers), server_echo) == (Outcome {
            app: AppModel {
                char_input_len: 0,
                emulator: with_echo(m, server_echo, seq![13u8, 10]),
                ..m
            },
            effects: only_sent(seq![13u8, 10]),
        }),
        m.char_input_len > 0 ==> key_pressed(m, held(KeyCode::Backspace, modifiers), server_echo)
            == (Outcome {
            app: AppModel {
                char_input_len: m.char_input_len - 1,
                emulator: with_echo(m, server_echo, seq![8u8, 32, 8]),
                ..m
            },
            effects: only_sent(seq![127u8]),
        }),
        m.char_input_len == 0 ==> key_pressed(m, held(KeyCode::Backspace, modifiers), server_echo)
            == (Outcome { app: m, effects: seq![] }),
{
}

/// In character mode the keys without a character go out as their escape sequences, and
/// are not drawn.
#[verifier::rlimit(40)]
pub proof fn special_keys_reach_the_host(
    m: AppModel,
    modifiers: Modifiers,
    server_echo: bool,
)
    requires
        at_the_host(m, InputMode::Character),
        !modifiers.shift,
    ensures
        ({
            let sends = |code: KeyCode, bytes: Seq<u8>|
                key_pressed(m, held(code, modifiers), server_echo) == (Outcome {
                    app: m,
                    effects: only_sent(bytes),
                });
            &&& sends(KeyCode::Up, seq![27u8, 91, 65])
            &&& sends(KeyCode::Down, seq![27u8, 91, 66])
            &&& sends(KeyCode::Right, seq![27u8, 91, 67])
            &&& sends(KeyCode::Left, seq![27u8, 91, 68])
            &&& sends(KeyCode::Home, seq![27u8, 91, 72])
            &&& sends(KeyCode::End, seq![27u8, 91, 70])
            &&& sends(KeyCode::PageUp, seq![27u8, 91, 53, 126])
            &&& sends(KeyCode::PageDown, seq![27u8, 91, 54, 126])
            &&& sends(KeyCode::Delete, seq![27u8, 91, 51, 126])
            &&& sends(KeyCode::Insert, seq![27u8, 91, 50, 126])
            &&& key_pressed(m, held(KeyCode::BackTab, modifiers), server_echo) == (Outcome {
                app: m,
                effects: seq![],
            })
            &&& key_pressed(m, held(KeyCode::Other, modifiers), server_echo) == (Outcome {
                app: m,
                effects: seq![],
            })
        }),
{
}

/// In character mode the function keys go out as `ESC O P` to `ESC O S`, and then as
/// `ESC [ n ~` with their number; there is no number 16 nor 22.
#[verifier::rlimit(40)]
pub proof fn function_keys_reach_the_host(m: AppModel, n: u8, modifiers: Modifiers, server_echo: bool)
    requires
        !modifiers.control,
        at_the_host(m, InputMode::Character),
    ensures
        ({
            let pressed = key_pressed(m, held(KeyCode::F(n), modifiers), server_echo);
            let bytes = if 1 <= n <= 4 {
                seq![27u8, 79, (79 + n) as u8]
            } else if n == 5 {
                seq![27u8, 91, 49, 53, 126]
            } else if 6 <= n <= 8 {
                seq![27u8, 91, 49, (49 + n) as u8, 126]
            } else if 9 <= n <= 10 {
                seq![27u8, 91, 50, (39 + n) as u8, 126]
            } else if 11 <= n <= 12 {
                seq![27u8, 91, 50, (40 + n) as u8, 126]
            } else {
                seq![]
            };
            pressed == (Outcome { app: m, effects: only_sent(bytes) })
        }),
{
}

/// In character mode a letter with Ctrl goes out as its control code, 1 for A to 26 for Z,
/// and is not drawn. Ctrl with any other character sends nothing, and with `]`, which
/// terminals may report as `5`, it starts a local command.
#[verifier::rlimit(40)]
pub proof fn control_codes_reach_the_host(
    m: AppModel,
    c: char,
    modifiers: Modifiers,
    server_echo: bool,
)
    requires
        at_the_host(m, InputMode::Character),
        modifiers.control,
    ensures
        ({
            let pressed = key_pressed(m, Key { code: KeyCode::Char(c), modifiers }, server_echo);
            &&& 97 <= c as u32 <= 122 ==> pressed == (Outcome {
                app: m,
                effects: only_sent(seq![(c as u32 - 96) as u8]),
            })
            &&& 65 <= c as u32 <= 90 ==> pressed == (Outcome {
                app: m,
                effects: only_sent(seq![(c as u32 - 64) as u8]),
            })
            &&& !(97 <= c as u32 <= 122) && !(65 <= c as u32 <= 90) ==> pressed.effects.len() == 0
            &&& !(97 <= c as u32 <= 122) && !(65 <= c as u32 <= 90) && c != ']' && c != '5'
                ==> pressed.app == m
            &&& c == ']' || c == '5' ==> pressed.app == (AppModel {
                chord: ChordMode::Awaiting,
                status: "Ctrl+] (waiting for command — ? for help)"@,
                ..m
            })
        }),
{
}

// ---------------------------------------------------------------------------
// Line mode
// ---------------------------------------------------------------------------

/// In line mode a character goes to the end of the input line and Backspace takes the last
/// one off; the host hears nothing of either.
#[verifier::rlimit(40)]
pub proof fn lines_are_edited_at_their_end(m: AppModel, c: char, modifiers: Modifiers, server_echo: bool)
    requires
        !modifiers.control,
        at_the_host(m, InputMode::LineBuffered),
    ensures
        key_pressed(m, held(KeyCode::Char(c), modifiers), server_echo) == (Outcome {
            app: AppModel {
                line: LineModel { input: m.line.input.push(c), index: None, ..m.line },
                ..m
            },
            effects: seq![],
        }),
        m.line.input.len() > 0 ==> key_pressed(m, held(KeyCode::Backspace, modifiers), server_echo)
            == (Outcome {
            app: AppModel {
                line: LineModel {
                    input: m.line.input.take(m.line.input.len() - 1),
                    index: None,
                    ..m.line
                },
                ..m
            },
            effects: seq![],
        }),
        m.line.input.len() == 0 ==> key_pressed(m, held(KeyCode::Backspace, modifiers), server_echo)
            == (Outcome {
            app: AppModel { line: LineModel { index: None, ..m.line }, ..m },
            effects: seq![],
        }),
{
    if m.line.input.len() > 0 {
        assert(m.line.input.drop_last() =~= m.line.input.take(m.line.input.len() - 1));
    }
}

/// In line mode Enter sends the line and CR LF, draws them where the server does not echo,
/// and remembers the line, unless it is empty or the one before was the same.
pub proof fn lines_are_sent_and_remembered(m: AppModel, modifiers: Modifiers, server_echo: bool)
    requires
        !modifiers.control,
        at_the_host(m, InputMode::LineBuffered),
    ensures
        ({
            let pressed = key_pressed(m, held(KeyCode::Enter, modifiers), server_echo);
            let line = m.line.input;
            let seen = m.line.history;
            &&& pressed.effects == seq![
                EffectModel::Send(CommandModel::SendText(line + "\r\n"@)),
            ]
            &&& pressed.app == (AppModel {
                line: LineModel {
                    input: seq![],
                    index: None,
                    history: pressed.app.line.history,
                    ..m.line
                },
                emulator: with_echo(m, server_echo, encode_utf8(line + "\r\n"@)),
                ..m
            })
            &&& line.len() == 0 ==> pressed.app.line.history == seen
            &&& line.len() > 0 && seen.len() > 0 && seen[seen.len() - 1] == line
                ==> pressed.app.line.history == seen
            &&& line.len() > 0 && (seen.len() == 0 || seen[seen.len() - 1] != line)
                ==> pressed.app.line.history == seen.push(line)
        }),
{
}

/// In line mode Up goes back through the lines sent before, from the last one to the
/// first, and Down forward again, past the last one to what was being typed.
#[verifier::rlimit(40)]
pub proof fn lines_are_brought_back(m: AppModel, i: int, modifiers: Modifiers, server_echo: bool)
    requires
        !modifiers.control,
        at_the_host(m, InputMode::LineBuffered),
    ensures
        ({
            let up = key_pressed(m, held(KeyCode::Up, modifiers), server_echo);
            let down = key_pressed(m, held(KeyCode::Down, modifiers), server_echo);
            let seen = m.line.history;
            let with = |line: LineModel| Outcome { app: AppModel { line, ..m }, effects: seq![] };
            &&& seen.len() == 0 ==> up == with(m.line)
            &&& seen.len() > 0 && m.line.index is None ==> up == with(
                LineModel {
                    input: seen[seen.len() - 1],
                    index: Some(seen.len() - 1),
                    draft: m.line.input,
                    ..m.line
                },
            )
            &&& m.line.index is None ==> down == with(m.line)
            &&& 0 < i < seen.len() && m.line.index == Some(i) ==> up == with(
                LineModel { input: seen[i - 1], index: Some(i - 1), ..m.line },
            )
            &&& 0 <= i < seen.len() - 1 && m.line.index == Some(i) ==> down == with(
                LineModel { input: seen[i + 1], index: Some(i + 1), ..m.line },
            )
            &&& seen.len() > 0 && m.line.index == Some(0int) ==> up == with(m.line)
            &&& seen.len() > 0 && m.line.index == Some(seen.len() - 1) ==> down == with(
                LineModel { input: m.line.draft, index: None, draft: seq![], ..m.line },
            )
        }),
{
}

/// In line mode the keys that neither edit the line nor send, browse or scroll do nothing.
#[verifier::rlimit(40)]
pub proof fn other_keys_do_nothing_in_line_mode(
    m: AppModel,
    code: KeyCode,
    modifiers: Modifiers,
    server_echo: bool,
)
    requires
        at_the_host(m, InputMode::LineBuffered),
        code == KeyCode::Left || code == KeyCode::Right || code == KeyCode::Home || code
            == KeyCode::End || code == KeyCode::Delete || code == KeyCode::Insert || code
            == KeyCode::BackTab || code is F || code == KeyCode::Other,
    ensures
        key_pressed(m, held(code, modifiers), server_echo) == (Outcome { app: m, effects: seq![] }),
{
}

// ---------------------------------------------------------------------------
// Either mode
// ---------------------------------------------------------------------------

/// In line mode a character with Ctrl is typed like any other, but for those that quit, end
/// the session or start a local command.
pub proof fn ctrl_is_not_special_in_line_mode(
    m: AppModel,
    c: char,
    modifiers: Modifiers,
    server_echo: bool,
)
    requires
        at_the_host(m, InputMode::LineBuffered),
        c != 'c' && c != 'd' && c != ']' && c != '5',
    ensures
        key_pressed(m, held(KeyCode::Char(c), modifiers), server_echo) == (Outcome {
            app: AppModel {
                line: LineModel { input: m.line.input.push(c), index: None, ..m.line },
                ..m
            },
            effects: seq![],
        }),
{
}

/// Without a channel to the host, what would go there changes nothing: Enter in line mode
/// keeps the line, and in character mode neither Enter nor a character does anything.
pub proof fn keys_wait_for_a_channel(m: AppModel, c: char, server_echo: bool)
    requires
        m.state == AppState::Connected,
        m.popup is None,
        m.chord == ChordMode::Normal,
        !m.link.open,
    ensures
        key_pressed(m, plain(KeyCode::Enter), server_echo) == (Outcome { app: m, effects: seq![] }),
        m.input_mode == InputMode::Character ==> key_pressed(
            m,
            plain(KeyCode::Char(c)),
            server_echo,
        ) == (Outcome { app: m, effects: seq![] }),
{
}

/// The mouse wheel scrolls in any session, whatever covers it.
pub proof fn the_wheel_scrolls_in_any_session(m: AppModel, server_echo: bool)
    requires
        m.state == AppState::Connected,
        m.emulator.scroll_offset + 3 <= usize::MAX,
    ensures
        ({
            let at = |offset: int| Outcome {
                app: AppModel {
                    emulator: EmulatorModel { scroll_offset: offset as usize, ..m.emulator },
                    ..m
                },
                effects: seq![],
            };
            let here = m.emulator.scroll_offset;
            let wheel = |mouse: Mouse|
                terminal_event(m, TerminalEventModel::Mouse(mouse), server_echo);
            &&& wheel(Mouse::ScrollUp) == at(here + 3)
            &&& here >= 3 ==> wheel(Mouse::ScrollDown) == at(here - 3)
            &&& here < 3 ==> wheel(Mouse::ScrollDown) == at(0)
        }),
{
}

/// Ctrl+C quits wherever it does not go to the host: the connection that there is is told
/// goodbye, and nothing else changes.
pub proof fn ctrl_c_quits(m: AppModel, modifiers: Modifiers, server_echo: bool)
    requires
        modifiers.control,
        !(m.state == AppState::Connected && m.input_mode == InputMode::Character && m.popup is None
            && m.chord == ChordMode::Normal),
    ensures
        key_pressed(m, held(KeyCode::Char('c'), modifiers), server_echo) == (Outcome {
            app: AppModel {
                quit: true,
                link: LinkModel { open: false, tasks_running: false, ..m.link },
                ..m
            },
            effects: goodbye(m),
        }),
{
}

/// Without a channel to the host no key sends anything.
#[verifier::rlimit(40)]
pub proof fn nothing_is_sent_without_a_channel(m: AppModel, code: KeyCode, server_echo: bool)
    requires
        m.state == AppState::Connected,
        m.popup is None,
        m.chord == ChordMode::Normal,
        !m.link.open,
    ensures
        key_pressed(m, plain(code), server_echo).effects.len() == 0,
{
}

/// Shift with PageUp and PageDown, and in line mode these keys alone, scroll by ten lines,
/// and the mouse wheel by three; no further forward than to the live output.
#[verifier::rlimit(40)]
pub proof fn the_view_scrolls_by_lines(m: AppModel, server_echo: bool)
    requires
        at_the_host(m, m.input_mode),
        m.emulator.scroll_offset + 10 <= usize::MAX,
    ensures
        ({
            let shift = Modifiers { shift: true, control: false, other: false };
            let at = |offset: int| Outcome {
                app: AppModel {
                    emulator: EmulatorModel { scroll_offset: offset as usize, ..m.emulator },
                    ..m
                },
                effects: seq![],
            };
            let here = m.emulator.scroll_offset;
            let back = |lines: int| at(
                if here < lines {
                    0
                } else {
                    here - lines
                },
            );
            let paged_up = key_pressed(
                m,
                Key { code: KeyCode::PageUp, modifiers: shift },
                server_echo,
            );
            let paged_down = key_pressed(
                m,
                Key { code: KeyCode::PageDown, modifiers: shift },
                server_echo,
            );
            &&& paged_up == at(here + 10)
            &&& paged_down == back(10)
            &&& m.input_mode == InputMode::LineBuffered ==> key_pressed(
                m,
                plain(KeyCode::PageUp),
                server_echo,
            ) == at(here + 10)
            &&& m.input_mode == InputMode::LineBuffered ==> key_pressed(
                m,
                plain(KeyCode::PageDown),
                server_echo,
            ) == back(10)
            &&& terminal_event(m, TerminalEventModel::Mouse(Mouse::ScrollUp), server_echo) == at(
                here + 3,
            )
            &&& terminal_event(m, TerminalEventModel::Mouse(Mouse::ScrollDown), server_echo)
                == back(3)
            &&& terminal_event(m, TerminalEventModel::Mouse(Mouse::Other), server_echo) == (
            Outcome { app: m, effects: seq![] })
        }),
{
}

/// Outside a session the mouse does nothing; nor does a key that is let go, anywhere.
pub proof fn some_events_do_nothing(m: AppModel, key: Key, mouse: Mouse, server_echo: bool)
    ensures
        terminal_event(m, TerminalEventModel::Key { key, released: true }, server_echo) == (
        Outcome { app: m, effects: seq![] }),
        terminal_event(m, TerminalEventModel::Other, server_echo) == (Outcome {
            app: m,
            effects: seq![],
        }),
        m.state != AppState::Connected ==> terminal_event(
            m,
            TerminalEventModel::Mouse(mouse),
            server_echo,
        ) == (Outcome { app: m, effects: seq![] }),
        terminal_event(m, TerminalEventModel::Key { key, released: false }, server_echo)
            == key_pressed(m, key, server_echo),
{
}

// ---------------------------------------------------------------------------
// Pasting
// ---------------------------------------------------------------------------

/// Dropping line breaks drops CR and LF and keeps every other character, in order.
pub proof fn only_breaks_are_dropped(a: Seq<char>, c: char)
    ensures
        without_breaks(seq![]) == Seq::<char>::empty(),
        without_breaks(a.push(c)) == (if c == '\r' || c == '\n' {
            without_breaks(a)
        } else {
            without_breaks(a).push(c)
        }),
{
    reveal(Seq::filter);
    assert(a.push(c).drop_last() =~= a);
}

/// Keeping digits keeps `0` to `9` and drops every other character.
pub proof fn only_digits_are_kept(a: Seq<char>, c: char)
    ensures
        digits_only(seq![]) == Seq::<char>::empty(),
        digits_only(a.push(c)) == (if 48 <= c as u32 <= 57 {
            digits_only(a).push(c)
        } else {
            digits_only(a)
        }),
{
    reveal(Seq::filter);
    assert(a.push(c).drop_last() =~= a);
}

/// Turning line breaks into CR LF leaves every other character where it is; CR LF, CR and
/// LF each make one CR LF.
pub proof fn breaks_become_crlf(text: Seq<char>, c: char)
    ensures
        with_crlf(seq![]) == Seq::<char>::empty(),
        c != '\r' && c != '\n' ==> with_crlf(seq![c] + text) == seq![c] + with_crlf(text),
        with_crlf(seq!['\n'] + text) == seq!['\r', '\n'] + with_crlf(text),
        with_crlf(seq!['\r', '\n'] + text) == seq!['\r', '\n'] + with_crlf(text),
        text.len() == 0 || text[0] != '\n' ==> with_crlf(seq!['\r'] + text) == seq!['\r', '\n']
            + with_crlf(text),
{
    assert((seq![c] + text).skip(1) =~= text);
    assert((seq!['\n'] + text).skip(1) =~= text);
    assert((seq!['\r'] + text).skip(1) =~= text);
    assert((seq!['\r', '\n'] + text).skip(2) =~= text);
}

/// A paste into a session goes to the host at once in character mode, in UTF-8 and with
/// its line breaks as CR LF, and is drawn where the server does not echo. In line mode it
/// goes to the end of the input line without its line breaks.
pub proof fn pastes_go_where_typing_goes(m: AppModel, text: Seq<char>, server_echo: bool)
    requires
        text.len() > 0,
    ensures
        at_the_host(m, InputMode::Character) ==> paste(m, text, server_echo) == (Outcome {
            app: AppModel {
                emulator: with_echo(m, server_echo, encode_utf8(with_crlf(text))),
                ..m
            },
            effects: only_sent(encode_utf8(with_crlf(text))),
        }),
        at_the_host(m, InputMode::LineBuffered) ==> paste(m, text, server_echo) == (Outcome {
            app: AppModel {
                line: LineModel {
                    input: m.line.input + without_breaks(text),
                    index: None,
                    ..m.line
                },
                ..m
            },
            effects: seq![],
        }),
        m.popup is None && m.state != AppState::Connected ==> paste(m, text, server_echo) == (
        Outcome { app: m, effects: seq![] }),
        paste(m, seq![], server_echo) == (Outcome { app: m, effects: seq![] }),
        terminal_event(m, TerminalEventModel::Paste(text), server_echo) == paste(
            m,
            text,
            server_echo,
        ),
{
}

/// A paste while a popup is open goes into its password, or into the field with the focus,
/// without line breaks; of a scrollback only the digits. It goes nowhere else.
#[verifier::rlimit(40)]
pub proof fn pastes_go_into_popups(
    m: AppModel,
    text: Seq<char>,
    pw: Seq<char>,
    form: FormModel,
    p: EditSettingsModel,
    server_echo: bool,
)
    requires
        text.len() > 0,
    ensures
        ({
            let open = |popup: PopupModel| AppModel { popup: Some(popup), ..m };
            let into = |popup: PopupModel| paste(open(popup), text, server_echo);
            let gives = |popup: PopupModel| Outcome { app: open(popup), effects: seq![] };
            let kept = without_breaks(text);
            &&& into(PopupModel::Password(pw)) == gives(PopupModel::Password(pw + kept))
            &&& form.focused == PopupField::Name ==> into(PopupModel::Form(form)) == gives(
                PopupModel::Form(FormModel { name: form.name + kept, ..form }),
            )
            &&& form.focused == PopupField::Host ==> into(PopupModel::Form(form)) == gives(
                PopupModel::Form(FormModel { host: form.host + kept, ..form }),
            )
            &&& form.focused == PopupField::Port ==> into(PopupModel::Form(form)) == gives(
                PopupModel::Form(FormModel { port: form.port + kept, ..form }),
            )
            &&& form.focused == PopupField::Username ==> into(PopupModel::Form(form)) == gives(
                PopupModel::Form(FormModel { username: form.username + kept, ..form }),
            )
            &&& form.focused == PopupField::Protocol || form.focused == PopupField::TerminalType
                || form.focused == PopupField::InputMode ==> into(PopupModel::Form(form)) == gives(
                PopupModel::Form(form),
            )
            &&& p.focused == SettingsField::Scrollback ==> into(PopupModel::EditSettings(p))
                == gives(
                PopupModel::EditSettings(
                    EditSettingsModel { scrollback: p.scrollback + digits_only(text), ..p },
                ),
            )
            &&& p.focused != SettingsField::Scrollback ==> into(PopupModel::EditSettings(p))
                == gives(PopupModel::EditSettings(p))
            &&& into(PopupModel::DeleteConfirm) == gives(PopupModel::DeleteConfirm)
            &&& into(PopupModel::ChordHelp) == gives(PopupModel::ChordHelp)
        }),
{
}

} // verus!
