//! What the events of a connection and of the window do.

use super::book::BookModel;
use super::laws::{ctrl, plain};
use super::line::LineModel;
use super::link::LinkModel;
use super::model::{
    app_event, data_received, key_pressed, terminal_event, with_settings, AppModel, Outcome,
};
use super::typing_laws::at_the_host;
use super::{started, warning_lines, AppState, ChordMode};
use crate::config::settings::SettingsModel;
use crate::entry::{EntryModel, InputMode};
use crate::events::{AppEventModel, CommandModel, EffectModel};
use crate::keys::{KeyCode, TerminalEventModel};
use crate::network::ssh::LoginModel;
use crate::network::telnet::TelnetFlags;
use crate::popup::{HostKeyTrustModel, PopupModel};
use crate::terminal::ansi_query::{pending_after_all, queries_of, AnsiQuery};
use crate::terminal::emulator::EmulatorModel;
use crate::terminal::laws::{
    a_query_is_answered_in_its_place, asks, plain_output_asks_nothing, plain_output_is_drawn_whole,
};
use crate::terminal::responder::{all_drawn, drawn, reply};
use crate::terminal::vt::{vt_cursor, vt_size, VtOp};
use crate::text::decimal;
use std::sync::Arc;
use vstd::prelude::*;

verus! {

/// The name of the selected entry.
pub open spec fn name_of_selected(b: BookModel) -> Seq<char> {
    if 0 <= b.selected < b.entries.len() {
        b.entries[b.selected].name
    } else {
        "unknown"@
    }
}

/// The terminal's size in this window and mode, columns first: a row for the status bar,
/// and in line mode three more for the input bar; at least one of each.
pub open spec fn room(width: u16, height: u16, mode: InputMode) -> (u16, u16) {
    let bars: int = if mode == InputMode::Character {
        1
    } else {
        4
    };
    (
        if width == 0 {
            1
        } else {
            width
        },
        if height <= bars {
            1
        } else {
            (height - bars) as u16
        },
    )
}

// ---------------------------------------------------------------------------
// Connections come and go
// ---------------------------------------------------------------------------

/// A connection that is made opens the session of the selected entry, with the flags that
/// it shares and a fresh look-out for queries. The first one of all comes with a hint.
pub proof fn a_connection_opens_a_session(
    m: AppModel,
    telnet: Option<Arc<TelnetFlags>>,
    server_echo: bool,
)
    ensures
        app_event(m, m.link.id, AppEventModel::Connected(telnet), server_echo) == (Outcome {
            app: AppModel {
                state: AppState::Connected,
                link: LinkModel { open: true, telnet, ..m.link },
                scanner: seq![],
                book: BookModel { connected: Some(m.book.selected), ..m.book },
                status: if m.shown_chord_hint {
                    "Connected to "@ + name_of_selected(m.book)
                } else {
                    "Connected to "@ + name_of_selected(m.book)
                        + " — Press Ctrl+] ? for commands."@
                },
                shown_chord_hint: true,
                ..m
            },
            effects: seq![EffectModel::Accept],
        }),
{
}

/// A connection that is lost takes the user back to the address book and leaves nothing of
/// the session. The user hears where a capture went, or else why the connection was lost.
pub proof fn a_lost_connection_is_explained(
    m: AppModel,
    reason: Option<Seq<char>>,
    server_echo: bool,
)
    ensures
        ({
            let lost = app_event(
                m,
                m.link.id,
                AppEventModel::Disconnected(reason),
                server_echo,
            );
            &&& lost.app == (AppModel {
                state: AppState::AddressBook,
                link: LinkModel { open: false, tasks_running: false, telnet: None, ..m.link },
                book: BookModel { connected: None, ..m.book },
                capture: None,
                status: lost.app.status,
                ..m
            })
            &&& m.capture is Some ==> lost.app.status == "Capture stopped (disconnected): "@ + (
            "saved "@ + decimal(m.capture->0.bytes_written as nat) + " bytes → "@
                + m.capture->0.path)
            &&& m.capture is None && reason is Some ==> lost.app.status == "Disconnected: "@
                + reason->0
            &&& m.capture is None && reason is None ==> lost.app.status == "Disconnected"@
            &&& m.capture is Some ==> lost.effects == seq![
                EffectModel::ForgetTasks,
                EffectModel::CloseCapture,
            ]
            &&& m.capture is None ==> lost.effects == seq![EffectModel::ForgetTasks]
        }),
{
}

/// A connection that needs a password has the user asked for one, from an empty field; one
/// to an unknown host has the user asked whether its key is trusted.
pub proof fn questions_are_put_to_the_user(
    m: AppModel,
    host: Seq<char>,
    port: u16,
    key_type: Seq<char>,
    fingerprint: Seq<char>,
    server_echo: bool,
)
    ensures
        app_event(m, m.link.id, AppEventModel::PasswordNeeded, server_echo) == (Outcome {
            app: AppModel {
                link: LinkModel { password_pending: true, ..m.link },
                popup: Some(PopupModel::Password(seq![])),
                status: "SSH password required"@,
                ..m
            },
            effects: seq![EffectModel::Accept],
        }),
        app_event(
            m,
            m.link.id,
            AppEventModel::HostKeyTrustNeeded { host, port, key_type, fingerprint },
            server_echo,
        ) == (Outcome {
            app: AppModel {
                link: LinkModel { host_key_pending: true, ..m.link },
                popup: Some(
                    PopupModel::HostKeyTrust(
                        HostKeyTrustModel { host, port, key_type, fingerprint },
                    ),
                ),
                status: "Verify host key for "@ + host + ":"@ + decimal(port as nat),
                ..m
            },
            effects: seq![EffectModel::Accept],
        }),
{
}

/// A host with another key than the stored one is not let in: the user is back in the
/// address book and reads both keys, and whatever the connection still sends is stale.
pub proof fn a_changed_host_key_is_refused(
    m: AppModel,
    host: Seq<char>,
    port: u16,
    key_type: Seq<char>,
    stored: Seq<char>,
    received: Seq<char>,
    file_path: Seq<char>,
    server_echo: bool,
)
    ensures
        app_event(
            m,
            m.link.id,
            AppEventModel::HostKeyMismatch { host, port, key_type, stored, received, file_path },
            server_echo,
        ) == (Outcome {
            app: AppModel {
                state: AppState::AddressBook,
                link: LinkModel {
                    id: if m.link.id == u64::MAX {
                        0
                    } else {
                        (m.link.id + 1) as u64
                    },
                    ..m.link
                },
                status: "HOST KEY MISMATCH for "@ + host + ":"@ + decimal(port as nat) + " ("@
                    + key_type + ")\n  stored:   "@ + stored + "\n  received: "@ + received
                    + "\nThis could be a man-in-the-middle attack, or the server's key\nwas rotated. To accept the new key, edit:\n  "@
                    + file_path + "\nand remove the [[hosts]] entry with key_type = \""@ + key_type
                    + "\"."@,
                ..m
            },
            effects: seq![],
        }),
{
}

// ---------------------------------------------------------------------------
// Output
// ---------------------------------------------------------------------------

/// Whether an echoing server has the session change to character mode: it is a telnet
/// session in line mode, and neither the user nor its entry has settled on line mode.
pub open spec fn follows_the_echo(m: AppModel) -> bool {
    &&& m.link.telnet is Some
    &&& m.input_mode == InputMode::LineBuffered
    &&& !m.input_mode_user_set
    &&& forall|i: int|
        0 <= i < m.book.entries.len() && m.book.connected == Some(i)
            ==> (#[trigger] m.book.entries[i]).default_input_mode != Some(InputMode::LineBuffered)
}

/// What is captured of data.
pub open spec fn capture_of(m: AppModel, data: Seq<u8>) -> Seq<EffectModel> {
    if m.capture is Some {
        seq![EffectModel::WriteCapture(data)]
    } else {
        seq![]
    }
}

/// Plain output of the host is drawn in one piece, as it came, goes into the capture that
/// there is, and does nothing else, whatever is on screen.
#[verifier::rlimit(40)]
pub proof fn plain_output_is_drawn(m: AppModel, data: Seq<u8>, server_echo: bool)
    requires
        m.scanner == Seq::<u8>::empty(),
        data.len() > 0,
        !data.contains(27u8),
        !(server_echo && follows_the_echo(m)),
    ensures
        app_event(m, m.link.id, AppEventModel::NetworkData(data), server_echo) == (Outcome {
            app: AppModel {
                emulator: EmulatorModel {
                    screen: m.emulator.screen.push(VtOp::Feed(data)),
                    scroll_offset: m.emulator.scroll_offset,
                },
                ..m
            },
            effects: capture_of(m, data),
        }),
{
    plain_output_asks_nothing(data);
    plain_output_is_drawn_whole(m.emulator, data);
    lemma_switches(m, server_echo);
    let after = data_received(m, data, server_echo);
    assert(after.effects =~= capture_of(m, data));
}

/// A query of the host is answered in its place where there is a channel: with the cursor
/// as it is once the output up to there is drawn.
#[verifier::rlimit(40)]
pub proof fn queries_of_the_host_are_answered(
    m: AppModel,
    before: Seq<u8>,
    sequence: Seq<u8>,
    query: AnsiQuery,
    server_echo: bool,
)
    requires
        m.scanner == Seq::<u8>::empty(),
        m.link.open,
        sequence.len() > 0,
        asks(before, sequence, query),
        !(server_echo && follows_the_echo(m)),
    ensures
        ({
            let data = before + sequence;
            let screen = m.emulator.screen.push(VtOp::Feed(data));
            let after = app_event(m, m.link.id, AppEventModel::NetworkData(data), server_echo);
            &&& after.app.emulator == (EmulatorModel {
                screen,
                scroll_offset: m.emulator.scroll_offset,
            })
            &&& after.effects == seq![
                EffectModel::Send(CommandModel::SendRaw(reply(query, vt_cursor(screen)))),
            ] + capture_of(m, data)
        }),
{
    let data = before + sequence;
    a_query_is_answered_in_its_place(m.emulator, data, query);
    lemma_switches(m, server_echo);
    let after = data_received(m, data, server_echo);
    assert(after.effects =~= seq![
        EffectModel::Send(
            CommandModel::SendRaw(
                reply(query, vt_cursor(m.emulator.screen.push(VtOp::Feed(data)))),
            ),
        ),
    ] + capture_of(m, data));
}

/// Whatever output holds, the replies to its queries go out first and in order, where there
/// is a channel, and the look-out for queries goes on where it was.
pub proof fn replies_go_out_in_order(m: AppModel, data: Seq<u8>, server_echo: bool, i: int)
    ensures
        ({
            let after = app_event(m, m.link.id, AppEventModel::NetworkData(data), server_echo);
            let queries = queries_of(m.scanner, data);
            let replies = drawn(m.emulator, data, queries).replies;
            &&& after.app.scanner == pending_after_all(m.scanner, data)
            &&& m.link.open && 0 <= i < replies.len() ==> after.effects[i] == EffectModel::Send(
                CommandModel::SendRaw(replies[i]),
            )
            &&& m.link.open && !(server_echo && follows_the_echo(m)) ==> after.effects.len()
                == replies.len() + capture_of(m, data).len()
            &&& !m.link.open && !(server_echo && follows_the_echo(m)) ==> after.effects
                == capture_of(m, data)
            &&& !(server_echo && follows_the_echo(m)) ==> after.app.emulator == all_drawn(
                m.emulator,
                data,
                queries,
            )
        }),
{
    lemma_switches(m, server_echo);
    let shown = data_received(m, data, server_echo);
    if !m.link.open && !(server_echo && follows_the_echo(m)) {
        assert(shown.effects =~= capture_of(m, data));
    }
}

/// What it takes for the session to change its mode.
proof fn lemma_switches(m: AppModel, server_echo: bool)
    ensures
        super::model::switches(m, server_echo) <==> server_echo && follows_the_echo(m),
{
    if server_echo && follows_the_echo(m) {
        if m.book.connected is Some && 0 <= m.book.connected->0 < m.book.entries.len() {
            assert(m.book.entries[m.book.connected->0].default_input_mode != Some(
                InputMode::LineBuffered,
            ));
        }
    }
}

/// Once the server echoes, output has a telnet session that may follow change to character
/// mode, on the screen that has room then, and the host is told its size.
#[verifier::rlimit(40)]
pub proof fn an_echoing_server_changes_the_mode(m: AppModel, data: Seq<u8>)
    requires
        m.scanner == Seq::<u8>::empty(),
        data.len() > 0,
        !data.contains(27u8),
        follows_the_echo(m),
        m.link.open,
        m.emulator.screen.len() > 0,
    ensures
        ({
            let (cols, rows) = room(m.width, m.height, InputMode::Character);
            let after = app_event(m, m.link.id, AppEventModel::NetworkData(data), true);
            &&& after.app == (AppModel {
                input_mode: InputMode::Character,
                emulator: after.app.emulator,
                ..m
            })
            &&& vt_size(after.app.emulator.screen) == (rows, cols)
            &&& after.effects == seq![EffectModel::Send(CommandModel::Resize(cols, rows))]
                + capture_of(m, data)
        }),
{
    let (cols, rows) = room(m.width, m.height, InputMode::Character);
    plain_output_asks_nothing(data);
    plain_output_is_drawn_whole(m.emulator, data);
    lemma_switches(m, true);
    let fed = EmulatorModel {
        screen: m.emulator.screen.push(VtOp::Feed(data)),
        scroll_offset: m.emulator.scroll_offset,
    };
    crate::terminal::laws::screens_take_on_real_sizes(fed, rows, cols);
    let shown = AppModel { emulator: fed, ..m };
    lemma_switches(shown, true);
    let after = data_received(m, data, true);
    assert(after.effects =~= seq![EffectModel::Send(CommandModel::Resize(cols, rows))]
        + capture_of(m, data));
}

// ---------------------------------------------------------------------------
// The window
// ---------------------------------------------------------------------------

/// A window of another size gives the terminal the room that is left beside the bars, and
/// the host is told.
pub proof fn the_terminal_fills_the_window(m: AppModel, width: u16, height: u16, server_echo: bool)
    requires
        m.emulator.screen.len() > 0,
    ensures
        ({
            let (cols, rows) = room(width, height, m.input_mode);
            let after = terminal_event(m, TerminalEventModel::Resize(width, height), server_echo);
            &&& after.app == (AppModel { width, height, emulator: after.app.emulator, ..m })
            &&& vt_size(after.app.emulator.screen) == (rows, cols)
            &&& after.effects == (if m.link.open {
                seq![EffectModel::Send(CommandModel::Resize(cols, rows))]
            } else {
                seq![]
            })
        }),
{
    let (cols, rows) = room(width, height, m.input_mode);
    crate::terminal::laws::screens_take_on_real_sizes(m.emulator, rows, cols);
}

/// Tab changes between the two modes in a session: the terminal takes the room that the
/// mode leaves, the host is told, and the user's choice stands.
#[verifier::rlimit(40)]
pub proof fn tab_changes_the_mode(m: AppModel, server_echo: bool)
    requires
        at_the_host(m, m.input_mode),
        m.emulator.screen.len() > 0,
    ensures
        ({
            let other = if m.input_mode == InputMode::Character {
                InputMode::LineBuffered
            } else {
                InputMode::Character
            };
            let (cols, rows) = room(m.width, m.height, other);
            let after = key_pressed(m, plain(KeyCode::Tab), server_echo);
            &&& after.app == (AppModel {
                input_mode: other,
                input_mode_user_set: true,
                emulator: after.app.emulator,
                ..m
            })
            &&& vt_size(after.app.emulator.screen) == (rows, cols)
            &&& after.effects == seq![EffectModel::Send(CommandModel::Resize(cols, rows))]
        }),
{
    let other = if m.input_mode == InputMode::Character {
        InputMode::LineBuffered
    } else {
        InputMode::Character
    };
    let (cols, rows) = room(m.width, m.height, other);
    crate::terminal::laws::screens_take_on_real_sizes(m.emulator, rows, cols);
}

/// Esc leaves a session for the address book without ending it; in line mode Ctrl+D ends
/// it, and the host is told goodbye.
pub proof fn sessions_are_left_or_ended(m: AppModel, server_echo: bool)
    requires
        at_the_host(m, m.input_mode),
    ensures
        key_pressed(m, plain(KeyCode::Esc), server_echo) == (Outcome {
            app: AppModel {
                state: AppState::AddressBook,
                status: "Session suspended — "@ + name_of_selected(m.book)
                    + " (Enter to resume, Ctrl+D to disconnect)"@,
                ..m
            },
            effects: seq![],
        }),
        m.input_mode == InputMode::LineBuffered ==> key_pressed(m, ctrl('d'), server_echo) == (
        Outcome {
            app: AppModel {
                state: AppState::AddressBook,
                link: LinkModel { open: false, tasks_running: false, ..m.link },
                book: BookModel { connected: None, ..m.book },
                status: "Disconnected"@,
                ..m
            },
            effects: seq![EffectModel::Send(CommandModel::Disconnect), EffectModel::StopTasks],
        }),
{
}

// ---------------------------------------------------------------------------
// The start
// ---------------------------------------------------------------------------

/// The program starts in the address book, on its first entry, with nothing typed and no
/// connection, and in the mode that the settings say.
pub proof fn the_program_starts_in_the_address_book(
    entries: Seq<EntryModel>,
    settings: SettingsModel,
    status: Seq<char>,
    login: LoginModel,
)
    ensures
        ({
            let m = started(entries, settings, status, login);
            &&& m.state == AppState::AddressBook
            &&& m.popup is None
            &&& m.book == (BookModel { entries, selected: 0, connected: None })
            &&& m.line == (LineModel {
                input: seq![],
                history: seq![],
                index: None,
                draft: seq![],
            })
            &&& m.link == (LinkModel {
                id: 0,
                open: false,
                tasks_running: false,
                telnet: None,
                password_pending: false,
                host_key_pending: false,
            })
            &&& m.input_mode == settings.default_input_mode
            &&& m.settings == settings
            &&& m.status == status
            &&& m.login == login
            &&& m.capture is None
            &&& m.chord == ChordMode::Normal
            &&& !m.shown_chord_hint
            &&& !m.input_mode_user_set
            &&& !m.quit
            &&& m.char_input_len == 0
            &&& m.scanner.len() == 0
            &&& (m.width, m.height) == (80u16, 24u16)
            &&& m.emulator == (EmulatorModel {
                screen: seq![
                    VtOp::Open { rows: 24, cols: 80, scrollback: settings.scrollback_lines },
                ],
                scroll_offset: 0,
            })
        }),
{
}

/// What there is to warn of at the start is shown one warning per line, in order.
pub proof fn warnings_are_shown_line_by_line(a: Seq<char>, b: Seq<char>, c: Seq<char>)
    ensures
        ({
            let none = None::<Seq<char>>;
            &&& warning_lines(seq![none, none, none]) == Seq::<char>::empty()
            &&& warning_lines(seq![Some(a), none, none]) == a
            &&& warning_lines(seq![none, Some(b), none]) == b
            &&& warning_lines(seq![none, none, Some(c)]) == c
            &&& warning_lines(seq![Some(a), Some(b), none]) == a + "\n"@ + b
            &&& warning_lines(seq![Some(a), none, Some(c)]) == a + "\n"@ + c
            &&& warning_lines(seq![none, Some(b), Some(c)]) == b + "\n"@ + c
            &&& warning_lines(seq![Some(a), Some(b), Some(c)]) == a + "\n"@ + b + "\n"@ + c
        }),
{
    let none = None::<Seq<char>>;
    lemma_warnings(none, none, none);
    lemma_warnings(Some(a), none, none);
    lemma_warnings(none, Some(b), none);
    lemma_warnings(none, none, Some(c));
    lemma_warnings(Some(a), Some(b), none);
    lemma_warnings(Some(a), none, Some(c));
    lemma_warnings(none, Some(b), Some(c));
    lemma_warnings(Some(a), Some(b), Some(c));
}

/// One warning after another.
proof fn lemma_warnings(a: Option<Seq<char>>, b: Option<Seq<char>>, c: Option<Seq<char>>)
    ensures
        ({
            let first = if a is Some {
                a->0
            } else {
                seq![]
            };
            let second = if b is None {
                first
            } else if a is Some {
                first + "\n"@ + b->0
            } else {
                b->0
            };
            warning_lines(seq![a, b, c]) == (if c is None {
                second
            } else if a is Some || b is Some {
                second + "\n"@ + c->0
            } else {
                c->0
            })
        }),
{
    let three = seq![a, b, c];
    let two = three.drop_last();
    let one = two.drop_last();
    let none = one.drop_last();
    assert(none =~= seq![]);
    assert(warning_lines(none) == Seq::<char>::empty());
    assert(!super::any_warning(none));
    assert(one[0] == a && two[0] == a && two[1] == b);
    assert(super::any_warning(one) == (a is Some));
    assert(super::any_warning(two) == (a is Some || b is Some)) by {
        if a is Some {
            assert(two[0] is Some);
        }
        if b is Some {
            assert(two[1] is Some);
        }
    }
    assert(one.last() == a && two.last() == b && three.last() == c);
    let first = if a is Some {
        a->0
    } else {
        seq![]
    };
    assert(warning_lines(one) == first);
    assert(warning_lines(two) == (if b is None {
        first
    } else if a is Some {
        first + "\n"@ + b->0
    } else {
        b->0
    }));
    assert(three.drop_last() == two);
    assert(warning_lines(three) == (match c {
        Some(w) => if super::any_warning(two) {
            warning_lines(two) + "\n"@ + w
        } else {
            w
        },
        None => warning_lines(two),
    }));
}

/// Settings that were saved are in force, and the popup is closed; nothing else changes.
pub proof fn saved_settings_are_in_force(m: AppModel, settings: SettingsModel)
    ensures
        with_settings(m, settings) == (AppModel { settings, popup: None, ..m }),
{
}

} // verus!
