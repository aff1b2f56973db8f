//! What keys do in the address book, in the popups over it, and while a connection is
//! made.

use super::book::BookModel;
use super::laws::{ctrl, held, plain};
use super::line::LineModel;
use super::link::LinkModel;
use super::model::{form_typed, key_pressed, settings_typed, AppModel, Outcome};
use super::{AppState, ChordMode};
use crate::config::settings::SettingsModel;
use crate::entry::{EntryModel, InputMode, Protocol};
use crate::events::{CommandModel, ConnectModel, EffectModel};
use crate::keys::{Key, KeyCode, Modifiers};
use crate::network::ssh::login_name;
use crate::popup::{
    EditSettingsModel, FormMode, FormModel, HostKeyTrustModel, PopupField, PopupModel,
    SettingsField,
};
use crate::terminal::emulator::EmulatorModel;
use crate::terminal::vt::VtOp;
use crate::text::{decimal, parsed, trimmed};
use vstd::prelude::*;

verus! {

/// Whether the address book has the keyboard.
pub open spec fn at_the_book(m: AppModel) -> bool {
    m.state == AppState::AddressBook && m.popup is None
}

/// Nothing happens.
pub open spec fn nothing(m: AppModel) -> Outcome {
    Outcome { app: m, effects: seq![] }
}

/// What goes out when the connection that there is makes way: the peer is told where there
/// is one, and its tasks are stopped.
pub open spec fn goodbye(m: AppModel) -> Seq<EffectModel> {
    if m.link.open {
        seq![EffectModel::Send(CommandModel::Disconnect), EffectModel::StopTasks]
    } else if m.link.tasks_running {
        seq![EffectModel::StopTasks]
    } else {
        seq![]
    }
}

// ---------------------------------------------------------------------------
// Connecting
// ---------------------------------------------------------------------------

/// Enter connects to the selected entry: its host, port, protocol and user name, with its
/// terminal type or else the settings', on a terminal of the window's size without the
/// bars. A session that is still there is told goodbye first.
#[verifier::rlimit(40)]
pub proof fn enter_connects_to_the_selected_entry(m: AppModel, modifiers: Modifiers, server_echo: bool)
    requires
        !modifiers.control,
        at_the_book(m),
        0 <= m.book.selected < m.book.entries.len(),
        !(m.link.open && m.book.connected == Some(m.book.selected)),
        m.link.id < u64::MAX,
    ensures
        ({
            let entry = m.book.entries[m.book.selected];
            let mode = if entry.default_input_mode is Some {
                entry.default_input_mode->0
            } else if entry.protocol == Protocol::Ssh {
                InputMode::Character
            } else {
                m.settings.default_input_mode
            };
            let bars = if mode == InputMode::Character {
                1int
            } else {
                4int
            };
            let cols = if m.width == 0 {
                1u16
            } else {
                m.width
            };
            let rows = if m.height <= bars {
                1u16
            } else {
                (m.height - bars) as u16
            };
            let pressed = key_pressed(m, held(KeyCode::Enter, modifiers), server_echo);
            &&& pressed.effects == goodbye(m).push(
                EffectModel::Connect(
                    ConnectModel {
                        id: (m.link.id + 1) as u64,
                        protocol: entry.protocol,
                        host: entry.host,
                        port: entry.port,
                        username: entry.username,
                        cols,
                        rows,
                        terminal_type: if entry.terminal_type is Some {
                            entry.terminal_type->0
                        } else {
                            m.settings.terminal_type
                        },
                    },
                ),
            )
            &&& pressed.app == (AppModel {
                state: AppState::Connecting,
                link: LinkModel {
                    id: (m.link.id + 1) as u64,
                    open: false,
                    tasks_running: true,
                    ..m.link
                },
                line: LineModel { input: seq![], ..m.line },
                input_mode: mode,
                input_mode_user_set: false,
                emulator: EmulatorModel {
                    screen: seq![
                        VtOp::Open { rows, cols, scrollback: m.settings.scrollback_lines },
                    ],
                    scroll_offset: 0,
                },
                status: if entry.protocol == Protocol::Ssh {
                    "Connecting to "@ + entry.name + " as "@ + login_name(entry.username, m.login)
                        + "..."@
                } else {
                    "Connecting to "@ + entry.name + "..."@
                },
                ..m
            })
        }),
{
}

/// Enter on the entry of the live session brings the session back on screen, and nothing
/// else; without entries it does nothing.
#[verifier::rlimit(40)]
pub proof fn enter_resumes_the_live_session(m: AppModel, modifiers: Modifiers, server_echo: bool)
    requires
        !modifiers.control,
        at_the_book(m),
    ensures
        m.link.open && m.book.connected == Some(m.book.selected) && 0 <= m.book.selected
            < m.book.entries.len() ==> key_pressed(
            m,
            held(KeyCode::Enter, modifiers),
            server_echo,
        ) == nothing(
            AppModel {
                state: AppState::Connected,
                status: "Connected to "@ + m.book.entries[m.book.selected].name,
                ..m
            },
        ),
        m.book.entries.len() == 0 && m.book.selected == 0 && m.book.connected is None
            ==> key_pressed(m, held(KeyCode::Enter, modifiers), server_echo) == nothing(m),
{
}

/// Esc gives up a connection that is being made: its tasks are stopped and whatever they
/// still send is stale. No other key does anything, but for Ctrl+C, which quits.
#[verifier::rlimit(40)]
pub proof fn esc_gives_a_connection_up(m: AppModel, key: Key, modifiers: Modifiers, server_echo: bool)
    requires
        !modifiers.control,
        m.state == AppState::Connecting,
        m.popup is None,
    ensures
        key_pressed(m, held(KeyCode::Esc, modifiers), server_echo) == (Outcome {
            app: AppModel {
                state: AppState::AddressBook,
                link: LinkModel {
                    id: if m.link.id == u64::MAX {
                        0
                    } else {
                        (m.link.id + 1) as u64
                    },
                    open: false,
                    tasks_running: false,
                    ..m.link
                },
                status: "Connection cancelled"@,
                ..m
            },
            effects: goodbye(m),
        }),
        key.code != KeyCode::Esc && !(key.modifiers.control && key.code == KeyCode::Char('c'))
            ==> key_pressed(m, key, server_echo) == nothing(m),
{
}

// ---------------------------------------------------------------------------
// The address book
// ---------------------------------------------------------------------------

/// Down and `j` select the next entry, after the last the first; Up and `k` the one before,
/// before the first the last.
#[verifier::rlimit(40)]
pub proof fn arrows_move_the_selection(m: AppModel, modifiers: Modifiers, server_echo: bool)
    requires
        !modifiers.control,
        at_the_book(m),
        0 <= m.book.selected,
        m.book.entries.len() > 0 ==> m.book.selected < m.book.entries.len(),
    ensures
        ({
            let n = m.book.entries.len();
            let at = m.book.selected;
            let on = |selected: int| Outcome {
                app: AppModel { book: BookModel { selected, ..m.book }, ..m },
                effects: seq![],
            };
            let next = if n == 0 {
                at
            } else if at == n - 1 {
                0
            } else {
                at + 1
            };
            let previous = if n == 0 {
                at
            } else if at == 0 {
                n - 1
            } else {
                at - 1
            };
            &&& key_pressed(m, held(KeyCode::Down, modifiers), server_echo) == on(next)
            &&& key_pressed(m, held(KeyCode::Char('j'), modifiers), server_echo) == on(next)
            &&& key_pressed(m, held(KeyCode::Up, modifiers), server_echo) == on(previous)
            &&& key_pressed(m, held(KeyCode::Char('k'), modifiers), server_echo) == on(previous)
        }),
{
    let n = m.book.entries.len();
    if n > 0 {
        if m.book.selected == n - 1 {
            vstd::arithmetic::div_mod::lemma_mod_self_0(n as int);
        } else {
            vstd::arithmetic::div_mod::lemma_small_mod((m.book.selected + 1) as nat, n);
        }
    }
}

/// `a` opens an empty form for a telnet host on port 23.
#[verifier::rlimit(40)]
pub proof fn a_opens_an_empty_form(m: AppModel, modifiers: Modifiers, server_echo: bool)
    requires
        !modifiers.control,
        at_the_book(m),
    ensures
        ({
            let pressed = key_pressed(m, held(KeyCode::Char('a'), modifiers), server_echo);
            &&& pressed == key_pressed(m, held(KeyCode::Char('A'), modifiers), server_echo)
            &&& pressed.effects.len() == 0
            &&& pressed.app == AppModel { popup: pressed.app.popup, ..m }
            &&& pressed.app.popup is Some
            &&& pressed.app.popup->0 is Form
            &&& {
                let form = pressed.app.popup->0->Form_0;
                &&& form.mode == FormMode::Add
                &&& form.focused == PopupField::Name
                &&& form.name.len() == 0
                &&& form.host.len() == 0
                &&& form.port == "23"@
                &&& form.protocol == Protocol::Telnet
                &&& form.username.len() == 0
                &&& form.terminal_type == 0
                &&& form.terminal_types[0] == "(default)"@
                &&& form.input_mode == 0
            }
        }),
{
}

/// `e` opens a form with what the selected entry says.
#[verifier::rlimit(40)]
pub proof fn e_opens_a_form_of_the_selected_entry(m: AppModel, modifiers: Modifiers, server_echo: bool)
    requires
        !modifiers.control,
        at_the_book(m),
        0 <= m.book.selected < m.book.entries.len(),
    ensures
        ({
            let pressed = key_pressed(m, held(KeyCode::Char('e'), modifiers), server_echo);
            let entry = m.book.entries[m.book.selected];
            &&& pressed == key_pressed(m, held(KeyCode::Char('E'), modifiers), server_echo)
            &&& pressed.effects.len() == 0
            &&& pressed.app == AppModel { popup: pressed.app.popup, ..m }
            &&& pressed.app.popup is Some
            &&& pressed.app.popup->0 is Form
            &&& {
                let form = pressed.app.popup->0->Form_0;
                &&& form.mode == FormMode::Edit
                &&& form.focused == PopupField::Name
                &&& form.name == entry.name
                &&& form.host == entry.host
                &&& form.port == decimal(entry.port as nat)
                &&& form.protocol == entry.protocol
                &&& entry.username is Some ==> form.username == entry.username->0
                &&& entry.username is None ==> form.username.len() == 0
                &&& entry.default_input_mode is None ==> form.input_mode == 0
                &&& entry.default_input_mode == Some(InputMode::LineBuffered) ==> form.input_mode
                    == 1
                &&& entry.default_input_mode == Some(InputMode::Character) ==> form.input_mode == 2
            }
        }),
{
}

/// `d` asks whether to delete the selected entry, and `s` opens the settings as they are in
/// force. Without entries there is nothing to edit or to delete. Other letters do nothing.
#[verifier::rlimit(40)]
pub proof fn letters_open_popups(m: AppModel, c: char, modifiers: Modifiers, server_echo: bool)
    requires
        !modifiers.control,
        at_the_book(m),
        0 <= m.book.selected,
    ensures
        ({
            let with = |c: char| key_pressed(m, held(KeyCode::Char(c), modifiers), server_echo);
            let ask = Outcome {
                app: AppModel { popup: Some(PopupModel::DeleteConfirm), ..m },
                effects: seq![],
            };
            let settings = with('s');
            &&& m.book.entries.len() > 0 ==> with('d') == ask && with('D') == ask
            &&& m.book.entries.len() == 0 ==> with('d') == nothing(m) && with('D') == nothing(m)
                && with('e') == nothing(m) && with('E') == nothing(m)
            &&& with('S') == settings
            &&& settings.effects.len() == 0
            &&& settings.app == AppModel { popup: settings.app.popup, ..m }
            &&& settings.app.popup is Some
            &&& settings.app.popup->0 is EditSettings
            &&& {
                let p = settings.app.popup->0->EditSettings_0;
                &&& p.focused == SettingsField::Scrollback
                &&& p.scrollback == decimal(m.settings.scrollback_lines as nat)
                &&& p.mode == m.settings.default_input_mode
                &&& p.error is None
            }
            &&& c != 'a' && c != 'A' && c != 'e' && c != 'E' && c != 'd' && c != 'D' && c != 's' && c
                != 'S' && c != 'q' && c != 'Q' && c != 'j' && c != 'k' ==> with(c) == nothing(m)
        }),
{
}

/// `q` and Esc quit, and so does Ctrl+C; the connection that there is is told goodbye.
/// Ctrl+D ends the live session and stays in the address book.
#[verifier::rlimit(40)]
pub proof fn leaving_says_goodbye(m: AppModel, server_echo: bool)
    requires
        at_the_book(m),
    ensures
        ({
            let cut = LinkModel { open: false, tasks_running: false, ..m.link };
            let left = Outcome {
                app: AppModel {
                    quit: true,
                    link: cut,
                    book: BookModel { connected: None, ..m.book },
                    ..m
                },
                effects: goodbye(m),
            };
            &&& key_pressed(m, plain(KeyCode::Char('q')), server_echo) == left
            &&& key_pressed(m, plain(KeyCode::Char('Q')), server_echo) == left
            &&& key_pressed(m, plain(KeyCode::Esc), server_echo) == left
            &&& key_pressed(m, ctrl('c'), server_echo) == (Outcome {
                app: AppModel { quit: true, link: cut, ..m },
                effects: goodbye(m),
            })
            &&& m.book.connected is Some ==> key_pressed(m, ctrl('d'), server_echo) == (Outcome {
                app: AppModel {
                    link: cut,
                    book: BookModel { connected: None, ..m.book },
                    status: "Disconnected"@,
                    ..m
                },
                effects: goodbye(m),
            })
            &&& m.book.connected is None ==> key_pressed(m, ctrl('d'), server_echo) == nothing(m)
        }),
{
}

/// Keys that are bound to nothing do nothing in the address book.
#[verifier::rlimit(40)]
pub proof fn other_keys_do_nothing_in_the_book(m: AppModel, code: KeyCode, modifiers: Modifiers, server_echo: bool)
    requires
        !modifiers.control,
        at_the_book(m),
        !(code is Char),
        code != KeyCode::Enter,
        code != KeyCode::Esc,
        code != KeyCode::Up,
        code != KeyCode::Down,
    ensures
        key_pressed(m, held(code, modifiers), server_echo) == nothing(m),
{
}

// ---------------------------------------------------------------------------
// The form
// ---------------------------------------------------------------------------

/// The state with this form open.
pub open spec fn with_form(m: AppModel, form: FormModel) -> AppModel {
    AppModel { popup: Some(PopupModel::Form(form)), ..m }
}

/// A key in a form that only changes the form, whatever is held down with it but Ctrl.
#[verifier::opaque]
pub open spec fn form_becomes(
    m: AppModel,
    form: FormModel,
    code: KeyCode,
    after: FormModel,
    server_echo: bool,
) -> bool {
    forall|modifiers: Modifiers|
        !modifiers.control ==> #[trigger] key_pressed(
            with_form(m, form),
            held(code, modifiers),
            server_echo,
        ) == (Outcome { app: with_form(m, after), effects: seq![] })
}

proof fn lemma_form_becomes(
    m: AppModel,
    form: FormModel,
    code: KeyCode,
    after: FormModel,
    server_echo: bool,
)
    requires
        code != KeyCode::Enter,
        code != KeyCode::Esc,
        form_typed(form, code) == after,
    ensures
        form_becomes(m, form, code, after, server_echo),
{
    reveal(form_becomes);
}

/// One field and the next.
proof fn lemma_fields(
    m: AppModel,
    form: FormModel,
    from: PopupField,
    to: PopupField,
    server_echo: bool,
)
    requires
        form_typed(FormModel { focused: from, ..form }, KeyCode::Tab) == (FormModel {
            focused: to,
            ..form
        }),
        form_typed(FormModel { focused: to, ..form }, KeyCode::Up) == (FormModel {
            focused: from,
            ..form
        }),
    ensures
        ({
            let here = FormModel { focused: from, ..form };
            let there = FormModel { focused: to, ..form };
            &&& form_becomes(m, here, KeyCode::Tab, there, server_echo)
            &&& form_becomes(m, here, KeyCode::Down, there, server_echo)
            &&& form_becomes(m, there, KeyCode::BackTab, here, server_echo)
            &&& form_becomes(m, there, KeyCode::Up, here, server_echo)
        }),
{
    let here = FormModel { focused: from, ..form };
    let there = FormModel { focused: to, ..form };
    lemma_form_becomes(m, here, KeyCode::Tab, there, server_echo);
    lemma_form_becomes(m, here, KeyCode::Down, there, server_echo);
    lemma_form_becomes(m, there, KeyCode::BackTab, here, server_echo);
    lemma_form_becomes(m, there, KeyCode::Up, here, server_echo);
}

/// Tab and Down go through the fields in order: name, host, port, protocol, user name,
/// terminal type, input mode, and then the name again. BackTab and Up go the other way.
pub proof fn fields_come_in_order(m: AppModel, form: FormModel, server_echo: bool)
    ensures
        ({
            let goes = |from: PopupField, to: PopupField|
                {
                    let here = FormModel { focused: from, ..form };
                    let there = FormModel { focused: to, ..form };
                    &&& form_becomes(m, here, KeyCode::Tab, there, server_echo)
                    &&& form_becomes(m, here, KeyCode::Down, there, server_echo)
                    &&& form_becomes(m, there, KeyCode::BackTab, here, server_echo)
                    &&& form_becomes(m, there, KeyCode::Up, here, server_echo)
                };
            &&& goes(PopupField::Name, PopupField::Host)
            &&& goes(PopupField::Host, PopupField::Port)
            &&& goes(PopupField::Port, PopupField::Protocol)
            &&& goes(PopupField::Protocol, PopupField::Username)
            &&& goes(PopupField::Username, PopupField::TerminalType)
            &&& goes(PopupField::TerminalType, PopupField::InputMode)
            &&& goes(PopupField::InputMode, PopupField::Name)
        }),
{
    lemma_fields(m, form, PopupField::Name, PopupField::Host, server_echo);
    lemma_fields(m, form, PopupField::Host, PopupField::Port, server_echo);
    lemma_fields(m, form, PopupField::Port, PopupField::Protocol, server_echo);
    lemma_fields(m, form, PopupField::Protocol, PopupField::Username, server_echo);
    lemma_fields(m, form, PopupField::Username, PopupField::TerminalType, server_echo);
    lemma_fields(m, form, PopupField::TerminalType, PopupField::InputMode, server_echo);
    lemma_fields(m, form, PopupField::InputMode, PopupField::Name, server_echo);
}

/// A character goes to the end of the text field with the focus, and Backspace takes the
/// last one off; no other field changes.
pub proof fn fields_are_edited_at_their_end(
    m: AppModel,
    form: FormModel,
    c: char,
    server_echo: bool,
)
    ensures
        ({
            let types = |after: FormModel|
                form_becomes(m, form, KeyCode::Char(c), after, server_echo);
            let erases = |after: FormModel|
                form_becomes(m, form, KeyCode::Backspace, after, server_echo);
            let less = |s: Seq<char>|
                if s.len() == 0 {
                    s
                } else {
                    s.take(s.len() - 1)
                };
            &&& form.focused == PopupField::Name ==> types(
                FormModel { name: form.name.push(c), ..form },
            ) && erases(FormModel { name: less(form.name), ..form })
            &&& form.focused == PopupField::Host ==> types(
                FormModel { host: form.host.push(c), ..form },
            ) && erases(FormModel { host: less(form.host), ..form })
            &&& form.focused == PopupField::Port ==> types(
                FormModel { port: form.port.push(c), ..form },
            ) && erases(FormModel { port: less(form.port), ..form })
            &&& form.focused == PopupField::Username ==> types(
                FormModel { username: form.username.push(c), ..form },
            ) && erases(FormModel { username: less(form.username), ..form })
            &&& form.focused == PopupField::Protocol || form.focused == PopupField::TerminalType
                || form.focused == PopupField::InputMode ==> erases(form) && (c != ' ' ==> types(
                form,
            ))
        }),
{
    lemma_form_becomes(
        m,
        form,
        KeyCode::Backspace,
        form_typed(form, KeyCode::Backspace),
        server_echo,
    );
    lemma_form_becomes(m, form, KeyCode::Char(c), form_typed(form, KeyCode::Char(c)), server_echo);
    assert(form.name.len() > 0 ==> form.name.drop_last() =~= form.name.take(form.name.len() - 1));
    assert(form.host.len() > 0 ==> form.host.drop_last() =~= form.host.take(form.host.len() - 1));
    assert(form.port.len() > 0 ==> form.port.drop_last() =~= form.port.take(form.port.len() - 1));
    assert(form.username.len() > 0 ==> form.username.drop_last() =~= form.username.take(
        form.username.len() - 1,
    ));
}

/// The space bar changes the choice with the focus: the protocol, with its usual port; the
/// terminal type and the input mode to the next on the list, after the last to the first.
#[verifier::rlimit(40)]
pub proof fn the_space_bar_changes_choices(m: AppModel, form: FormModel, server_echo: bool)
    requires
        0 <= form.terminal_type < form.terminal_types.len(),
        0 <= form.input_mode < 3,
    ensures
        ({
            let space = |after: FormModel|
                form_becomes(m, form, KeyCode::Char(' '), after, server_echo);
            let swap = |protocol: Protocol, port: Seq<char>| FormModel { protocol, port, ..form };
            let n = form.terminal_types.len();
            &&& form.focused == PopupField::TerminalType ==> space(
                FormModel {
                    terminal_type: if form.terminal_type == n - 1 {
                        0
                    } else {
                        form.terminal_type + 1
                    },
                    ..form
                },
            )
            &&& form.focused == PopupField::InputMode ==> space(
                FormModel {
                    input_mode: if form.input_mode == 2 {
                        0
                    } else {
                        form.input_mode + 1
                    },
                    ..form
                },
            )
            &&& form.focused == PopupField::Protocol && form.protocol == Protocol::Telnet ==> {
                &&& form.port == "23"@ ==> space(swap(Protocol::Ssh, "22"@))
                &&& form.port == "2323"@ ==> space(swap(Protocol::Ssh, "2222"@))
                &&& form.port != "23"@ && form.port != "2323"@ ==> space(
                    swap(Protocol::Ssh, form.port),
                )
            }
            &&& form.focused == PopupField::Protocol && form.protocol == Protocol::Ssh ==> {
                &&& form.port == "22"@ ==> space(swap(Protocol::Telnet, "23"@))
                &&& form.port == "2222"@ ==> space(swap(Protocol::Telnet, "2323"@))
                &&& form.port != "22"@ && form.port != "2222"@ ==> space(
                    swap(Protocol::Telnet, form.port),
                )
            }
        }),
{
    crate::popup::cycling_comes_round(form.terminal_type, form.terminal_types.len());
    crate::popup::cycling_comes_round(form.input_mode, 3);
    lemma_form_becomes(
        m,
        form,
        KeyCode::Char(' '),
        form_typed(form, KeyCode::Char(' ')),
        server_echo,
    );
    crate::popup::lemma_usual_ports_differ();
}

/// The entry that a form says, field by field.
pub open spec fn says_entry(form: FormModel, entry: EntryModel) -> bool {
    &&& entry.name == form.name
    &&& entry.host == form.host
    &&& parsed(form.port, 65535) == Some(entry.port as nat)
    &&& entry.protocol == form.protocol
    &&& form.username.len() == 0 ==> entry.username is None
    &&& form.username.len() > 0 ==> entry.username == Some(form.username)
    &&& form.terminal_types[form.terminal_type] == "(default)"@ ==> entry.terminal_type is None
    &&& form.terminal_types[form.terminal_type] != "(default)"@ ==> entry.terminal_type == Some(
        form.terminal_types[form.terminal_type],
    )
    &&& form.input_mode == 0 ==> entry.default_input_mode is None
    &&& form.input_mode == 1 ==> entry.default_input_mode == Some(InputMode::LineBuffered)
    &&& form.input_mode == 2 ==> entry.default_input_mode == Some(InputMode::Character)
}

/// Enter saves a form with a name, a host and a port number: a new entry comes last and is
/// selected, an edited one takes its own place, and all others stay. Without these three
/// the form stays open and nothing is saved.
#[verifier::rlimit(40)]
pub proof fn enter_saves_the_form(m: AppModel, form: FormModel, modifiers: Modifiers, server_echo: bool)
    requires
        !modifiers.control,
        0 <= form.terminal_type < form.terminal_types.len(),
        0 <= form.input_mode < 3,
        form.mode == FormMode::Edit ==> 0 <= m.book.selected < m.book.entries.len(),
    ensures
        ({
            let pressed = key_pressed(with_form(m, form), held(KeyCode::Enter, modifiers), server_echo);
            let complete = form.name.len() > 0 && form.host.len() > 0 && parsed(form.port, 65535)
                is Some;
            let book = pressed.app.book;
            &&& !complete ==> pressed == (Outcome {
                app: AppModel {
                    status: "Invalid entry (name, host required; port must be a number)"@,
                    ..with_form(m, form)
                },
                effects: seq![],
            })
            &&& complete ==> pressed.effects == seq![EffectModel::SaveEntries]
            &&& complete ==> pressed.app == (AppModel {
                popup: None,
                book,
                status: pressed.app.status,
                ..m
            })
            &&& complete && form.mode == FormMode::Add ==> {
                &&& book.entries.len() == m.book.entries.len() + 1
                &&& book.selected == m.book.entries.len()
                &&& book.connected == m.book.connected
                &&& forall|i: int|
                    0 <= i < m.book.entries.len() ==> #[trigger] book.entries[i]
                        == m.book.entries[i]
                &&& says_entry(form, book.entries[m.book.entries.len() as int])
                &&& pressed.app.status == "Added '"@ + form.name + "'"@
            }
            &&& complete && form.mode == FormMode::Edit ==> {
                &&& book.entries.len() == m.book.entries.len()
                &&& book.selected == m.book.selected
                &&& book.connected == m.book.connected
                &&& forall|i: int|
                    0 <= i < m.book.entries.len() && i != m.book.selected
                        ==> #[trigger] book.entries[i] == m.book.entries[i]
                &&& says_entry(form, book.entries[m.book.selected])
                &&& pressed.app.status == "Updated '"@ + form.name + "'"@
            }
        }),
{
}

/// Keys that are bound to nothing leave a form and the settings as they are.
pub proof fn other_keys_leave_popups_alone(
    m: AppModel,
    form: FormModel,
    p: EditSettingsModel,
    code: KeyCode,
    modifiers: Modifiers,
    server_echo: bool,
)
    requires
        !modifiers.control,
        code == KeyCode::Left || code == KeyCode::Right || code == KeyCode::Home || code
            == KeyCode::End || code == KeyCode::Delete || code == KeyCode::Insert || code
            == KeyCode::PageUp || code == KeyCode::PageDown || code is F || code == KeyCode::Other,
    ensures
        form_becomes(m, form, code, form, server_echo),
        settings_become(m, p, held(code, modifiers), p, server_echo),
        settings_become(m, p, held(KeyCode::Up, modifiers), p, server_echo),
        settings_become(m, p, held(KeyCode::Down, modifiers), p, server_echo),
{
    lemma_form_becomes(m, form, code, form, server_echo);
    lemma_settings_become(m, p, held(code, modifiers), p, server_echo);
    lemma_settings_become(m, p, held(KeyCode::Up, modifiers), p, server_echo);
    lemma_settings_become(m, p, held(KeyCode::Down, modifiers), p, server_echo);
}

/// Esc closes a popup that can be edited and leaves everything else as it was.
pub proof fn esc_leaves_things_as_they_were(
    m: AppModel,
    form: FormModel,
    p: EditSettingsModel,
    modifiers: Modifiers,
    server_echo: bool,
)
    requires
        !modifiers.control,
    ensures
        key_pressed(with_form(m, form), held(KeyCode::Esc, modifiers), server_echo) == nothing(
            AppModel { popup: None, ..m },
        ),
        key_pressed(
            AppModel { popup: Some(PopupModel::EditSettings(p)), ..m },
            held(KeyCode::Esc, modifiers),
            server_echo,
        ) == nothing(AppModel { popup: None, ..m }),
{
}

// ---------------------------------------------------------------------------
// Deleting
// ---------------------------------------------------------------------------

/// Only `y` deletes the selected entry: all others stay, in order, and the book is saved.
/// Its session, if it has one, is cut; another entry's session stays with that entry. Any
/// other key closes the question.
#[verifier::rlimit(40)]
pub proof fn y_deletes_the_selected_entry(m: AppModel, code: KeyCode, modifiers: Modifiers, server_echo: bool)
    requires
        !modifiers.control,
        0 <= m.book.selected < m.book.entries.len(),
    ensures
        ({
            let asked = AppModel { popup: Some(PopupModel::DeleteConfirm), ..m };
            let pressed = key_pressed(asked, held(KeyCode::Char('y'), modifiers), server_echo);
            let at = m.book.selected;
            let n = m.book.entries.len();
            let book = pressed.app.book;
            let ends = m.book.connected == Some(at);
            &&& pressed == key_pressed(asked, held(KeyCode::Char('Y'), modifiers), server_echo)
            &&& code != KeyCode::Char('y') && code != KeyCode::Char('Y') ==> key_pressed(
                asked,
                held(code, modifiers),
                server_echo,
            ) == nothing(AppModel { popup: None, ..m })
            &&& book.entries.len() == n - 1
            &&& forall|i: int| 0 <= i < at ==> #[trigger] book.entries[i] == m.book.entries[i]
            &&& forall|i: int|
                at <= i < n - 1 ==> #[trigger] book.entries[i] == m.book.entries[i + 1]
            &&& book.selected == (if at == n - 1 && at > 0 {
                at - 1
            } else {
                at
            })
            &&& book.connected == (match m.book.connected {
                None => None,
                Some(conn) => if conn == at {
                    None
                } else if conn > at {
                    Some(conn - 1)
                } else {
                    Some(conn)
                },
            })
            &&& pressed.app == (AppModel {
                popup: None,
                book,
                status: "Deleted '"@ + m.book.entries[at].name + "'"@,
                link: if ends {
                    LinkModel {
                        id: if m.link.id == u64::MAX {
                            0
                        } else {
                            (m.link.id + 1) as u64
                        },
                        open: false,
                        tasks_running: false,
                        telnet: None,
                        ..m.link
                    }
                } else {
                    m.link
                },
                ..m
            })
            &&& pressed.effects == (if ends && (m.link.open || m.link.tasks_running) {
                seq![EffectModel::StopTasks, EffectModel::SaveEntries]
            } else {
                seq![EffectModel::SaveEntries]
            })
        }),
{
    let asked = AppModel { popup: Some(PopupModel::DeleteConfirm), ..m };
    let pressed = key_pressed(asked, held(KeyCode::Char('y'), modifiers), server_echo);
    if m.book.connected == Some(m.book.selected) && (m.link.open || m.link.tasks_running) {
        assert(pressed.effects =~= seq![EffectModel::StopTasks, EffectModel::SaveEntries]);
    } else {
        assert(pressed.effects =~= seq![EffectModel::SaveEntries]);
    }
}

// ---------------------------------------------------------------------------
// Passwords and host keys
// ---------------------------------------------------------------------------

/// A password is typed at its end; Enter hands it over as typed, Esc withholds it, and
/// either closes the question. Nothing is handed over that nobody waits for.
#[verifier::rlimit(40)]
pub proof fn passwords_are_handed_over_as_typed(
    m: AppModel,
    pw: Seq<char>,
    c: char,
    modifiers: Modifiers,
    server_echo: bool,
)
    requires
        !modifiers.control,
    ensures
        ({
            let open = |pw: Seq<char>| AppModel { popup: Some(PopupModel::Password(pw)), ..m };
            let closed = AppModel {
                popup: None,
                link: LinkModel { password_pending: false, ..m.link },
                ..m
            };
            let press = |code: KeyCode| key_pressed(open(pw), held(code, modifiers), server_echo);
            &&& press(KeyCode::Char(c)) == nothing(open(pw.push(c)))
            &&& press(KeyCode::Backspace) == nothing(
                open(
                    if pw.len() == 0 {
                        pw
                    } else {
                        pw.take(pw.len() - 1)
                    },
                ),
            )
            &&& press(KeyCode::Enter) == (Outcome {
                app: closed,
                effects: if m.link.password_pending {
                    seq![EffectModel::AnswerPassword(pw)]
                } else {
                    seq![]
                },
            })
            &&& press(KeyCode::Esc) == (Outcome {
                app: closed,
                effects: if m.link.password_pending {
                    seq![EffectModel::DropPassword]
                } else {
                    seq![]
                },
            })
        }),
{
    if pw.len() > 0 {
        assert(pw.drop_last() =~= pw.take(pw.len() - 1));
    }
}

/// A host key is trusted with `y` and with no other key: `n` and Esc refuse it, and any
/// other key leaves the question open.
#[verifier::rlimit(40)]
pub proof fn only_y_trusts_a_host_key(
    m: AppModel,
    p: HostKeyTrustModel,
    code: KeyCode,
    modifiers: Modifiers,
    server_echo: bool,
)
    requires
        !modifiers.control,
    ensures
        ({
            let open = AppModel { popup: Some(PopupModel::HostKeyTrust(p)), ..m };
            let answered = |trusted: bool| Outcome {
                app: AppModel {
                    popup: None,
                    link: LinkModel { host_key_pending: false, ..m.link },
                    ..m
                },
                effects: if m.link.host_key_pending {
                    seq![EffectModel::AnswerHostKey(trusted)]
                } else {
                    seq![]
                },
            };
            let pressed = key_pressed(open, held(code, modifiers), server_echo);
            let yes = code == KeyCode::Char('y') || code == KeyCode::Char('Y');
            let no = code == KeyCode::Char('n') || code == KeyCode::Char('N') || code
                == KeyCode::Esc;
            &&& yes ==> pressed == answered(true)
            &&& no ==> pressed == answered(false)
            &&& !yes && !no ==> pressed == nothing(open)
        }),
{
}

// ---------------------------------------------------------------------------
// The settings
// ---------------------------------------------------------------------------

/// A key in the settings that only changes the popup.
#[verifier::opaque]
pub open spec fn settings_become(
    m: AppModel,
    p: EditSettingsModel,
    key: Key,
    after: EditSettingsModel,
    server_echo: bool,
) -> bool {
    key_pressed(AppModel { popup: Some(PopupModel::EditSettings(p)), ..m }, key, server_echo)
        == (Outcome {
        app: AppModel { popup: Some(PopupModel::EditSettings(after)), ..m },
        effects: seq![],
    })
}

proof fn lemma_settings_become(
    m: AppModel,
    p: EditSettingsModel,
    key: Key,
    after: EditSettingsModel,
    server_echo: bool,
)
    requires
        !key.modifiers.control,
        key.code != KeyCode::Enter,
        key.code != KeyCode::Esc,
        settings_typed(p, key) == after,
    ensures
        settings_become(m, p, key, after, server_echo),
{
    reveal(settings_become);
}

/// One field of the settings and the next.
proof fn lemma_settings_fields(
    m: AppModel,
    p: EditSettingsModel,
    from: SettingsField,
    to: SettingsField,
    server_echo: bool,
)
    requires
        settings_typed(EditSettingsModel { focused: from, ..p }, plain(KeyCode::Tab)) == (
        EditSettingsModel { focused: to, ..p }),
        settings_typed(EditSettingsModel { focused: to, ..p }, plain(KeyCode::BackTab)) == (
        EditSettingsModel { focused: from, ..p }),
    ensures
        ({
            let here = EditSettingsModel { focused: from, ..p };
            let there = EditSettingsModel { focused: to, ..p };
            let shift_tab = Key {
                code: KeyCode::Tab,
                modifiers: Modifiers { shift: true, control: false, other: false },
            };
            &&& settings_become(m, here, plain(KeyCode::Tab), there, server_echo)
            &&& settings_become(m, there, plain(KeyCode::BackTab), here, server_echo)
            &&& settings_become(m, there, shift_tab, here, server_echo)
        }),
{
    let here = EditSettingsModel { focused: from, ..p };
    let there = EditSettingsModel { focused: to, ..p };
    let shift_tab = Key {
        code: KeyCode::Tab,
        modifiers: Modifiers { shift: true, control: false, other: false },
    };
    lemma_settings_become(m, here, plain(KeyCode::Tab), there, server_echo);
    lemma_settings_become(m, there, plain(KeyCode::BackTab), here, server_echo);
    lemma_settings_become(m, there, shift_tab, here, server_echo);
}

/// In the settings Tab goes from the scrollback to the mode to the terminal type and round
/// again, Shift+Tab and BackTab the other way. Characters go to the end of the scrollback
/// and Backspace takes the last one off; the space bar changes the mode, and the terminal
/// type to the next on the list.
pub proof fn settings_are_edited_in_place(
    m: AppModel,
    p: EditSettingsModel,
    c: char,
    server_echo: bool,
)
    requires
        0 <= p.terminal_type < p.terminal_types.len(),
    ensures
        ({
            let shift_tab = Key {
                code: KeyCode::Tab,
                modifiers: Modifiers { shift: true, control: false, other: false },
            };
            let goes = |from: SettingsField, to: SettingsField|
                {
                    let here = EditSettingsModel { focused: from, ..p };
                    let there = EditSettingsModel { focused: to, ..p };
                    &&& settings_become(m, here, plain(KeyCode::Tab), there, server_echo)
                    &&& settings_become(m, there, plain(KeyCode::BackTab), here, server_echo)
                    &&& settings_become(m, there, shift_tab, here, server_echo)
                };
            let types = |c: char, after: EditSettingsModel|
                settings_become(m, p, plain(KeyCode::Char(c)), after, server_echo);
            let erases = |after: EditSettingsModel|
                settings_become(m, p, plain(KeyCode::Backspace), after, server_echo);
            let n = p.terminal_types.len();
            &&& goes(SettingsField::Scrollback, SettingsField::Mode)
            &&& goes(SettingsField::Mode, SettingsField::TerminalType)
            &&& goes(SettingsField::TerminalType, SettingsField::Scrollback)
            &&& p.focused == SettingsField::Scrollback ==> types(
                c,
                EditSettingsModel { scrollback: p.scrollback.push(c), ..p },
            ) && erases(
                EditSettingsModel {
                    scrollback: if p.scrollback.len() == 0 {
                        p.scrollback
                    } else {
                        p.scrollback.take(p.scrollback.len() - 1)
                    },
                    ..p
                },
            )
            &&& p.focused == SettingsField::Mode ==> erases(p) && (c != ' ' ==> types(c, p))
                && types(
                ' ',
                EditSettingsModel {
                    mode: if p.mode == InputMode::Character {
                        InputMode::LineBuffered
                    } else {
                        InputMode::Character
                    },
                    ..p
                },
            )
            &&& p.focused == SettingsField::TerminalType ==> erases(p) && (c != ' ' ==> types(c, p))
                && types(
                ' ',
                EditSettingsModel {
                    terminal_type: if p.terminal_type == n - 1 {
                        0
                    } else {
                        p.terminal_type + 1
                    },
                    ..p
                },
            )
        }),
{
    crate::popup::cycling_comes_round(p.terminal_type, p.terminal_types.len());
    lemma_settings_fields(m, p, SettingsField::Scrollback, SettingsField::Mode, server_echo);
    lemma_settings_fields(m, p, SettingsField::Mode, SettingsField::TerminalType, server_echo);
    lemma_settings_fields(
        m,
        p,
        SettingsField::TerminalType,
        SettingsField::Scrollback,
        server_echo,
    );
    let typed = plain(KeyCode::Char(c));
    let space = plain(KeyCode::Char(' '));
    let erase = plain(KeyCode::Backspace);
    lemma_settings_become(m, p, typed, settings_typed(p, typed), server_echo);
    lemma_settings_become(m, p, space, settings_typed(p, space), server_echo);
    lemma_settings_become(m, p, erase, settings_typed(p, erase), server_echo);
    if p.scrollback.len() > 0 {
        assert(p.scrollback.drop_last() =~= p.scrollback.take(p.scrollback.len() - 1));
    }
}

/// Enter saves settings whose scrollback is a number up to 100,000, white space around it
/// aside, as they stand in the popup; others are not saved, and the popup says why. It
/// stays open either way, until they are saved.
#[verifier::rlimit(40)]
pub proof fn enter_saves_the_settings(m: AppModel, p: EditSettingsModel, modifiers: Modifiers, server_echo: bool)
    requires
        !modifiers.control,
        0 <= p.terminal_type < p.terminal_types.len(),
    ensures
        ({
            let open = |p: EditSettingsModel| AppModel {
                popup: Some(PopupModel::EditSettings(p)),
                ..m
            };
            let pressed = key_pressed(open(p), held(KeyCode::Enter, modifiers), server_echo);
            match parsed(trimmed(p.scrollback), 100000) {
                Some(lines) => pressed == (Outcome {
                    app: open(EditSettingsModel { error: None, ..p }),
                    effects: seq![
                        EffectModel::SaveSettings(
                            SettingsModel {
                                scrollback_lines: lines as usize,
                                default_input_mode: p.mode,
                                terminal_type: p.terminal_types[p.terminal_type],
                            },
                        ),
                    ],
                }),
                None => pressed == nothing(
                    open(
                        EditSettingsModel {
                            error: Some(
                                "Scrollback must be a number between 0 and 100,000."@,
                            ),
                            ..p
                        },
                    ),
                ),
            }
        }),
{
}

// ---------------------------------------------------------------------------
// Local commands
// ---------------------------------------------------------------------------

/// After Ctrl+], `?` shows the help, which any key closes, and `q` quits. `l` ends the
/// capture that there is, or asks for one of the connected entry. Any other key is dropped.
#[verifier::rlimit(40)]
pub proof fn local_commands_do_their_work(m: AppModel, code: KeyCode, modifiers: Modifiers, server_echo: bool)
    requires
        !modifiers.control,
        m.state == AppState::Connected,
        m.popup is None,
        m.chord == ChordMode::Awaiting,
    ensures
        ({
            let done = AppModel { chord: ChordMode::Normal, ..m };
            let press = |code: KeyCode| key_pressed(m, held(code, modifiers), server_echo);
            let help = AppModel { popup: Some(PopupModel::ChordHelp), ..done };
            &&& press(KeyCode::Char('?')) == nothing(help)
            &&& key_pressed(help, held(code, modifiers), server_echo) == nothing(done)
            &&& press(KeyCode::Char('q')) == (Outcome {
                app: AppModel {
                    quit: true,
                    link: LinkModel { open: false, tasks_running: false, ..m.link },
                    book: BookModel { connected: None, ..m.book },
                    ..done
                },
                effects: goodbye(m),
            })
            &&& press(KeyCode::Char('Q')) == press(KeyCode::Char('q'))
            &&& press(KeyCode::Char('L')) == press(KeyCode::Char('l'))
            &&& match (m.capture, m.book.connected) {
                (Some(file), _) => press(KeyCode::Char('l')) == (Outcome {
                    app: AppModel {
                        capture: None,
                        status: "Capture stopped: "@ + ("saved "@ + decimal(
                            file.bytes_written as nat,
                        ) + " bytes → "@ + file.path),
                        ..done
                    },
                    effects: seq![EffectModel::CloseCapture],
                }),
                (None, None) => press(KeyCode::Char('l')) == nothing(
                    AppModel { status: "Capture: no active connection"@, ..done },
                ),
                (None, Some(i)) => 0 <= i < m.book.entries.len() ==> press(KeyCode::Char('l')) == (
                Outcome {
                    app: done,
                    effects: seq![
                        EffectModel::OpenCapture {
                            entry_name: m.book.entries[i].name,
                            host: m.book.entries[i].host,
                            port: m.book.entries[i].port,
                        },
                    ],
                }),
            }
            &&& code != KeyCode::Char('?') && code != KeyCode::Char('q') && code != KeyCode::Char(
                'Q',
            ) && code != KeyCode::Char('l') && code != KeyCode::Char('L') ==> press(code)
                == nothing(done)
        }),
{
}

} // verus!
