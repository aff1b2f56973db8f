//! What the calls of the application do, in terms of what it holds.

use super::link::{echo_read, Link};
use super::model::{app_event, connect, terminal_event, AppModel};
use super::typing::{key_bytes, KeyBytes};
use super::typing_laws::{at_the_host, characters_are_sent_as_typed};
use super::{started, warning_lines, App, AppState};
use crate::config::capture::{CaptureFile, CaptureModel};
use crate::config::address_book::LoadResult;
use crate::config::settings::{LoadedSettings, Settings};
use crate::entry::{entry_models, AddressBookEntry, InputMode};
use crate::events::{effect_models, event_id, AppEvent, Effect};
use crate::keys::{Key, KeyCode, Modifiers, TerminalEvent};
use crate::popup::{EditSettingsModel, PopupModel};
use crate::network::ssh::LoginNames;
use crate::network::telnet::reads_bool;
use crate::terminal::vt::vt_ready;
use crate::text::{decimal, opt_text};
use vstd::prelude::*;
use vstd::utf8::encode_utf8;

verus! {

/// A call with an event of the user's terminal does what the event does, given what the
/// shared flags said of echoing.
pub proof fn terminal_events_are_handled(
    app: &mut App,
    event: TerminalEvent,
    effects: Vec<Effect>,
)
    requires
        call_ensures(App::handle_crossterm_event, (app, event), effects),
    ensures
        final(app).wf(),
        exists|echo: bool|
            echo_read(old(app)@.link, echo) && {
                let done = #[trigger] terminal_event(old(app)@, event@, echo);
                final(app)@ == done.app && effect_models(effects@) == done.effects
            },
{
}

/// A call with an event of a connection does what the event does, given what the shared
/// flags said of echoing.
pub proof fn connection_events_are_handled(app: &mut App, event: AppEvent, effects: Vec<Effect>)
    requires
        call_ensures(App::handle_app_event, (app, event), effects),
    ensures
        final(app).wf(),
        exists|echo: bool|
            echo_read(old(app)@.link, echo) && {
                let done = #[trigger] app_event(old(app)@, event_id(event), event@, echo);
                final(app)@ == done.app && effect_models(effects@) == done.effects
            },
{
}

/// An event of another connection than the current one changes nothing.
pub proof fn stale_calls_change_nothing(app: &mut App, event: AppEvent, effects: Vec<Effect>)
    requires
        call_ensures(App::handle_app_event, (app, event), effects),
        event_id(event) != old(app).link.id,
    ensures
        final(app)@ == old(app)@,
        effects@.len() == 0,
{
    assert(effect_models(effects@).len() == effects@.len());
}

/// A character that is typed in character mode is handed to the connection at once, in
/// UTF-8.
#[verifier::rlimit(40)]
pub proof fn a_typed_character_is_handed_over(
    app: &mut App,
    c: char,
    modifiers: Modifiers,
    effects: Vec<Effect>,
)
    requires
        call_ensures(
            App::handle_crossterm_event,
            (
                app,
                TerminalEvent::Key { key: Key { code: KeyCode::Char(c), modifiers }, released: false },
            ),
            effects,
        ),
        at_the_host(old(app)@, InputMode::Character),
        !modifiers.control,
    ensures
        effects@.len() == 1,
        effects@[0] is Send,
        effects@[0]->Send_0 is SendRaw,
        effects@[0]->Send_0->SendRaw_0@ == encode_utf8(seq![c]),
{
    characters_are_sent_as_typed(old(app)@, c, modifiers, true);
    characters_are_sent_as_typed(old(app)@, c, modifiers, false);
    let models = effect_models(effects@);
    assert(models.len() == effects@.len());
    assert(models[0] == effects@[0]@);
}

/// A key in character mode and its bytes: a character goes out and is drawn in UTF-8, Enter
/// as CR LF, Backspace as DEL where there is something to erase.
pub proof fn keys_have_their_bytes(len: usize, key: Key, bytes: KeyBytes)
    requires
        call_ensures(key_bytes, (len, key), bytes),
    ensures
        match key.code {
            KeyCode::Char(c) => !key.modifiers.control ==> {
                &&& bytes.send is Some && bytes.send->0@ == encode_utf8(seq![c])
                &&& bytes.draw is Some && bytes.draw->0@ == encode_utf8(seq![c])
                &&& bytes.len == len + 1
            },
            KeyCode::Enter => {
                &&& bytes.send is Some && bytes.send->0@ == seq![13u8, 10]
                &&& bytes.draw is Some && bytes.draw->0@ == seq![13u8, 10]
                &&& bytes.len == 0
            },
            KeyCode::Backspace => {
                &&& len > 0 ==> bytes.send is Some && bytes.send->0@ == seq![127u8]
                &&& len > 0 ==> bytes.draw is Some && bytes.draw->0@ == seq![8u8, 32, 8]
                &&& len > 0 ==> bytes.len == len - 1
                &&& len == 0 ==> bytes.send is None && bytes.draw is None && bytes.len == 0
            },
            KeyCode::Up => bytes.send is Some && bytes.send->0@ == seq![27u8, 91, 65],
            KeyCode::Down => bytes.send is Some && bytes.send->0@ == seq![27u8, 91, 66],
            KeyCode::Right => bytes.send is Some && bytes.send->0@ == seq![27u8, 91, 67],
            KeyCode::Left => bytes.send is Some && bytes.send->0@ == seq![27u8, 91, 68],
            _ => true,
        },
{
}

/// A call that connects asks for a connection to the selected entry, and for nothing after
/// that.
#[verifier::rlimit(40)]
pub proof fn a_connection_is_asked_for(app: &mut App, effects: Vec<Effect>)
    requires
        call_ensures(App::connect, (app,), effects),
        old(app).wf(),
        old(app).book.selected < old(app).book.entries@.len(),
        old(app).link.id < u64::MAX,
    ensures
        effects@.len() > 0,
        effects@.last() is Connect,
        ({
            let request = effects@.last()->Connect_0;
            let entry = old(app).book.entries@[old(app).book.selected as int];
            &&& request.id == old(app).link.id + 1
            &&& request.id == final(app).link.id
            &&& request.protocol == entry.protocol
            &&& request.host@ == entry.host@
            &&& request.port == entry.port
            &&& request.username is Some == entry.username is Some
            &&& entry.username is Some ==> request.username->0@ == entry.username->0@
            &&& entry.terminal_type is Some ==> request.terminal_type@ == entry.terminal_type->0@
            &&& entry.terminal_type is None ==> request.terminal_type@
                == old(app).settings.terminal_type@
        }),
{
    let done = connect(old(app)@);
    let models = effect_models(effects@);
    assert(models == done.effects);
    assert(models.len() == effects@.len());
    assert(done.effects.len() > 0);
    assert(models.last() == effects@.last()@);
    assert(old(app)@.book.entries[old(app)@.book.selected]
        == old(app).book.entries@[old(app).book.selected as int]@);
}

/// The application hears how its captures fare: where one goes, that none could be opened,
/// how much went in, and that no more does.
pub proof fn captures_are_reported(
    opened: &mut App,
    file: CaptureFile,
    refused: &mut App,
    written: &mut App,
    data: &[u8],
    failed: &mut App,
    error: &str,
)
    requires
        call_ensures(App::capture_opened, (opened, file), ()),
        call_ensures(App::capture_not_opened, (refused, error), ()),
        call_ensures(App::capture_written, (written, data), ()),
        call_ensures(App::capture_write_failed, (failed, error), ()),
    ensures
        final(opened)@ == (AppModel {
            capture: Some(file@),
            status: "Capture started → "@ + file@.path,
            ..old(opened)@
        }),
        final(refused)@ == (AppModel { status: "Capture failed: "@ + error@, ..old(refused)@ }),
        old(written)@.capture is Some ==> final(written)@ == (AppModel {
            capture: Some(
                CaptureModel {
                    bytes_written: (old(written)@.capture->0.bytes_written + data@.len()) as u64,
                    path: old(written)@.capture->0.path,
                },
            ),
            ..old(written)@
        }),
        old(written)@.capture is None ==> final(written)@ == old(written)@,
        old(failed)@.capture is Some ==> final(failed)@ == (AppModel {
            capture: None,
            status: "Capture failed: "@ + error@ + "; "@ + ("saved "@ + decimal(
                old(failed)@.capture->0.bytes_written as nat,
            ) + " bytes → "@ + old(failed)@.capture->0.path),
            ..old(failed)@
        }),
        old(failed)@.capture is None ==> final(failed)@ == old(failed)@,
{
}

/// The application hears how its files fare: saved settings are in force and close their
/// popup; others leave it open with the reason, and so the user hears that the address book
/// was not saved.
pub proof fn saves_are_reported(
    saved: &mut App,
    settings: Settings,
    kept: &mut App,
    lost: &mut App,
    error: &str,
    p: EditSettingsModel,
)
    requires
        call_ensures(App::settings_saved, (saved, settings), ()),
        call_ensures(App::settings_not_saved, (kept, error), ()),
        call_ensures(App::entries_not_saved, (lost, error), ()),
    ensures
        final(saved)@ == (AppModel { settings: settings@, popup: None, ..old(saved)@ }),
        old(kept)@.popup == Some(PopupModel::EditSettings(p)) ==> final(kept)@ == (AppModel {
            popup: Some(
                PopupModel::EditSettings(
                    EditSettingsModel {
                        error: Some("Could not save settings: "@ + error@),
                        ..p
                    },
                ),
            ),
            ..old(kept)@
        }),
        final(lost)@ == (AppModel { status: "Failed to save: "@ + error@, ..old(lost)@ }),
{
}

/// What is typed is drawn by the application itself on telnet only, and only where the
/// server does not echo.
pub proof fn local_echo_is_for_silent_telnet_servers(app: &App, server_echo: bool, echo: bool)
    requires
        call_ensures(App::needs_local_echo, (app, server_echo), echo),
    ensures
        echo <==> app.link.telnet_flags is Some && !server_echo,
{
}

/// Whether the server echoes is read from the flags that a telnet session shares, and is
/// never so without them.
pub proof fn echoing_is_read_from_the_session(link: &Link, echo: bool)
    requires
        call_ensures(Link::server_echo, (link,), echo),
    ensures
        link.telnet_flags is None ==> !echo,
        link.telnet_flags is Some ==> reads_bool(link.telnet_flags->0.server_echo, echo),
        echo_read(link@, echo),
{
}

/// Events can be taken beforehand wherever nothing is drawn, or the screen takes any
/// output; those that cannot come back, and nothing has changed.
pub proof fn events_are_taken_where_it_is_safe(
    app: &mut App,
    event: AppEvent,
    taken: Result<Vec<Effect>, AppEvent>,
)
    requires
        call_ensures(App::offer_app_event, (app, event), taken),
    ensures
        taken is Ok <==> !(event is NetworkData) || event_id(event) != old(app).link.id || vt_ready(
            old(app)@.emulator.screen,
        ),
        taken is Err ==> taken->Err_0 == event && final(app)@ == old(app)@,
        taken is Ok ==> exists|echo: bool|
            {
                let done = #[trigger] app_event(old(app)@, event_id(event), event@, echo);
                final(app)@ == done.app && effect_models(taken->Ok_0@) == done.effects
            },
{
}

/// An event of the user's terminal that draws nothing is taken where the counters leave
/// room, and so is any on a screen that takes any output.
#[verifier::rlimit(40)]
pub proof fn keys_are_taken_where_it_is_safe(
    app: &mut App,
    event: TerminalEvent,
    taken: Result<Vec<Effect>, TerminalEvent>,
)
    requires
        call_ensures(App::offer_terminal_event, (app, event), taken),
    ensures
        event is Resize || event is Other ==> taken is Ok,
        (old(app).link.telnet_flags is None || vt_ready(old(app)@.emulator.screen)) && event
            is Paste ==> taken is Ok,
        taken is Err ==> taken->Err_0 == event && final(app)@ == old(app)@,
        taken is Ok ==> exists|echo: bool|
            {
                let done = #[trigger] terminal_event(old(app)@, event@, echo);
                final(app)@ == done.app && effect_models(taken->Ok_0@) == done.effects
            },
{
}

/// The program starts with what was found in its files: the entries, the settings and
/// their warnings.
pub proof fn the_program_starts_with_its_files(
    book: LoadResult,
    hosts_warning: Option<String>,
    settings: LoadedSettings,
    login: LoginNames,
    app: App,
    i: int,
)
    requires
        call_ensures(App::new, (book, hosts_warning, settings, login), app),
    ensures
        app.wf(),
        app.state == AppState::AddressBook,
        app@.book.entries.len() == book.entries@.len(),
        0 <= i < book.entries@.len() ==> app@.book.entries[i] == book.entries@[i]@,
        app@.book.selected == 0,
        app@.settings == settings.settings@,
        app@.login == login@,
        app@.status == warning_lines(
            seq![opt_text(book.warning), opt_text(hosts_warning), opt_text(settings.warning)],
        ),
{
}

/// The application says when it is to quit, and how large its terminal is: the window
/// without the status bar and, in line mode, the input bar, and at least one by one.
pub proof fn the_application_says_where_it_stands(
    app: &App,
    quit: bool,
    size: (u16, u16),
)
    requires
        call_ensures(App::should_quit, (app,), quit),
        call_ensures(App::terminal_viewport, (app,), size),
    ensures
        quit == app.quit,
        size.0 == (if app.width == 0 {
            1u16
        } else {
            app.width
        }),
        app.input_mode == InputMode::Character ==> size.1 == (if app.height <= 1 {
            1
        } else {
            app.height - 1
        }),
        app.input_mode == InputMode::LineBuffered ==> size.1 == (if app.height <= 4 {
            1
        } else {
            app.height - 4
        }),
{
}

/// The program starts with the entries, the settings and the status that it is given.
pub proof fn the_program_starts_as_told(
    entries: Vec<AddressBookEntry>,
    settings: Settings,
    status: String,
    login: LoginNames,
    app: App,
)
    requires
        call_ensures(App::start, (entries, settings, status, login), app),
    ensures
        app.wf(),
        app@ == started(entry_models(entries@), settings@, status@, login@),
{
}

} // verus!
