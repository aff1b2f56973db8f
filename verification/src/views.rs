//! What the contracts see of a value is what it holds: nothing is left out, and nothing
//! stands for something else.

use crate::app::book::Book;
use crate::app::line::LineEditor;
use crate::app::link::Link;
use crate::app::App;
use crate::config::known_hosts::{HostKey, KnownHosts};
use crate::config::settings::Settings;
use crate::entry::AddressBookEntry;
use crate::events::{
    event_id, AppEvent, AppEventModel, CommandModel, ConnectRequest, ConnectionCommand, Effect,
    EffectModel,
};
use crate::keys::{TerminalEvent, TerminalEventModel};
use crate::network::ssh::{
    LoginModelStep, LoginNames, LoginOutcome, LoginResult, LoginStep,
};
use crate::popup::{EditSettingsPopup, FormPopup, HostKeyTrustPopup, Popup, PopupModel};
use vstd::prelude::*;

verus! {

/// Whether an optional text reads as this.
pub open spec fn reads(text: Option<String>, as_seen: Option<Seq<char>>) -> bool {
    match text {
        Some(t) => as_seen == Some(t@),
        None => as_seen is None,
    }
}

/// An entry of the address book.
pub proof fn entries_are_seen_whole(e: AddressBookEntry)
    ensures
        e@.name == e.name@,
        e@.host == e.host@,
        e@.port == e.port,
        e@.protocol == e.protocol,
        reads(e.username, e@.username),
        reads(e.terminal_type, e@.terminal_type),
        e@.default_input_mode == e.default_input_mode,
{
}

/// A connection to be made.
pub proof fn requests_are_seen_whole(r: ConnectRequest)
    ensures
        r@.id == r.id,
        r@.protocol == r.protocol,
        r@.host == r.host@,
        r@.port == r.port,
        reads(r.username, r@.username),
        r@.cols == r.cols,
        r@.rows == r.rows,
        r@.terminal_type == r.terminal_type@,
{
}

/// A command to a connection.
pub proof fn commands_are_seen_whole(c: ConnectionCommand)
    ensures
        match c {
            ConnectionCommand::SendText(text) => c@ == CommandModel::SendText(text@),
            ConnectionCommand::SendRaw(bytes) => c@ == CommandModel::SendRaw(bytes@),
            ConnectionCommand::Resize(cols, rows) => c@ == CommandModel::Resize(cols, rows),
            ConnectionCommand::Disconnect => c@ == CommandModel::Disconnect,
        },
{
}

/// What the application asks for.
pub proof fn effects_are_seen_whole(e: Effect)
    ensures
        match e {
            Effect::Send(command) => e@ == EffectModel::Send(command@),
            Effect::StopTasks => e@ == EffectModel::StopTasks,
            Effect::ForgetTasks => e@ == EffectModel::ForgetTasks,
            Effect::Accept => e@ == EffectModel::Accept,
            Effect::Connect(request) => e@ == EffectModel::Connect(request@),
            Effect::SaveEntries => e@ == EffectModel::SaveEntries,
            Effect::SaveSettings(settings) => e@ == EffectModel::SaveSettings(settings@),
            Effect::OpenCapture { entry_name, host, port } => e@ == EffectModel::OpenCapture {
                entry_name: entry_name@,
                host: host@,
                port,
            },
            Effect::WriteCapture(data) => e@ == EffectModel::WriteCapture(data@),
            Effect::CloseCapture => e@ == EffectModel::CloseCapture,
            Effect::AnswerPassword(password) => e@ == EffectModel::AnswerPassword(password@),
            Effect::DropPassword => e@ == EffectModel::DropPassword,
            Effect::AnswerHostKey(trusted) => e@ == EffectModel::AnswerHostKey(trusted),
        },
{
}

/// An event of a connection.
pub proof fn events_are_seen_whole(e: AppEvent)
    ensures
        match e {
            AppEvent::Connected { id, telnet_flags } => event_id(e) == id && e@
                == AppEventModel::Connected(telnet_flags),
            AppEvent::NetworkData { id, data } => event_id(e) == id && e@
                == AppEventModel::NetworkData(data@),
            AppEvent::Disconnected { id, reason } => event_id(e) == id && e@ is Disconnected
                && reads(reason, e@->Disconnected_0),
            AppEvent::PasswordNeeded { id } => event_id(e) == id && e@
                == AppEventModel::PasswordNeeded,
            AppEvent::HostKeyTrustNeeded { id, host, port, key_type, fingerprint } => event_id(e)
                == id && e@ == AppEventModel::HostKeyTrustNeeded {
                host: host@,
                port,
                key_type: key_type@,
                fingerprint: fingerprint@,
            },
            AppEvent::HostKeyMismatch {
                id,
                host,
                port,
                key_type,
                stored_fingerprint,
                received_fingerprint,
                file_path,
            } => event_id(e) == id && e@ == AppEventModel::HostKeyMismatch {
                host: host@,
                port,
                key_type: key_type@,
                stored: stored_fingerprint@,
                received: received_fingerprint@,
                file_path: file_path@,
            },
        },
{
}

/// An event of the user's terminal.
pub proof fn terminal_events_are_seen_whole(e: TerminalEvent)
    ensures
        match e {
            TerminalEvent::Key { key, released } => e@ == TerminalEventModel::Key { key, released },
            TerminalEvent::Mouse(mouse) => e@ == TerminalEventModel::Mouse(mouse),
            TerminalEvent::Resize(width, height) => e@ == TerminalEventModel::Resize(width, height),
            TerminalEvent::Paste(text) => e@ == TerminalEventModel::Paste(text@),
            TerminalEvent::Other => e@ == TerminalEventModel::Other,
        },
{
}

/// The known hosts.
pub proof fn known_hosts_are_seen_whole(k: KnownHosts, key: HostKey, i: int)
    ensures
        key@.host == key.host@,
        key@.port == key.port,
        key@.key_type == key.key_type@,
        key@.fingerprint == key.fingerprint@,
        k@.len() == k.entries@.len(),
        0 <= i < k.entries@.len() ==> k@[i] == k.entries@[i]@,
{
}

/// The settings, and the popup that edits them.
pub proof fn settings_are_seen_whole(s: Settings, p: EditSettingsPopup, i: int)
    ensures
        s@.scrollback_lines == s.scrollback_lines,
        s@.default_input_mode == s.default_input_mode,
        s@.terminal_type == s.terminal_type@,
        p@.focused == p.focused,
        p@.scrollback == p.scrollback_input@,
        p@.mode == p.mode,
        p@.terminal_types.len() == p.terminal_type_options@.len(),
        0 <= i < p.terminal_type_options@.len() ==> p@.terminal_types[i]
            == p.terminal_type_options@[i]@,
        p@.terminal_type == p.terminal_type_idx,
        reads(p.error, p@.error),
{
}

/// The form.
pub proof fn forms_are_seen_whole(f: FormPopup, i: int)
    ensures
        f@.mode == f.mode,
        f@.focused == f.focused,
        f@.name == f.name@,
        f@.host == f.host@,
        f@.port == f.port_str@,
        f@.protocol == f.protocol,
        f@.username == f.username@,
        f@.terminal_types.len() == f.terminal_type_options@.len(),
        0 <= i < f.terminal_type_options@.len() ==> f@.terminal_types[i]
            == f.terminal_type_options@[i]@,
        f@.terminal_type == f.terminal_type_idx,
        f@.input_mode == f.input_mode_idx,
{
}

/// The popups.
pub proof fn popups_are_seen_whole(p: Popup, trust: HostKeyTrustPopup)
    ensures
        match p {
            Popup::Form(form) => p@ == PopupModel::Form(form@),
            Popup::EditSettings(settings) => p@ == PopupModel::EditSettings(settings@),
            Popup::DeleteConfirm => p@ == PopupModel::DeleteConfirm,
            Popup::Password(password) => p@ == PopupModel::Password(password@),
            Popup::HostKeyTrust(key) => p@ == PopupModel::HostKeyTrust(key@),
            Popup::ChordHelp => p@ == PopupModel::ChordHelp,
        },
        trust@.host == trust.host@,
        trust@.port == trust.port,
        trust@.key_type == trust.key_type@,
        trust@.fingerprint == trust.fingerprint@,
{
}

/// The parts of the application: the address book, the input line and the connection.
pub proof fn parts_are_seen_whole(book: Book, line: LineEditor, link: Link, i: int)
    ensures
        book@.entries.len() == book.entries@.len(),
        0 <= i < book.entries@.len() ==> book@.entries[i] == book.entries@[i]@,
        book@.selected == book.selected,
        book.connected is Some ==> book@.connected == Some(book.connected->0 as int),
        book.connected is None ==> book@.connected is None,
        line@.input == line.input@,
        line@.history.len() == line.history@.len(),
        0 <= i < line.history@.len() ==> line@.history[i] == line.history@[i]@,
        line.index is Some ==> line@.index == Some(line.index->0 as int),
        line.index is None ==> line@.index is None,
        line@.draft == line.draft@,
        link@.id == link.id,
        link@.open == link.open,
        link@.tasks_running == link.tasks_running,
        link@.telnet == link.telnet_flags,
        link@.password_pending == link.password_pending,
        link@.host_key_pending == link.host_key_pending,
{
}

/// The application.
pub proof fn the_application_is_seen_whole(app: App)
    ensures
        app@.state == app.state,
        app@.input_mode == app.input_mode,
        app.popup is Some ==> app@.popup == Some(app.popup->0@),
        app.popup is None ==> app@.popup is None,
        app@.book == app.book@,
        app@.line == app.line@,
        app@.link == app.link@,
        app@.emulator == app.emulator@,
        app@.scanner == app.ansi_query_scanner.pending(),
        app@.status == app.status_message@,
        app@.settings == app.settings@,
        app.capture is Some ==> app@.capture == Some(app.capture->0@),
        app.capture is None ==> app@.capture is None,
        app@.char_input_len == app.char_input_len,
        app@.chord == app.chord,
        app@.shown_chord_hint == app.shown_chord_hint,
        app@.input_mode_user_set == app.input_mode_user_set,
        app@.quit == app.quit,
        app@.width == app.width,
        app@.height == app.height,
        app@.login == app.login@,
{
}

/// The steps of a login, and the names that the environment offers.
pub proof fn logins_are_seen_whole(step: LoginStep, result: LoginResult, names: LoginNames)
    ensures
        match step {
            LoginStep::Connect => step@ == LoginModelStep::Connect,
            LoginStep::AuthenticateNone => step@ == LoginModelStep::AuthenticateNone,
            LoginStep::LoadKeys => step@ == LoginModelStep::LoadKeys,
            LoginStep::AuthenticateKey { index, count } => step@
                == LoginModelStep::AuthenticateKey { index: index as int, count: count as int },
            LoginStep::AskPassword => step@ == LoginModelStep::AskPassword,
            LoginStep::AuthenticatePassword => step@ == LoginModelStep::AuthenticatePassword,
            LoginStep::OpenChannel => step@ == LoginModelStep::OpenChannel,
            LoginStep::RequestPty => step@ == LoginModelStep::RequestPty,
            LoginStep::RequestShell => step@ == LoginModelStep::RequestShell,
            LoginStep::Ready => step@ == LoginModelStep::Ready,
            LoginStep::Failed(reason) => step@ == LoginModelStep::Failed(reason@),
        },
        match result {
            LoginResult::Done => result@ == LoginOutcome::Done,
            LoginResult::Refused => result@ == LoginOutcome::Refused,
            LoginResult::Failed(reason) => result@ == LoginOutcome::Failed(reason@),
            LoginResult::TimedOut => result@ == LoginOutcome::TimedOut,
            LoginResult::Cancelled => result@ == LoginOutcome::Cancelled,
            LoginResult::Keys(count) => result@ == LoginOutcome::Keys(count as int),
        },
        reads(names.user, names@.user),
        reads(names.username, names@.username),
{
}

} // verus!
