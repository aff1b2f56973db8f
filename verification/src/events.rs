//! What passes between the application, its connections and the program that runs
//! them.

use crate::config::settings::{Settings, SettingsModel};
use crate::entry::Protocol;
use crate::network::telnet::TelnetFlags;
use crate::text::opt_text;
use std::sync::Arc;
use vstd::prelude::*;

verus! {

/// Commands sent from the app to the network connection.
#[derive(Debug)]
pub enum ConnectionCommand {
    SendText(String),
    SendRaw(Vec<u8>),
    /// Columns and rows.
    Resize(u16, u16),
    Disconnect,
}

/// What a command says.
pub ghost enum CommandModel {
    SendText(Seq<char>),
    SendRaw(Seq<u8>),
    Resize(u16, u16),
    Disconnect,
}

impl ConnectionCommand {
    /// What it holds.
    pub open spec fn view(&self) -> CommandModel {
        match *self {
            ConnectionCommand::SendText(text) => CommandModel::SendText(text@),
            ConnectionCommand::SendRaw(data) => CommandModel::SendRaw(data@),
            ConnectionCommand::Resize(cols, rows) => CommandModel::Resize(cols, rows),
            ConnectionCommand::Disconnect => CommandModel::Disconnect,
        }
    }
}

/// Events flowing in from a connection. Each carries the connection's id so that
/// events from abandoned connections can be ignored.
pub enum AppEvent {
    Connected { id: u64, telnet_flags: Option<Arc<TelnetFlags>> },
    NetworkData { id: u64, data: Vec<u8> },
    Disconnected { id: u64, reason: Option<String> },
    PasswordNeeded { id: u64 },
    HostKeyTrustNeeded {
        id: u64,
        host: String,
        port: u16,
        key_type: String,
        fingerprint: String,
    },
    HostKeyMismatch {
        id: u64,
        host: String,
        port: u16,
        key_type: String,
        stored_fingerprint: String,
        received_fingerprint: String,
        file_path: String,
    },
}

/// What an event says, apart from the connection that it comes from.
pub ghost enum AppEventModel {
    /// With what is shared with a telnet connection.
    Connected(Option<Arc<TelnetFlags>>),
    NetworkData(Seq<u8>),
    Disconnected(Option<Seq<char>>),
    PasswordNeeded,
    HostKeyTrustNeeded {
        host: Seq<char>,
        port: u16,
        key_type: Seq<char>,
        fingerprint: Seq<char>,
    },
    HostKeyMismatch {
        host: Seq<char>,
        port: u16,
        key_type: Seq<char>,
        stored: Seq<char>,
        received: Seq<char>,
        file_path: Seq<char>,
    },
}

impl AppEvent {
    /// What it holds.
    pub open spec fn view(&self) -> AppEventModel {
        match *self {
            AppEvent::Connected { telnet_flags, .. } => AppEventModel::Connected(telnet_flags),
            AppEvent::NetworkData { data, .. } => AppEventModel::NetworkData(data@),
            AppEvent::Disconnected { reason, .. } => AppEventModel::Disconnected(
                opt_text(reason),
            ),
            AppEvent::PasswordNeeded { .. } => AppEventModel::PasswordNeeded,
            AppEvent::HostKeyTrustNeeded { host, port, key_type, fingerprint, .. } => {
                AppEventModel::HostKeyTrustNeeded {
                    host: host@,
                    port,
                    key_type: key_type@,
                    fingerprint: fingerprint@,
                }
            },
            AppEvent::HostKeyMismatch {
                host,
                port,
                key_type,
                stored_fingerprint,
                received_fingerprint,
                file_path,
                ..
            } => AppEventModel::HostKeyMismatch {
                host: host@,
                port,
                key_type: key_type@,
                stored: stored_fingerprint@,
                received: received_fingerprint@,
                file_path: file_path@,
            },
        }
    }
}

/// The connection that an event comes from.
pub open spec fn event_id(event: AppEvent) -> u64 {
    match event {
        AppEvent::Connected { id, .. } => id,
        AppEvent::NetworkData { id, .. } => id,
        AppEvent::Disconnected { id, .. } => id,
        AppEvent::PasswordNeeded { id } => id,
        AppEvent::HostKeyTrustNeeded { id, .. } => id,
        AppEvent::HostKeyMismatch { id, .. } => id,
    }
}

impl AppEvent {
    /// The connection that the event comes from.
    pub fn id(&self) -> (id: u64)
        ensures
            id == event_id(*self),
    {
        match self {
            AppEvent::Connected { id, .. } => *id,
            AppEvent::NetworkData { id, .. } => *id,
            AppEvent::Disconnected { id, .. } => *id,
            AppEvent::PasswordNeeded { id } => *id,
            AppEvent::HostKeyTrustNeeded { id, .. } => *id,
            AppEvent::HostKeyMismatch { id, .. } => *id,
        }
    }
}

/// A connection to be made.
#[derive(Debug)]
pub struct ConnectRequest {
    pub id: u64,
    pub protocol: Protocol,
    pub host: String,
    pub port: u16,
    pub username: Option<String>,
    pub cols: u16,
    pub rows: u16,
    pub terminal_type: String,
}

/// What is asked for.
#[verifier::ext_equal]
pub ghost struct ConnectModel {
    pub id: u64,
    pub protocol: Protocol,
    pub host: Seq<char>,
    pub port: u16,
    pub username: Option<Seq<char>>,
    pub cols: u16,
    pub rows: u16,
    pub terminal_type: Seq<char>,
}

impl ConnectRequest {
    /// What it holds.
    pub open spec fn view(&self) -> ConnectModel {
        ConnectModel {
            id: self.id,
            protocol: self.protocol,
            host: self.host@,
            port: self.port,
            username: opt_text(self.username),
            cols: self.cols,
            rows: self.rows,
            terminal_type: self.terminal_type@,
        }
    }
}

/// What the application asks of the program that runs it. Effects are carried out
/// in order.
pub enum Effect {
    /// Hand a command to the connection.
    Send(ConnectionCommand),
    /// Cancel the connection's tasks and let go of its command channel.
    StopTasks,
    /// Let go of the connection's tasks and of its command channel: they have ended.
    ForgetTasks,
    /// The event was expected: keep the channel that came with it.
    Accept,
    /// Start the tasks of a new connection.
    Connect(ConnectRequest),
    /// Save the address book, and report a failure.
    SaveEntries,
    /// Save the settings, and report how that went.
    SaveSettings(Settings),
    /// Open a capture file, and report how that went.
    OpenCapture { entry_name: String, host: String, port: u16 },
    /// Append to the capture file, and report how that went.
    WriteCapture(Vec<u8>),
    /// Close the capture file.
    CloseCapture,
    /// Answer the question for a password.
    AnswerPassword(String),
    /// Leave the question for a password unanswered.
    DropPassword,
    /// Answer whether the host key is trusted.
    AnswerHostKey(bool),
}

/// What is asked for.
#[verifier::ext_equal]
pub ghost enum EffectModel {
    Send(CommandModel),
    StopTasks,
    ForgetTasks,
    Accept,
    Connect(ConnectModel),
    SaveEntries,
    SaveSettings(SettingsModel),
    OpenCapture { entry_name: Seq<char>, host: Seq<char>, port: u16 },
    WriteCapture(Seq<u8>),
    CloseCapture,
    AnswerPassword(Seq<char>),
    DropPassword,
    AnswerHostKey(bool),
}

impl Effect {
    /// What it holds.
    pub open spec fn view(&self) -> EffectModel {
        match *self {
            Effect::Send(command) => EffectModel::Send(command@),
            Effect::StopTasks => EffectModel::StopTasks,
            Effect::ForgetTasks => EffectModel::ForgetTasks,
            Effect::Accept => EffectModel::Accept,
            Effect::Connect(request) => EffectModel::Connect(request@),
            Effect::SaveEntries => EffectModel::SaveEntries,
            Effect::SaveSettings(settings) => EffectModel::SaveSettings(settings@),
            Effect::OpenCapture { entry_name, host, port } => EffectModel::OpenCapture {
                entry_name: entry_name@,
                host: host@,
                port,
            },
            Effect::WriteCapture(data) => EffectModel::WriteCapture(data@),
            Effect::CloseCapture => EffectModel::CloseCapture,
            Effect::AnswerPassword(password) => EffectModel::AnswerPassword(password@),
            Effect::DropPassword => EffectModel::DropPassword,
            Effect::AnswerHostKey(trusted) => EffectModel::AnswerHostKey(trusted),
        }
    }
}

/// What is asked for, in order.
pub open spec fn effect_models(list: Seq<Effect>) -> Seq<EffectModel> {
    Seq::new(list.len(), |i: int| list[i]@)
}

} // verus!
