//! A telnet connection: what its tasks make of what they read and of the commands
//! they get.

use super::telnet::{
    build_naws, lemma_nothing_processed, naws_message, nothing_ran, processed, reads_bool,
    stores_changes, stores_window, FilterState, Run, TelnetFilter, TelnetFlags,
};
use super::{timeout_message, timeout_reason, ConnectResult};
use crate::events::{event_id, AppEvent, AppEventModel, CommandModel, ConnectionCommand};
use std::sync::Arc;
use vstd::prelude::*;
use vstd::string::*;
use vstd::utf8::encode_utf8;

verus! {

/// Why a connection was not made, if the application is to be told.
pub open spec fn failure_reason(result: ConnectResult, host: Seq<char>, port: u16) -> Option<
    Seq<char>,
> {
    match result {
        ConnectResult::Failed(e) => Some(e@),
        ConnectResult::TimedOut => Some(timeout_reason("Connection"@, host, port)),
        _ => None,
    }
}

/// The event that tells why a connection was not made. The user needs not be told
/// of an attempt that the user gave up.
pub fn connect_failure(result: ConnectResult, id: u64, host: &str, port: u16) -> (event: Option<
    AppEvent,
>)
    ensures
        match event {
            Some(e) => event_id(e) == id && failure_reason(result, host@, port) is Some && e@
                == AppEventModel::Disconnected(failure_reason(result, host@, port)),
            None => failure_reason(result, host@, port) is None,
        },
{
    match result {
        ConnectResult::Failed(e) => Some(AppEvent::Disconnected { id, reason: Some(e) }),
        ConnectResult::TimedOut => Some(
            AppEvent::Disconnected {
                id,
                reason: Some(timeout_message("Connection", host, port)),
            },
        ),
        ConnectResult::Made | ConnectResult::Cancelled => None,
    }
}

/// What a read from the socket gave.
pub enum ReadResult {
    Data(Vec<u8>),
    /// The peer closed the connection.
    End,
    Failed(String),
}

/// What the reader does about it.
pub struct ReaderStep {
    /// Telnet responses for the writer to send.
    pub respond: Option<Vec<u8>>,
    /// What the application is told.
    pub event: Option<AppEvent>,
    /// Whether to stop reading.
    pub stop: bool,
}

/// The bytes, unless there are none.
pub open spec fn unless_empty(bytes: Seq<u8>) -> Option<Seq<u8>> {
    if bytes.len() == 0 {
        None
    } else {
        Some(bytes)
    }
}

/// What the application is told of what was read, given the data in it.
pub open spec fn reader_event(read: ReadResult, data: Seq<u8>) -> Option<AppEventModel> {
    match read {
        ReadResult::Data(_) => match unless_empty(data) {
            Some(d) => Some(AppEventModel::NetworkData(d)),
            None => None,
        },
        ReadResult::End => Some(AppEventModel::Disconnected(None)),
        ReadResult::Failed(e) => Some(AppEventModel::Disconnected(Some(e@))),
    }
}

/// The bytes that a read brought.
pub open spec fn bytes_read(read: ReadResult) -> Seq<u8> {
    match read {
        ReadResult::Data(bytes) => bytes@,
        _ => seq![],
    }
}

/// Whether `step` is what the reader does about what was read, where `ran` came of its
/// bytes: what was negotiated is stored in the flags, the responses go to the writer and
/// the data to the application, each unless there is none, and the application hears of
/// the end.
pub open spec fn reader_stepped(
    flags: TelnetFlags,
    m: FilterState,
    read: ReadResult,
    ran: Run,
    id: u64,
    step: ReaderStep,
) -> bool {
    &&& processed(flags, m, bytes_read(read), ran)
    &&& stores_changes(flags, ran.changes)
    &&& match step.respond {
        Some(bytes) => unless_empty(ran.response) == Some(bytes@),
        None => unless_empty(ran.response) is None,
    }
    &&& match step.event {
        Some(e) => event_id(e) == id && reader_event(read, ran.data) == Some(e@),
        None => reader_event(read, ran.data) is None,
    }
}

/// Where no bytes were read, the filter stays as it is.
proof fn lemma_nothing_read(
    flags: Arc<TelnetFlags>,
    m: FilterState,
    read: ReadResult,
    id: u64,
    step: ReaderStep,
)
    requires
        !(read is Data),
        step.respond is None,
        step.event is Some,
        event_id(step.event->0) == id,
        reader_event(read, seq![]) == Some(step.event->0@),
    ensures
        reader_stepped(*flags, m, read, nothing_ran(m), id, step),
{
    lemma_nothing_processed(flags, m);
}

/// Handles what was read: telnet commands are filtered out and answered, the data
/// goes to the application. The window size in an answer is read from the shared
/// flags, and what was negotiated is stored in them.
pub fn reader_step(filter: &mut TelnetFilter, id: u64, read: ReadResult) -> (step: ReaderStep)
    ensures
        final(filter).flags == old(filter).flags,
        exists|ran: Run|
            final(filter)@ == ran.next && #[trigger] reader_stepped(
                *old(filter).flags,
                old(filter)@,
                read,
                ran,
                id,
                step,
            ),
        step.stop == !(read is Data),
{
    match read {
        ReadResult::Data(bytes) => {
            let output = filter.process(&bytes);
            let ghost ran = Run {
                next: filter@,
                data: output.data@,
                response: output.response@,
                changes: output.changes@,
            };
            let respond = if output.response.len() == 0 {
                None
            } else {
                Some(output.response)
            };
            let event = if output.data.len() == 0 {
                None
            } else {
                Some(AppEvent::NetworkData { id, data: output.data })
            };
            let step = ReaderStep { respond, event, stop: false };
            assert(reader_stepped(*old(filter).flags, old(filter)@, read, ran, id, step));
            step
        },
        ReadResult::End => {
            let step = ReaderStep {
                respond: None,
                event: Some(AppEvent::Disconnected { id, reason: None }),
                stop: true,
            };
            proof {
                lemma_nothing_read(filter.flags, filter@, read, id, step);
            }
            step
        },
        ReadResult::Failed(e) => {
            let step = ReaderStep {
                respond: None,
                event: Some(AppEvent::Disconnected { id, reason: Some(e) }),
                stop: true,
            };
            proof {
                lemma_nothing_read(filter.flags, filter@, read, id, step);
            }
            step
        },
    }
}

/// What the writer does about a command.
#[derive(Debug)]
pub enum WriterStep {
    /// Write these bytes, and stop if that fails.
    Write(Vec<u8>),
    /// Write these bytes, whether that fails or not.
    TryWrite(Vec<u8>),
    Nothing,
    Stop,
}

/// What the writer does, without the buffers.
pub ghost enum WriterModel {
    Write(Seq<u8>),
    TryWrite(Seq<u8>),
    Nothing,
    Stop,
}

impl WriterStep {
    /// What it holds.
    pub open spec fn view(&self) -> WriterModel {
        match *self {
            WriterStep::Write(bytes) => WriterModel::Write(bytes@),
            WriterStep::TryWrite(bytes) => WriterModel::TryWrite(bytes@),
            WriterStep::Nothing => WriterModel::Nothing,
            WriterStep::Stop => WriterModel::Stop,
        }
    }
}

/// What the writer does about a command, given whether the server wants to be told
/// of window sizes.
pub open spec fn written(command: CommandModel, wants_size: bool) -> WriterModel {
    match command {
        CommandModel::SendText(text) => WriterModel::Write(encode_utf8(text)),
        CommandModel::SendRaw(data) => WriterModel::Write(data),
        CommandModel::Resize(cols, rows) => if wants_size {
            WriterModel::TryWrite(naws_message(cols, rows))
        } else {
            WriterModel::Nothing
        },
        CommandModel::Disconnect => WriterModel::Stop,
    }
}

/// Handles a command, given whether the server wants to be told of window sizes.
pub fn writer_step(command: ConnectionCommand, wants_size: bool) -> (step: WriterStep)
    ensures
        step@ == written(command@, wants_size),
{
    match command {
        ConnectionCommand::SendText(text) => WriterStep::Write(text.as_str().as_bytes_vec()),
        ConnectionCommand::SendRaw(data) => WriterStep::Write(data),
        ConnectionCommand::Resize(cols, rows) => {
            if wants_size {
                WriterStep::TryWrite(build_naws(cols, rows))
            } else {
                WriterStep::Nothing
            }
        },
        ConnectionCommand::Disconnect => WriterStep::Stop,
    }
}

/// Handles a command. A new window size goes into the shared flags; whether the
/// server wants to be told of it is read from them.
pub fn on_command(flags: &TelnetFlags, command: ConnectionCommand) -> (step: WriterStep)
    ensures
        exists|wants_size: bool|
            reads_bool(flags.naws_enabled, wants_size) && step@ == #[trigger] written(
                command@,
                wants_size,
            ),
        match command@ {
            CommandModel::Resize(cols, rows) => stores_window(*flags, (cols, rows)),
            _ => true,
        },
{
    match &command {
        ConnectionCommand::Resize(cols, rows) => flags.set_window(*cols, *rows),
        _ => {},
    }
    let wants_size = flags.wants_size();
    writer_step(command, wants_size)
}

} // verus!
