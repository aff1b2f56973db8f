//! What holds of the protocols, byte by byte and step by step.

use super::ssh;
use super::ssh::{
    channel_step, check_server_key, disconnect_once, key_files, login_after, login_name, login_run,
    on_message, trust_answered, ChannelMessage, ChannelModel, ChannelStep,
    HostKeyStep, LoginModel, LoginNames,
    LoginModelStep, LoginOutcome, LoginResult, LoginStep, LoginTarget,
};
use super::tcp;
use super::tcp::{
    failure_reason, reader_stepped, written, ReadResult, ReaderStep, WriterModel, WriterStep,
};
use super::telnet::{
    build_naws, lemma_negotiation, lemma_run_push, naws_message, reads_bool, reads_u16, reads_window, run,
    starts_as_bool, starts_as_u16, stores_bool, stores_change, stores_changes, stores_u16, stores_window, FilterState, FlagChange,
    Run, State, TelnetFilter, TelnetFlags, TelnetOutput,
};
use super::{address, host_address, ConnectResult};
use crate::config::known_hosts::{verdict, HostKey, HostKeyModel, KnownHosts};
use crate::config::laws::{the_deciding_key, unknown_keys_have_no_stored_key};
use crate::events::{event_id, AppEvent, AppEventModel, CommandModel, ConnectionCommand};
use crate::text::{decimal, is_space, trimmed};
use std::sync::Arc;
use vstd::prelude::*;
use vstd::utf8::encode_utf8;

verus! {

// ---------------------------------------------------------------------------
// Telnet
// ---------------------------------------------------------------------------

/// Bytes with every 255 among them doubled.
pub open spec fn doubled(bytes: Seq<u8>) -> Seq<u8>
    decreases bytes.len(),
{
    if bytes.len() == 0 {
        seq![]
    } else if bytes.last() == 255 {
        doubled(bytes.drop_last()).push(255).push(255)
    } else {
        doubled(bytes.drop_last()).push(bytes.last())
    }
}

/// Bytes other than 255 after something that leads back to plain data are displayed as
/// they are.
proof fn lemma_plain_after(
    m: FilterState,
    head: Seq<u8>,
    data: Seq<u8>,
    sizes: Seq<(u16, u16)>,
)
    requires
        run(m, head, sizes).next.state == State::Data,
        !data.contains(255u8),
    ensures
        run(m, head + data, sizes) == (Run {
            data: run(m, head, sizes).data + data,
            ..run(m, head, sizes)
        }),
    decreases data.len(),
{
    if data.len() == 0 {
        assert(head + data =~= head);
        assert(run(m, head, sizes).data + data =~= run(m, head, sizes).data);
    } else {
        let shorter = data.drop_last();
        assert forall|i: int| 0 <= i < shorter.len() implies shorter[i] != 255 by {
            assert(shorter[i] == data[i]);
        }
        lemma_plain_after(m, head, shorter, sizes);
        assert(data[data.len() - 1] != 255);
        lemma_run_push(m, head + shorter, data.last(), sizes);
        assert((head + shorter).push(data.last()) =~= head + data);
        assert(run(m, head, sizes).data + shorter + seq![data.last()] =~= run(m, head, sizes).data
            + data);
    }
}

/// Text without a byte 255 is displayed as it came, and nothing is answered.
pub proof fn text_is_displayed(m: FilterState, data: Seq<u8>, sizes: Seq<(u16, u16)>)
    requires
        m.state == State::Data,
        !data.contains(255u8),
    ensures
        run(m, data, sizes) == (Run { next: m, data, response: seq![], changes: seq![] }),
{
    lemma_plain_after(m, seq![], data, sizes);
    assert(seq![] + data =~= data);
}

/// A byte 255 that the server doubles is displayed once, whatever stands around it.
pub proof fn a_doubled_byte_is_displayed_once(
    m: FilterState,
    before: Seq<u8>,
    after: Seq<u8>,
    sizes: Seq<(u16, u16)>,
)
    requires
        m.state == State::Data,
        !before.contains(255u8),
        !after.contains(255u8),
    ensures
        run(m, before + seq![255u8, 255] + after, sizes) == (Run {
            next: m,
            data: before + seq![255u8] + after,
            response: seq![],
            changes: seq![],
        }),
{
    text_is_displayed(m, before, sizes);
    lemma_run_push(m, before, 255, sizes);
    lemma_run_push(m, before.push(255), 255, sizes);
    assert(before.push(255).push(255) =~= before + seq![255u8, 255]);
    lemma_plain_after(m, before + seq![255u8, 255], after, sizes);
}

/// A command of two bytes, such as Go Ahead (249) or No Operation (241), is taken out of
/// the text around it: every other byte is displayed, nothing is answered, and the filter
/// is as it was.
pub proof fn two_byte_commands_are_skipped(
    m: FilterState,
    before: Seq<u8>,
    command: u8,
    after: Seq<u8>,
    sizes: Seq<(u16, u16)>,
)
    requires
        m.state == State::Data,
        command < 250,
        !before.contains(255u8),
        !after.contains(255u8),
    ensures
        run(m, before + seq![255u8, command] + after, sizes) == (Run {
            next: m,
            data: before + after,
            response: seq![],
            changes: seq![],
        }),
        run(m, seq![255u8, command] + after, sizes) == (Run {
            next: m,
            data: after,
            response: seq![],
            changes: seq![],
        }),
{
    text_is_displayed(m, before, sizes);
    lemma_run_push(m, before, 255, sizes);
    lemma_run_push(m, before.push(255), command, sizes);
    assert(before.push(255).push(command) =~= before + seq![255u8, command]);
    lemma_plain_after(m, before + seq![255u8, command], after, sizes);
    lemma_run_push(m, seq![], 255, sizes);
    lemma_run_push(m, seq![255u8], command, sizes);
    assert(Seq::<u8>::empty().push(255) =~= seq![255u8]);
    assert(seq![255u8].push(command) =~= seq![255u8, command]);
    lemma_plain_after(m, seq![255u8, command], after, sizes);
    assert(Seq::<u8>::empty() + after =~= after);
}

/// A subnegotiation that breaks off with any command but its end (240) and a doubled 255
/// is forgotten, and the stream goes on as if that command stood outside of it: what is
/// displayed, answered and negotiated from there on is the same.
pub proof fn aborted_subnegotiations_are_forgotten(
    m: FilterState,
    command: u8,
    rest: Seq<u8>,
    sizes: Seq<(u16, u16)>,
)
    requires
        m.state == State::Sb,
        command != 255,
        command != 240,
    ensures
        run(m, seq![255u8, command] + rest, sizes) == run(
            FilterState { state: State::Data, sb: seq![], ..m },
            seq![255u8, command] + rest,
            sizes,
        ),
    decreases rest.len(),
{
    let outside = FilterState { state: State::Data, sb: seq![], ..m };
    if rest.len() == 0 {
        assert(seq![255u8, command] + rest =~= seq![255u8, command]);
        assert(Seq::<u8>::empty().push(255) =~= seq![255u8]);
        assert(seq![255u8].push(command) =~= seq![255u8, command]);
        lemma_run_push(m, seq![], 255, sizes);
        lemma_run_push(m, seq![255u8], command, sizes);
        lemma_run_push(outside, seq![], 255, sizes);
        lemma_run_push(outside, seq![255u8], command, sizes);
    } else {
        let shorter = rest.drop_last();
        aborted_subnegotiations_are_forgotten(m, command, shorter, sizes);
        assert((seq![255u8, command] + shorter).push(rest.last()) =~= seq![255u8, command] + rest);
        lemma_run_push(m, seq![255u8, command] + shorter, rest.last(), sizes);
        lemma_run_push(outside, seq![255u8, command] + shorter, rest.last(), sizes);
    }
}

/// What the server offers (WILL, 251): echoing (1) and suppressing go-ahead (3) are agreed
/// to with DO (253), anything else is declined with DONT (254). The session hears of
/// echoing, and of nothing else.
pub proof fn offers_are_answered(m: FilterState, option: u8, sizes: Seq<(u16, u16)>)
    requires
        m.state == State::Data,
    ensures
        run(m, seq![255u8, 251, option], sizes) == (Run {
            next: m,
            data: seq![],
            response: if option == 1 || option == 3 {
                seq![255u8, 253, option]
            } else {
                seq![255u8, 254, option]
            },
            changes: if option == 1 {
                seq![FlagChange::ServerEcho(true)]
            } else {
                seq![]
            },
        }),
{
    lemma_negotiation(m, 251, option, sizes);
}

/// What the server stops doing (WONT, 252) or does not want (DONT, 254) is not answered.
/// The session hears that the server no longer echoes, and of nothing else.
pub proof fn withdrawals_are_noted(m: FilterState, option: u8, sizes: Seq<(u16, u16)>)
    requires
        m.state == State::Data,
    ensures
        run(m, seq![255u8, 252, option], sizes) == (Run {
            next: m,
            data: seq![],
            response: seq![],
            changes: if option == 1 {
                seq![FlagChange::ServerEcho(false)]
            } else {
                seq![]
            },
        }),
        run(m, seq![255u8, 254, option], sizes) == (Run {
            next: m,
            data: seq![],
            response: seq![],
            changes: seq![],
        }),
{
    lemma_negotiation(m, 252, option, sizes);
    lemma_negotiation(m, 254, option, sizes);
}

/// What the server asks for (DO, 253): the window size (31) and the terminal type (24) are
/// agreed to with WILL (251), and the window size is told at once; anything else is
/// declined with WONT (252).
pub proof fn requests_are_answered(m: FilterState, option: u8, sizes: Seq<(u16, u16)>)
    requires
        m.state == State::Data,
    ensures
        option != 31 ==> run(m, seq![255u8, 253, option], sizes) == (Run {
            next: m,
            data: seq![],
            response: if option == 24 {
                seq![255u8, 251, 24]
            } else {
                seq![255u8, 252, option]
            },
            changes: seq![],
        }),
        run(m, seq![255u8, 253, 31], sizes) == (Run {
            next: FilterState { naws_enabled: true, ..m },
            data: seq![],
            response: seq![255u8, 251, 31] + naws_message(sizes[2].0, sizes[2].1),
            changes: seq![FlagChange::NawsEnabled],
        }),
{
    lemma_negotiation(m, 253, option, sizes);
    lemma_negotiation(m, 253, 31, sizes);
}

/// A window size goes out as columns and then rows, each with its high byte first, between
/// 255 250 31 and 255 240; a byte 255 of it is doubled.
pub proof fn a_window_size_is_four_bytes(cols: u16, rows: u16)
    ensures
        naws_message(cols, rows) == seq![255u8, 250, 31] + doubled(
            seq![(cols / 256) as u8, (cols % 256) as u8, (rows / 256) as u8, (rows % 256) as u8],
        ) + seq![255u8, 240],
        cols % 256 != 255 && cols / 256 != 255 && rows % 256 != 255 && rows / 256 != 255
            ==> naws_message(cols, rows) == seq![
            255u8,
            250,
            31,
            (cols / 256) as u8,
            (cols % 256) as u8,
            (rows / 256) as u8,
            (rows % 256) as u8,
            255,
            240,
        ],
{
    let four = seq![(cols / 256) as u8, (cols % 256) as u8, (rows / 256) as u8, (rows % 256) as u8];
    let three = four.drop_last();
    let two = three.drop_last();
    let one = two.drop_last();
    assert(one.drop_last() =~= seq![]);
    reveal_with_fuel(doubled, 6);
    assert(doubled(four) =~= doubled(three) + (if four[3] == 255 {
        seq![255u8, 255]
    } else {
        seq![four[3]]
    }));
    assert(naws_message(cols, rows) =~= seq![255u8, 250, 31] + doubled(four) + seq![255u8, 240]);
    if cols % 256 != 255 && cols / 256 != 255 && rows % 256 != 255 && rows / 256 != 255 {
        assert(doubled(four) =~= four);
        assert(seq![255u8, 250, 31] + four + seq![255u8, 240] =~= seq![
            255u8,
            250,
            31,
            (cols / 256) as u8,
            (cols % 256) as u8,
            (rows / 256) as u8,
            (rows % 256) as u8,
            255,
            240,
        ]);
    }
}

/// Inside a subnegotiation bytes are collected, and nothing else happens.
proof fn lemma_collected(m: FilterState, payload: Seq<u8>, sizes: Seq<(u16, u16)>)
    requires
        m.state == State::Data,
    ensures
        run(m, seq![255u8, 250] + doubled(payload), sizes) == (Run {
            next: FilterState { state: State::Sb, sb: payload, ..m },
            data: seq![],
            response: seq![],
            changes: seq![],
        }),
    decreases payload.len(),
{
    let head = seq![255u8, 250];
    if payload.len() == 0 {
        lemma_run_push(m, seq![], 255, sizes);
        lemma_run_push(m, seq![255u8], 250, sizes);
        assert(Seq::<u8>::empty().push(255) =~= seq![255u8]);
        assert(seq![255u8].push(250) =~= head);
        assert(head + doubled(payload) =~= head);
        assert(payload =~= seq![]);
    } else {
        let shorter = payload.drop_last();
        let sent = head + doubled(shorter);
        lemma_collected(m, shorter, sizes);
        lemma_run_push(m, sent, payload.last(), sizes);
        assert(shorter.push(payload.last()) =~= payload);
        if payload.last() == 255 {
            lemma_run_push(m, sent.push(255), 255, sizes);
            assert(sent.push(255).push(255) =~= head + doubled(payload));
        } else {
            assert(sent.push(payload.last()) =~= head + doubled(payload));
        }
    }
}

/// A subnegotiation, 255 250 to 255 240 with any byte 255 in it doubled, is not displayed.
/// One that asks for the terminal type (24 1) is answered with it; any other is not
/// answered.
pub proof fn subnegotiations_are_answered(
    m: FilterState,
    payload: Seq<u8>,
    sizes: Seq<(u16, u16)>,
)
    requires
        m.state == State::Data,
    ensures
        run(m, seq![255u8, 250] + doubled(payload) + seq![255u8, 240], sizes) == (Run {
            next: FilterState { sb: payload, ..m },
            data: seq![],
            response: if payload.len() >= 2 && payload[0] == 24 && payload[1] == 1 {
                seq![255u8, 250, 24, 0] + encode_utf8(m.terminal_type) + seq![255u8, 240]
            } else {
                seq![]
            },
            changes: seq![],
        }),
{
    let sent = seq![255u8, 250] + doubled(payload);
    lemma_collected(m, payload, sizes);
    lemma_run_push(m, sent, 255, sizes);
    lemma_run_push(m, sent.push(255), 240, sizes);
    assert(sent.push(255).push(240) =~= sent + seq![255u8, 240]);
}

/// Each of the shared flags is read and stored in its own place.
pub proof fn flags_have_their_places(
    flags: TelnetFlags,
    size: (u16, u16),
    on: bool,
    changes: Seq<FlagChange>,
    k: int,
)
    ensures
        reads_window(flags, size) <==> reads_u16(flags.cols, size.0) && reads_u16(
            flags.rows,
            size.1,
        ),
        stores_window(flags, size) <==> stores_u16(flags.cols, size.0) && stores_u16(
            flags.rows,
            size.1,
        ),
        stores_change(flags, FlagChange::ServerEcho(on)) <==> stores_bool(flags.server_echo, on),
        stores_change(flags, FlagChange::NawsEnabled) <==> stores_bool(flags.naws_enabled, true),
        stores_changes(flags, changes) && 0 <= k < changes.len() ==> stores_change(
            flags,
            changes[k],
        ),
{
}

// ---------------------------------------------------------------------------
// The tasks of a telnet connection
// ---------------------------------------------------------------------------

/// Text and raw bytes are written as they are, the text in UTF-8. A resize is told in four
/// bytes to a server that wants sizes, and to no other; a disconnect ends the writer.
pub proof fn commands_are_written(
    text: Seq<char>,
    bytes: Seq<u8>,
    cols: u16,
    rows: u16,
    wants_size: bool,
)
    ensures
        written(CommandModel::SendText(text), wants_size) == WriterModel::Write(encode_utf8(text)),
        written(CommandModel::SendRaw(bytes), wants_size) == WriterModel::Write(bytes),
        written(CommandModel::Resize(cols, rows), true) == WriterModel::TryWrite(
            seq![255u8, 250, 31] + doubled(
                seq![
                    (cols / 256) as u8,
                    (cols % 256) as u8,
                    (rows / 256) as u8,
                    (rows % 256) as u8,
                ],
            ) + seq![255u8, 240],
        ),
        written(CommandModel::Resize(cols, rows), false) == WriterModel::Nothing,
        written(CommandModel::Disconnect, wants_size) == WriterModel::Stop,
{
    a_window_size_is_four_bytes(cols, rows);
}

/// Text that is read goes to the application as it is, under the connection's id, and
/// nothing is sent back.
pub proof fn text_reaches_the_application(
    flags: TelnetFlags,
    m: FilterState,
    read: ReadResult,
    ran: Run,
    id: u64,
    step: ReaderStep,
)
    requires
        reader_stepped(flags, m, read, ran, id, step),
        m.state == State::Data,
        read is Data,
        !read->Data_0@.contains(255u8),
    ensures
        ran.next == m,
        step.respond is None,
        read->Data_0@.len() == 0 ==> step.event is None,
        read->Data_0@.len() > 0 ==> step.event is Some && event_id(step.event->0) == id
            && step.event->0@ == AppEventModel::NetworkData(read->Data_0@),
{
    let bytes = read->Data_0@;
    let sizes = choose|sizes: Seq<(u16, u16)>|
        super::telnet::sizes_read(flags, m, bytes, sizes) && ran == #[trigger] run(m, bytes, sizes);
    text_is_displayed(m, bytes, sizes);
}

/// What is read is handled byte by byte: what it displays goes to the application under the
/// connection's id, what it answers goes to the writer, and each only where there is any.
/// What it negotiates is stored.
pub proof fn what_is_read_is_passed_on(
    flags: TelnetFlags,
    m: FilterState,
    read: ReadResult,
    ran: Run,
    id: u64,
    step: ReaderStep,
)
    requires
        reader_stepped(flags, m, read, ran, id, step),
        read is Data,
    ensures
        exists|sizes: Seq<(u16, u16)>| ran == #[trigger] run(m, read->Data_0@, sizes),
        stores_changes(flags, ran.changes),
        ran.response.len() == 0 ==> step.respond is None,
        ran.response.len() > 0 ==> step.respond is Some && step.respond->0@ == ran.response,
        ran.data.len() == 0 ==> step.event is None,
        ran.data.len() > 0 ==> step.event is Some && event_id(step.event->0) == id
            && step.event->0@ == AppEventModel::NetworkData(ran.data),
{
}

/// When the stream ends or breaks, the application hears that the connection is over, and
/// why if there is a reason; nothing is sent back.
pub proof fn the_end_is_told(
    flags: TelnetFlags,
    m: FilterState,
    read: ReadResult,
    ran: Run,
    id: u64,
    step: ReaderStep,
)
    requires
        reader_stepped(flags, m, read, ran, id, step),
        !(read is Data),
    ensures
        ran.next == m,
        step.respond is None,
        step.event is Some,
        event_id(step.event->0) == id,
        read is End ==> step.event->0@ == AppEventModel::Disconnected(None),
        read is Failed ==> step.event->0@ == AppEventModel::Disconnected(Some(read->Failed_0@)),
{
    let sizes = choose|sizes: Seq<(u16, u16)>|
        super::telnet::sizes_read(flags, m, seq![], sizes) && ran == #[trigger] run(
            m,
            seq![],
            sizes,
        );
    assert(run(m, seq![], sizes).next == m);
}

/// The application hears why no connection was made, unless one was made or the user gave
/// it up.
pub proof fn failures_to_connect_are_told(result: ConnectResult, host: Seq<char>, port: u16)
    ensures
        failure_reason(result, host, port) == (match result {
            ConnectResult::Failed(e) => Some(e@),
            ConnectResult::TimedOut => Some(
                "Connection"@ + " to "@ + (host + ":"@ + decimal(port as nat)) + " timed out after "@
                    + decimal(30) + "s"@,
            ),
            ConnectResult::Made => None,
            ConnectResult::Cancelled => None,
        }),
        address(host, port) == host + ":"@ + decimal(port as nat),
{
}

// ---------------------------------------------------------------------------
// SSH
// ---------------------------------------------------------------------------

/// Whoever is granted access, without a secret, by any of the keys or by password, goes on
/// to a session: the channel is opened, then a terminal and a shell are asked for, and the
/// session is there.
pub proof fn granted_logins_reach_a_session(
    index: int,
    count: int,
    given_up: bool,
    target: LoginTarget,
)
    ensures
        login_after(LoginModelStep::AuthenticateNone, LoginOutcome::Done, false, target)
            == LoginModelStep::OpenChannel,
        login_after(
            LoginModelStep::AuthenticateKey { index, count },
            LoginOutcome::Done,
            false,
            target,
        ) == LoginModelStep::OpenChannel,
        login_after(LoginModelStep::AuthenticatePassword, LoginOutcome::Done, given_up, target)
            == LoginModelStep::OpenChannel,
        login_after(LoginModelStep::OpenChannel, LoginOutcome::Done, given_up, target)
            == LoginModelStep::RequestPty,
        login_after(LoginModelStep::RequestPty, LoginOutcome::Done, given_up, target)
            == LoginModelStep::RequestShell,
        login_after(LoginModelStep::RequestShell, LoginOutcome::Done, given_up, target)
            == LoginModelStep::Ready,
{
}

/// What comes before a session once the channel can be opened.
proof fn lemma_to_the_session(results: Seq<LoginOutcome>, target: LoginTarget)
    requires
        login_run(results, target) == LoginModelStep::OpenChannel,
    ensures
        login_run(
            results + seq![LoginOutcome::Done, LoginOutcome::Done, LoginOutcome::Done],
            target,
        ) == LoginModelStep::Ready,
{
    let done = LoginOutcome::Done;
    let one = results.push(done);
    let two = one.push(done);
    let three = two.push(done);
    assert(one.drop_last() =~= results);
    assert(two.drop_last() =~= one);
    assert(three.drop_last() =~= two);
    assert(login_run(one, target) == LoginModelStep::RequestPty);
    assert(login_run(two, target) == LoginModelStep::RequestShell);
    assert(login_run(three, target) == LoginModelStep::Ready);
    assert(three =~= results + seq![done, done, done]);
}

/// The keys that were loaded are tried one after another, each once; after the last one
/// the user is asked for a password. With none loaded that is the next step.
pub proof fn keys_are_tried_in_order(
    refused: LoginOutcome,
    keys: int,
    tried: Seq<LoginOutcome>,
    target: LoginTarget,
)
    requires
        !(refused is Done),
        0 <= keys,
        tried.len() <= keys,
        forall|i: int| 0 <= i < tried.len() ==> !(#[trigger] tried[i] is Done),
    ensures
        ({
            let before = seq![LoginOutcome::Done, refused, LoginOutcome::Keys(keys)];
            login_run(before + tried, target) == (if tried.len() < keys {
                LoginModelStep::AuthenticateKey { index: tried.len() as int, count: keys }
            } else {
                LoginModelStep::AskPassword
            })
        }),
    decreases tried.len(),
{
    let first = seq![LoginOutcome::Done];
    let second = seq![LoginOutcome::Done, refused];
    let before = seq![LoginOutcome::Done, refused, LoginOutcome::Keys(keys)];
    if tried.len() == 0 {
        assert(first.drop_last() =~= seq![]);
        assert(second.drop_last() =~= first);
        assert(before.drop_last() =~= second);
        assert(before + tried =~= before);
        assert(login_run(first.drop_last(), target) == LoginModelStep::Connect);
        assert(login_run(first, target) == LoginModelStep::AuthenticateNone);
        assert(login_run(second, target) == LoginModelStep::LoadKeys);
    } else {
        let shorter = tried.drop_last();
        assert forall|i: int| 0 <= i < shorter.len() implies !(#[trigger] shorter[i] is Done) by {
            assert(shorter[i] == tried[i]);
        }
        keys_are_tried_in_order(refused, keys, shorter, target);
        assert((before + tried).drop_last() =~= before + shorter);
        assert((before + tried).last() == tried[tried.len() - 1]);
    }
}

/// Giving up does not interrupt the keys: those that were loaded are tried to the end, and
/// only then, or when one is granted, does the login fail.
pub proof fn keys_are_tried_to_the_end(
    index: int,
    count: int,
    result: LoginOutcome,
    given_up: bool,
    target: LoginTarget,
)
    requires
        0 <= index < count,
    ensures
        ({
            let here = LoginModelStep::AuthenticateKey { index, count };
            let gone = LoginModelStep::Failed("Connection cancelled"@);
            &&& login_after(
                LoginModelStep::LoadKeys,
                LoginOutcome::Keys(count),
                given_up,
                target,
            ) == LoginModelStep::AuthenticateKey { index: 0, count }
            &&& login_after(LoginModelStep::LoadKeys, LoginOutcome::Keys(0), true, target) == gone
            &&& !(result is Done) && index + 1 < count ==> login_after(
                here,
                result,
                given_up,
                target,
            ) == LoginModelStep::AuthenticateKey { index: index + 1, count }
            &&& !(result is Done) && index + 1 == count ==> login_after(here, result, true, target)
                == gone
            &&& login_after(here, LoginOutcome::Done, true, target) == gone
        }),
{
}

/// A login by password: without a secret it is refused, so are all keys that were loaded;
/// the user gives the password, the host grants it, and the session is there.
pub proof fn a_granted_password_logs_in(
    refused: LoginOutcome,
    tried: Seq<LoginOutcome>,
    target: LoginTarget,
)
    requires
        !(refused is Done),
        forall|i: int| 0 <= i < tried.len() ==> !(#[trigger] tried[i] is Done),
    ensures
        login_run(
            seq![LoginOutcome::Done, refused, LoginOutcome::Keys(tried.len() as int)] + tried
                + seq![LoginOutcome::Done, LoginOutcome::Done] + seq![
                LoginOutcome::Done,
                LoginOutcome::Done,
                LoginOutcome::Done,
            ],
            target,
        ) == LoginModelStep::Ready,
{
    let done = LoginOutcome::Done;
    let asked = seq![done, refused, LoginOutcome::Keys(tried.len() as int)] + tried;
    keys_are_tried_in_order(refused, tried.len() as int, tried, target);
    let given = asked.push(done);
    let granted = given.push(done);
    assert(given.drop_last() =~= asked);
    assert(granted.drop_last() =~= given);
    assert(login_run(given, target) == LoginModelStep::AuthenticatePassword);
    assert(login_run(granted, target) == LoginModelStep::OpenChannel);
    assert(granted =~= asked + seq![done, done]);
    lemma_to_the_session(granted, target);
}

/// A login by key: the first key that the host grants leads to the session, and the user
/// is not asked for a password.
pub proof fn a_granted_key_logs_in(
    refused: LoginOutcome,
    keys: int,
    tried: Seq<LoginOutcome>,
    target: LoginTarget,
)
    requires
        !(refused is Done),
        tried.len() < keys,
        forall|i: int| 0 <= i < tried.len() ==> !(#[trigger] tried[i] is Done),
    ensures
        login_run(
            seq![LoginOutcome::Done, refused, LoginOutcome::Keys(keys)] + tried + seq![
                LoginOutcome::Done,
            ] + seq![LoginOutcome::Done, LoginOutcome::Done, LoginOutcome::Done],
            target,
        ) == LoginModelStep::Ready,
{
    let before = seq![LoginOutcome::Done, refused, LoginOutcome::Keys(keys)] + tried;
    keys_are_tried_in_order(refused, keys, tried, target);
    let granted = before.push(LoginOutcome::Done);
    assert(granted.drop_last() =~= before);
    assert(granted =~= before + seq![LoginOutcome::Done]);
    lemma_to_the_session(granted, target);
}

/// A host that grants access without a secret is logged in to at once.
pub proof fn an_open_host_logs_in(target: LoginTarget)
    ensures
        login_run(
            seq![LoginOutcome::Done, LoginOutcome::Done] + seq![
                LoginOutcome::Done,
                LoginOutcome::Done,
                LoginOutcome::Done,
            ],
            target,
        ) == LoginModelStep::Ready,
{
    let one = seq![LoginOutcome::Done];
    let two = seq![LoginOutcome::Done, LoginOutcome::Done];
    assert(one.drop_last() =~= seq![]);
    assert(two.drop_last() =~= one);
    assert(login_run(one.drop_last(), target) == LoginModelStep::Connect);
    assert(login_run(one, target) == LoginModelStep::AuthenticateNone);
    lemma_to_the_session(two, target);
}

/// A login that fails says why: the host's own reason where it gave one; otherwise that
/// the time was up, that the password was refused for this user, that the user withheld
/// it, or that the connection was cancelled. It stays failed. That keys could not be loaded
/// is no failure: the user is asked for a password.
pub proof fn failed_logins_say_why(
    reason: Seq<char>,
    result: LoginOutcome,
    given_up: bool,
    target: LoginTarget,
)
    ensures
        login_after(LoginModelStep::Connect, LoginOutcome::Failed(reason), given_up, target)
            == LoginModelStep::Failed(reason),
        login_after(LoginModelStep::Connect, LoginOutcome::Cancelled, given_up, target)
            == LoginModelStep::Failed("Connection cancelled"@),
        login_after(LoginModelStep::Connect, LoginOutcome::TimedOut, given_up, target)
            == LoginModelStep::Failed(
            "SSH connection"@ + " to "@ + (target.host@ + ":"@ + decimal(target.port as nat))
                + " timed out after "@ + decimal(30) + "s"@,
        ),
        login_after(
            LoginModelStep::AuthenticatePassword,
            LoginOutcome::Refused,
            given_up,
            target,
        ) == LoginModelStep::Failed("Authentication failed for user '"@ + target.user@ + "'"@),
        login_after(
            LoginModelStep::AuthenticatePassword,
            LoginOutcome::Failed(reason),
            given_up,
            target,
        ) == LoginModelStep::Failed(reason),
        !(result is Done) ==> login_after(LoginModelStep::AskPassword, result, given_up, target)
            == LoginModelStep::Failed("Password prompt cancelled"@),
        login_after(LoginModelStep::AskPassword, LoginOutcome::Done, given_up, target)
            == LoginModelStep::AuthenticatePassword,
        !(result is Keys) ==> login_after(LoginModelStep::LoadKeys, result, false, target)
            == LoginModelStep::AskPassword,
        forall|step: LoginModelStep|
            (step is OpenChannel || step is RequestPty || step is RequestShell)
                ==> #[trigger] login_after(step, LoginOutcome::Failed(reason), given_up, target)
                == LoginModelStep::Failed(reason),
        !(result is Done) && !(result is Failed) ==> {
            let cancelled = LoginModelStep::Failed("Connection cancelled"@);
            &&& login_after(LoginModelStep::OpenChannel, result, given_up, target) == cancelled
            &&& login_after(LoginModelStep::RequestPty, result, given_up, target) == cancelled
            &&& login_after(LoginModelStep::RequestShell, result, given_up, target) == cancelled
            &&& login_after(LoginModelStep::AuthenticatePassword, result, given_up, target)
                == LoginModelStep::Failed(
                "Authentication failed for user '"@ + target.user@ + "'"@,
            )
            &&& !(result is TimedOut) ==> login_after(
                LoginModelStep::Connect,
                result,
                given_up,
                target,
            ) == cancelled
        },
        login_after(LoginModelStep::Failed(reason), result, given_up, target)
            == LoginModelStep::Failed(reason),
        login_after(LoginModelStep::Ready, result, given_up, target) == LoginModelStep::Ready,
        login_after(LoginModelStep::Connect, LoginOutcome::Done, true, target)
            == LoginModelStep::Failed("Connection cancelled"@),
        login_after(LoginModelStep::AuthenticateNone, result, true, target)
            == LoginModelStep::Failed("Connection cancelled"@),
{
}

/// The private keys that are tried are `id_ed25519`, `id_ecdsa` and `id_rsa`, in this
/// order.
pub proof fn three_keys_are_looked_for()
    ensures
        key_files().len() == 3,
        key_files()[0] == "id_ed25519"@,
        key_files()[1] == "id_ecdsa"@,
        key_files()[2] == "id_rsa"@,
{
}

/// Spaces before and after a text are trimmed off, and nothing else is.
proof fn lemma_trimmed_padding(before: Seq<char>, name: Seq<char>, after: Seq<char>)
    requires
        forall|i: int| 0 <= i < before.len() ==> #[trigger] before[i] == ' ',
        forall|i: int| 0 <= i < after.len() ==> #[trigger] after[i] == ' ',
        name.len() > 0,
        !is_space(name[0]),
        !is_space(name.last()),
    ensures
        trimmed(before + name + after) == name,
    decreases before.len() + after.len(),
{
    let all = before + name + after;
    if before.len() > 0 {
        assert(all[0] == before[0]);
        let rest = before.skip(1);
        assert forall|i: int| 0 <= i < rest.len() implies #[trigger] rest[i] == ' ' by {
            assert(rest[i] == before[i + 1]);
        }
        assert(all.skip(1) =~= rest + name + after);
        lemma_trimmed_padding(rest, name, after);
    } else if after.len() > 0 {
        assert(all[0] == name[0]);
        assert(all.last() == after[after.len() - 1]);
        let rest = after.drop_last();
        assert forall|i: int| 0 <= i < rest.len() implies #[trigger] rest[i] == ' ' by {
            assert(rest[i] == after[i]);
        }
        let shorter = before + name + rest;
        assert(all.drop_last() =~= shorter);
        assert(shorter[0] == name[0]);
        lemma_trimmed_padding(before, name, rest);
    } else {
        assert(all =~= name);
    }
}

/// The address book's user name logs in, spaces around it aside. Without one it is
/// `$USER`, then `$USERNAME`, where these are neither empty nor `root`; then `user`.
pub proof fn login_names_are_preferred_in_order(
    before: Seq<char>,
    name: Seq<char>,
    after: Seq<char>,
    env: LoginModel,
    first: Seq<char>,
    second: Seq<char>,
)
    requires
        forall|i: int| 0 <= i < before.len() ==> #[trigger] before[i] == ' ',
        forall|i: int| 0 <= i < after.len() ==> #[trigger] after[i] == ' ',
        name.len() > 0,
        !is_space(name[0]),
        !is_space(name.last()),
        first.len() > 0,
        first != "root"@,
        second.len() > 0,
        second != "root"@,
    ensures
        login_name(Some(before + name + after), env) == name,
        login_name(None, LoginModel { user: Some(first), username: env.username }) == first,
        login_name(Some(seq![]), LoginModel { user: Some(first), username: env.username }) == first,
        login_name(None, LoginModel { user: None, username: Some(second) }) == second,
        login_name(None, LoginModel { user: Some("root"@), username: Some(second) }) == second,
        login_name(None, LoginModel { user: Some(seq![]), username: Some(second) }) == second,
        login_name(None, LoginModel { user: None, username: None }) == "user"@,
        login_name(None, LoginModel { user: Some("root"@), username: Some("root"@) }) == "user"@,
{
    lemma_trimmed_padding(before, name, after);
}

/// Text and raw bytes go into the channel as they are, the text in UTF-8; the host is told
/// of a new size; a disconnect, or the end of all commands, closes the channel.
pub proof fn commands_go_into_the_channel(text: Seq<char>, bytes: Seq<u8>, cols: u16, rows: u16)
    ensures
        channel_step(Some(CommandModel::SendText(text))) == ChannelModel::Send(encode_utf8(text)),
        channel_step(Some(CommandModel::SendRaw(bytes))) == ChannelModel::Send(bytes),
        channel_step(Some(CommandModel::Resize(cols, rows))) == ChannelModel::Resize(
            cols as u32,
            rows as u32,
        ),
        channel_step(Some(CommandModel::Disconnect)) == ChannelModel::Close,
        channel_step(None) == ChannelModel::Close,
{
}

/// Output of the session reaches the application as it is, under the connection's id.
pub proof fn session_output_reaches_the_application(
    id: u64,
    message: ChannelMessage,
    step: (Option<AppEvent>, bool),
)
    requires
        call_ensures(on_message, (id, message), step),
    ensures
        match message {
            ChannelMessage::Data(bytes) => {
                &&& !step.1
                &&& step.0 is Some
                &&& step.0->0 is NetworkData
                &&& step.0->0->NetworkData_id == id
                &&& step.0->0->NetworkData_data@ == bytes@
            },
            ChannelMessage::End => step.1 && step.0 is None,
            ChannelMessage::Other => !step.1 && step.0 is None,
        },
{
}

/// Only a yes of the user's trusts a key, and then the key is stored, after those that are
/// there; without a yes nothing is stored.
pub proof fn only_a_yes_stores_a_key(
    known: &mut KnownHosts,
    key: HostKey,
    answer: Option<bool>,
    trusted: bool,
)
    requires
        call_ensures(trust_answered, (known, key, answer), trusted),
    ensures
        trusted <==> answer is Some && answer->0,
        trusted ==> final(known)@ == old(known)@.push(
            HostKeyModel {
                host: key.host@,
                port: key.port,
                key_type: key.key_type@,
                fingerprint: key.fingerprint@,
            },
        ),
        !trusted ==> final(known)@ == old(known)@,
{
}

/// Whether the `i`th stored key is of the same host, port and type.
pub open spec fn stored_for(known: &KnownHosts, i: int, key: &HostKey) -> bool {
    &&& known.entries@[i].host@ == key.host@
    &&& known.entries@[i].port == key.port
    &&& known.entries@[i].key_type@ == key.key_type@
}

/// A host is let in with its stored key, refused with another one, and asked about where
/// none is stored for its host, port and type. The application is told the host and the
/// keys as they are.
pub proof fn hosts_are_let_in_by_their_keys(
    known: &KnownHosts,
    id: u64,
    key: &HostKey,
    file_path: Option<String>,
    step: HostKeyStep,
)
    requires
        call_ensures(check_server_key, (known, id, key, file_path), step),
    ensures
        ({
            let n = known.entries@.len();
            &&& step is Ask <==> forall|i: int| 0 <= i < n ==> !#[trigger] stored_for(known, i, key)
            &&& step is Accept ==> exists|i: int|
                0 <= i < n && #[trigger] stored_for(known, i, key)
                    && known.entries@[i].fingerprint@ == key.fingerprint@
            &&& step is Refuse ==> exists|i: int|
                0 <= i < n && #[trigger] stored_for(known, i, key)
                    && known.entries@[i].fingerprint@ != key.fingerprint@
            &&& match step {
                HostKeyStep::Ask(
                    AppEvent::HostKeyTrustNeeded { id: told, host, port, key_type, fingerprint },
                ) => told == id && host@ == key.host@ && port == key.port && key_type@
                    == key.key_type@ && fingerprint@ == key.fingerprint@,
                HostKeyStep::Refuse(
                    AppEvent::HostKeyMismatch {
                        id: told,
                        host,
                        port,
                        key_type,
                        received_fingerprint,
                        ..
                    },
                ) => told == id && host@ == key.host@ && port == key.port && key_type@
                    == key.key_type@ && received_fingerprint@ == key.fingerprint@,
                HostKeyStep::Accept => true,
                _ => false,
            }
        }),
{
    let wanted = key@;
    let store = known@;
    assert forall|i: int| 0 <= i < known.entries@.len() implies #[trigger] store[i]
        == known.entries@[i]@ by {}
    unknown_keys_have_no_stored_key(store, wanted);
    if verdict(store, wanted) is Unknown {
        assert forall|i: int| 0 <= i < known.entries@.len() implies !#[trigger] stored_for(
            known,
            i,
            key,
        ) by {
            assert(store[i] == known.entries@[i]@);
        }
    } else {
        let at = the_deciding_key(store, wanted);
        assert(store[at] == known.entries@[at]@);
        assert(stored_for(known, at, key));
    }
}

/// The end of a session is told once, with its reason and under the connection's id.
pub proof fn the_end_of_a_session_is_told_once(
    sent: &mut bool,
    id: u64,
    reason: Option<String>,
    event: Option<AppEvent>,
)
    requires
        call_ensures(disconnect_once, (sent, id, reason), event),
    ensures
        *final(sent),
        *old(sent) ==> event is None,
        !*old(sent) ==> {
            &&& event is Some
            &&& event->0 is Disconnected
            &&& event->0->Disconnected_id == id
            &&& reason is Some ==> event->0->Disconnected_reason is Some
                && event->0->Disconnected_reason->0@ == reason->0@
            &&& reason is None ==> event->0->Disconnected_reason is None
        },
{
}

/// A step of a login, and the one after it.
pub proof fn logins_go_step_by_step(
    step: LoginStep,
    result: LoginResult,
    given_up: bool,
    target: &LoginTarget,
    next: LoginStep,
)
    requires
        call_ensures(LoginStep::next, (step, result, given_up, target), next),
    ensures
        next@ == login_after(step@, result@, given_up, *target),
        result is Done && !given_up ==> match step {
            LoginStep::Connect => next is AuthenticateNone,
            LoginStep::AuthenticateNone => next is OpenChannel,
            LoginStep::AuthenticateKey { .. } => next is OpenChannel,
            LoginStep::AskPassword => next is AuthenticatePassword,
            LoginStep::AuthenticatePassword => next is OpenChannel,
            LoginStep::OpenChannel => next is RequestPty,
            LoginStep::RequestPty => next is RequestShell,
            LoginStep::RequestShell => next is Ready,
            LoginStep::Ready => next is Ready,
            LoginStep::Failed(reason) => next is Failed && next->Failed_0@ == reason@,
            LoginStep::LoadKeys => next is AskPassword,
        },
        result is Refused && !given_up ==> match step {
            LoginStep::AuthenticateNone => next is LoadKeys,
            LoginStep::AuthenticateKey { index, count } => if index + 1 < count {
                next is AuthenticateKey && next->index == index + 1 && next->count == count
            } else {
                next is AskPassword
            },
            LoginStep::AuthenticatePassword => next is Failed && next->Failed_0@
                == "Authentication failed for user '"@ + target.user@ + "'"@,
            _ => true,
        },
        step is LoadKeys && result is Keys && result->Keys_0 > 0 ==> next is AuthenticateKey
            && next->index == 0 && next->count == result->Keys_0,
        step is LoadKeys && result is Keys && result->Keys_0 == 0 && !given_up ==> next
            is AskPassword,
{
}

/// What a call of the filter does is what its bytes bring about one by one, from the state
/// that it is in; the window sizes are those that it read.
pub proof fn a_call_handles_byte_after_byte(
    filter: &mut TelnetFilter,
    input: &[u8],
    out: TelnetOutput,
)
    requires
        call_ensures(TelnetFilter::process, (filter, input), out),
    ensures
        final(filter).flags == old(filter).flags,
        stores_changes(*old(filter).flags, out.changes@),
        exists|sizes: Seq<(u16, u16)>|
            {
                let ran = #[trigger] run(
                    FilterState {
                        state: old(filter).state,
                        sb: old(filter).sb_buf@,
                        naws_enabled: old(filter).naws_enabled,
                        terminal_type: old(filter).terminal_type@,
                    },
                    input@,
                    sizes,
                );
                &&& out.data@ == ran.data
                &&& out.response@ == ran.response
                &&& out.changes@ == ran.changes
                &&& final(filter).state == ran.next.state
                &&& final(filter).sb_buf@ == ran.next.sb
                &&& final(filter).naws_enabled == ran.next.naws_enabled
                &&& final(filter).terminal_type@ == ran.next.terminal_type
            },
{
}

/// What a call displays of text with a command of two bytes in it: all but the command.
pub proof fn a_call_displays_all_but_commands(
    filter: &mut TelnetFilter,
    input: &[u8],
    out: TelnetOutput,
    before: Seq<u8>,
    command: u8,
    after: Seq<u8>,
)
    requires
        call_ensures(TelnetFilter::process, (filter, input), out),
        old(filter).state == State::Data,
        command < 250,
        !before.contains(255u8),
        !after.contains(255u8),
        input@ == before + seq![255u8, command] + after,
    ensures
        out.data@ == before + after,
        out.response@.len() == 0,
        out.changes@.len() == 0,
        final(filter).state == State::Data,
{
    a_call_handles_byte_after_byte(filter, input, out);
    let m = FilterState {
        state: old(filter).state,
        sb: old(filter).sb_buf@,
        naws_enabled: old(filter).naws_enabled,
        terminal_type: old(filter).terminal_type@,
    };
    let sizes = choose|sizes: Seq<(u16, u16)>|
        {
            let ran = #[trigger] run(m, input@, sizes);
            &&& out.data@ == ran.data
            &&& out.response@ == ran.response
            &&& out.changes@ == ran.changes
            &&& final(filter).state == ran.next.state
            &&& final(filter).sb_buf@ == ran.next.sb
            &&& final(filter).naws_enabled == ran.next.naws_enabled
            &&& final(filter).terminal_type@ == ran.next.terminal_type
        };
    two_byte_commands_are_skipped(m, before, command, after, sizes);
}

/// A call that is asked for the window size tells one that it read from the shared flags,
/// columns before rows.
pub proof fn a_call_tells_the_window_that_it_read(
    filter: &mut TelnetFilter,
    input: &[u8],
    out: TelnetOutput,
    before: Seq<u8>,
)
    requires
        call_ensures(TelnetFilter::process, (filter, input), out),
        old(filter).state == State::Data,
        !before.contains(255u8),
        input@ == before + seq![255u8, 253, 31],
    ensures
        out.data@ == before,
        stores_bool(old(filter).flags.naws_enabled, true),
        exists|size: (u16, u16)|
            {
                &&& reads_u16(old(filter).flags.cols, size.0)
                &&& reads_u16(old(filter).flags.rows, size.1)
                &&& out.response@ == seq![255u8, 251, 31] + #[trigger] naws_message(size.0, size.1)
            },
{
    let m = old(filter)@;
    let ran = Run {
        next: final(filter)@,
        data: out.data@,
        response: out.response@,
        changes: out.changes@,
    };
    let flags = *old(filter).flags;
    assert(super::telnet::processed(flags, m, input@, ran));
    let sizes = choose|sizes: Seq<(u16, u16)>|
        super::telnet::sizes_read(flags, m, input@, sizes) && ran == #[trigger] run(
            m,
            input@,
            sizes,
        );
    text_is_displayed(m, before, sizes);
    let n = before.len() as int;
    lemma_run_push(m, before, 255, sizes);
    lemma_run_push(m, before.push(255), 253, sizes);
    lemma_run_push(m, before.push(255).push(253), 31, sizes);
    assert(before.push(255).push(253).push(31) =~= input@);
    assert(input@.take(n + 2) =~= before.push(255).push(253));
    assert(input@[n + 2] == 31);
    assert(super::telnet::asks_size(m, input@, sizes, n + 2));
    let size = sizes[n + 2];
    assert(reads_window(flags, size));
    assert(out.response@ =~= seq![255u8, 251, 31] + naws_message(size.0, size.1));
    assert(out.data@ =~= before);
    assert(out.changes@ =~= seq![FlagChange::NawsEnabled]);
    assert(stores_change(flags, out.changes@[0]));
}

/// A fresh filter stands at plain data, has stored the window size and keeps the flags that
/// it shares; fresh flags say that nothing is negotiated, on a window of 80 by 24.
pub proof fn connections_start_with_nothing_negotiated(
    flags: TelnetFlags,
    cols: u16,
    rows: u16,
    shared: Arc<TelnetFlags>,
    name: String,
    filter: TelnetFilter,
)
    requires
        call_ensures(TelnetFlags::new, (), flags),
        call_ensures(TelnetFilter::new, (cols, rows, shared, name), filter),
    ensures
        starts_as_bool(flags.naws_enabled, false),
        starts_as_bool(flags.server_echo, false),
        starts_as_u16(flags.cols, 80),
        starts_as_u16(flags.rows, 24),
        filter.state == State::Data,
        filter.sb_buf@.len() == 0,
        !filter.naws_enabled,
        filter.terminal_type@ == name@,
        filter.flags == shared,
        stores_u16(shared.cols, cols),
        stores_u16(shared.rows, rows),
{
}

/// Whether the server echoes, whether it wants sizes, and the window size, are each read
/// from their own place.
pub proof fn flags_are_read_from_their_places(
    flags: &TelnetFlags,
    echo: bool,
    wanted: bool,
    size: (u16, u16),
)
    requires
        call_ensures(TelnetFlags::echoes, (flags,), echo),
        call_ensures(TelnetFlags::wants_size, (flags,), wanted),
        call_ensures(TelnetFlags::window, (flags,), size),
    ensures
        reads_bool(flags.server_echo, echo),
        reads_bool(flags.naws_enabled, wanted),
        reads_u16(flags.cols, size.0),
        reads_u16(flags.rows, size.1),
{
}

/// A command to a telnet connection is written by what the flags say of window sizes; a new
/// size is stored in them.
pub proof fn a_resize_is_stored_and_told(
    flags: &TelnetFlags,
    command: ConnectionCommand,
    step: WriterStep,
)
    requires
        call_ensures(tcp::on_command, (flags, command), step),
    ensures
        exists|wanted: bool|
            reads_bool(flags.naws_enabled, wanted) && step@ == #[trigger] written(command@, wanted),
        match command {
            ConnectionCommand::Resize(cols, rows) => stores_u16(flags.cols, cols) && stores_u16(
                flags.rows,
                rows,
            ),
            _ => true,
        },
        match command {
            ConnectionCommand::SendText(text) => step is Write && step->Write_0@ == encode_utf8(
                text@,
            ),
            ConnectionCommand::SendRaw(bytes) => step is Write && step->Write_0@ == bytes@,
            ConnectionCommand::Disconnect => step is Stop,
            ConnectionCommand::Resize(_, _) => step is TryWrite || step is Nothing,
        },
{
    let wanted = choose|wanted: bool|
        reads_bool(flags.naws_enabled, wanted) && step@ == #[trigger] written(command@, wanted);
    match command {
        ConnectionCommand::Resize(cols, rows) => {
            commands_are_written(seq![], seq![], cols, rows, wanted);
        },
        ConnectionCommand::SendText(text) => {
            commands_are_written(text@, seq![], 0, 0, wanted);
        },
        ConnectionCommand::SendRaw(bytes) => {
            commands_are_written(seq![], bytes@, 0, 0, wanted);
        },
        ConnectionCommand::Disconnect => {},
    }
}

/// A command to an SSH session goes into its channel.
pub proof fn a_command_goes_into_the_channel(
    command: Option<ConnectionCommand>,
    step: ChannelStep,
)
    requires
        call_ensures(ssh::on_command, (command,), step),
    ensures
        match command {
            Some(ConnectionCommand::SendText(text)) => step is Send && step->Send_0@ == encode_utf8(
                text@,
            ),
            Some(ConnectionCommand::SendRaw(bytes)) => step is Send && step->Send_0@ == bytes@,
            Some(ConnectionCommand::Resize(cols, rows)) => step is Resize && step->Resize_0 == cols
                && step->Resize_1 == rows,
            Some(ConnectionCommand::Disconnect) => step is Close,
            None => step is Close,
        },
{
}

/// A connection that was not made is reported under its id.
pub proof fn a_failure_to_connect_is_reported(
    result: ConnectResult,
    id: u64,
    host: &str,
    port: u16,
    event: Option<AppEvent>,
)
    requires
        call_ensures(tcp::connect_failure, (result, id, host, port), event),
    ensures
        result is Made || result is Cancelled <==> event is None,
        event is Some ==> event_id(event->0) == id && event->0@ == AppEventModel::Disconnected(
            failure_reason(result, host@, port),
        ),
{
}

/// A login starts with the connection, the user's name is the one that is preferred, and
/// the keys that are looked for have their names.
pub proof fn logins_start_with_a_name(
    step: LoginStep,
    configured: Option<&str>,
    env: &LoginNames,
    name: String,
    files: Vec<String>,
)
    requires
        call_ensures(ssh::login, (), step),
        call_ensures(ssh::resolve_ssh_username, (configured, env), name),
        call_ensures(ssh::key_file_names, (), files),
    ensures
        step is Connect,
        configured is Some ==> name@ == login_name(Some(configured->0@), env@),
        configured is None ==> name@ == login_name(None, env@),
        files@.len() == 3,
        files@[0]@ == "id_ed25519"@,
        files@[1]@ == "id_ecdsa"@,
        files@[2]@ == "id_rsa"@,
{
    let names = key_files();
    let listed = crate::text::texts(files@);
    assert(listed == names);
    assert(listed.len() == files@.len());
    assert(listed[0] == files@[0]@ && listed[1] == files@[1]@ && listed[2] == files@[2]@);
}

/// A call of the reader does what it read calls for, and a window-size message is built of
/// four bytes; an address is a host, a colon and a port.
pub proof fn calls_of_a_connection(
    filter: &mut TelnetFilter,
    id: u64,
    read: ReadResult,
    step: ReaderStep,
    cols: u16,
    rows: u16,
    message: Vec<u8>,
    host: &str,
    port: u16,
    text: String,
)
    requires
        call_ensures(tcp::reader_step, (filter, id, read), step),
        call_ensures(build_naws, (cols, rows), message),
        call_ensures(host_address, (host, port), text),
    ensures
        step.stop <==> !(read is Data),
        final(filter).flags == old(filter).flags,
        exists|ran: Run|
            final(filter)@ == ran.next && #[trigger] reader_stepped(
                *old(filter).flags,
                old(filter)@,
                read,
                ran,
                id,
                step,
            ),
        message@ == naws_message(cols, rows),
        text@ == host@ + ":"@ + decimal(port as nat),
{
}

} // verus!
