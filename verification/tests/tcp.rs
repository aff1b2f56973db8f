use nerdterm::events::{AppEvent, ConnectionCommand};
use nerdterm::network::tcp::{
    connect_failure, on_command, reader_step, writer_step, ReadResult, WriterStep,
};
use nerdterm::network::telnet::{
    build_naws, FlagChange, TelnetFilter, TelnetFlags, DO, DONT, IAC, OPT_ECHO, OPT_NAWS,
    OPT_TERMINAL_TYPE, SB, SE, WILL, WONT,
};
use nerdterm::network::{host_address, ConnectResult, CONNECT_TIMEOUT};
use std::sync::atomic::Ordering;
use std::sync::Arc;

fn filter() -> TelnetFilter {
    TelnetFilter::new(80, 24, Arc::new(TelnetFlags::new()), "xterm".into())
}

#[test]
fn connection_failures_say_why() {
    assert_eq!(host_address("h", 23), "h:23");
    assert_eq!(CONNECT_TIMEOUT, 30);
    match connect_failure(ConnectResult::TimedOut, 7, "bbs.example", 23) {
        Some(AppEvent::Disconnected { id: 7, reason: Some(r) }) => {
            assert_eq!(r, "Connection to bbs.example:23 timed out after 30s");
        }
        _ => panic!("expected a reason"),
    }
    match connect_failure(ConnectResult::Failed("refused".into()), 7, "h", 23) {
        Some(AppEvent::Disconnected { id: 7, reason: Some(r) }) => assert_eq!(r, "refused"),
        _ => panic!("expected a reason"),
    }
    assert!(connect_failure(ConnectResult::Cancelled, 7, "h", 23).is_none());
    assert!(connect_failure(ConnectResult::Made, 7, "h", 23).is_none());
}

#[test]
fn the_reader_separates_data_from_negotiation() {
    let mut f = filter();
    let step = reader_step(&mut f, 2, ReadResult::Data(vec![b'h', IAC, WILL, OPT_ECHO, b'i']));
    assert_eq!(step.respond.as_deref(), Some(&[IAC, DO, OPT_ECHO][..]));
    assert!(matches!(&step.event, Some(AppEvent::NetworkData { id: 2, data }) if data == b"hi"));
    assert!(!step.stop);
    assert!(f.flags.echoes());

    let quiet = reader_step(&mut f, 2, ReadResult::Data(vec![IAC]));
    assert!(quiet.respond.is_none());
    assert!(quiet.event.is_none());
    assert!(!quiet.stop);
}

#[test]
fn the_reader_stops_at_the_end() {
    let mut f = filter();
    let end = reader_step(&mut f, 2, ReadResult::End);
    assert!(end.stop);
    assert!(matches!(end.event, Some(AppEvent::Disconnected { id: 2, reason: None })));
    let failed = reader_step(&mut f, 2, ReadResult::Failed("reset".into()));
    assert!(failed.stop);
    assert!(matches!(&failed.event,
        Some(AppEvent::Disconnected { id: 2, reason: Some(r) }) if r == "reset"));
}

#[test]
fn the_writer_turns_commands_into_bytes() {
    let text = writer_step(ConnectionCommand::SendText("hi\r\n".into()), false);
    assert!(matches!(&text, WriterStep::Write(b) if b == b"hi\r\n"));
    let raw = writer_step(ConnectionCommand::SendRaw(vec![0xff]), false);
    assert!(matches!(&raw, WriterStep::Write(b) if b == &[0xff]));
    let unwanted = writer_step(ConnectionCommand::Resize(100, 40), false);
    assert!(matches!(unwanted, WriterStep::Nothing));
    let wanted = writer_step(ConnectionCommand::Resize(100, 40), true);
    assert!(matches!(&wanted, WriterStep::TryWrite(b)
        if b == &[IAC, SB, OPT_NAWS, 0, 100, 0, 40, IAC, SE]));
    assert!(matches!(writer_step(ConnectionCommand::Disconnect, true), WriterStep::Stop));
}

#[test]
fn a_resize_is_stored_and_told_once_the_server_wants_it() {
    let flags = TelnetFlags::new();
    assert_eq!(flags.window(), (80, 24));
    assert!(matches!(on_command(&flags, ConnectionCommand::Resize(100, 40)), WriterStep::Nothing));
    assert_eq!(flags.window(), (100, 40));
    flags.apply(FlagChange::NawsEnabled);
    assert!(flags.wants_size());
    assert!(matches!(
        on_command(&flags, ConnectionCommand::Resize(90, 30)),
        WriterStep::TryWrite(_)
    ));
    flags.apply(FlagChange::ServerEcho(true));
    assert!(flags.server_echo.load(Ordering::Relaxed));
    flags.apply(FlagChange::ServerEcho(false));
    assert!(!flags.echoes());
}

#[test]
fn window_sizes_double_the_escape_byte() {
    assert_eq!(build_naws(255, 24), [IAC, SB, OPT_NAWS, 0, 255, 255, 0, 24, IAC, SE]);
    assert_eq!(
        build_naws(0xffff, 0x0100),
        [IAC, SB, OPT_NAWS, 255, 255, 255, 255, 1, 0, IAC, SE],
    );
}

#[test]
fn options_are_agreed_to_or_refused() {
    let answer = |bytes: &[u8]| filter().process(bytes).response;
    assert_eq!(answer(&[IAC, WILL, OPT_ECHO]), [IAC, DO, OPT_ECHO]);
    assert_eq!(answer(&[IAC, WILL, 3]), [IAC, DO, 3]);
    assert_eq!(answer(&[IAC, WILL, 99]), [IAC, DONT, 99]);
    assert_eq!(answer(&[IAC, DO, OPT_TERMINAL_TYPE]), [IAC, WILL, OPT_TERMINAL_TYPE]);
    assert_eq!(answer(&[IAC, DO, 99]), [IAC, WONT, 99]);
    assert_eq!(
        answer(&[IAC, DO, OPT_NAWS]),
        [IAC, WILL, OPT_NAWS, IAC, SB, OPT_NAWS, 0, 80, 0, 24, IAC, SE],
    );
    assert!(answer(&[IAC, WONT, 99]).is_empty());
    assert!(answer(&[IAC, DONT, 99]).is_empty());
    assert_eq!(
        answer(&[IAC, SB, OPT_TERMINAL_TYPE, 1, IAC, SE]),
        [IAC, SB, OPT_TERMINAL_TYPE, 0, b'x', b't', b'e', b'r', b'm', IAC, SE],
    );
}

#[test]
fn a_stream_may_come_in_any_pieces() {
    let stream = [
        b'a', IAC, IAC, IAC, WILL, OPT_ECHO, b'b', IAC, SB, 24, 1, IAC, SE, IAC, DO, 99, b'c',
    ];
    let whole = filter().process(&stream);
    let mut bytewise = filter();
    let mut data = Vec::new();
    let mut response = Vec::new();
    let mut changes = Vec::new();
    for b in stream {
        let out = bytewise.process(&[b]);
        data.extend(out.data);
        response.extend(out.response);
        changes.extend(out.changes);
    }
    assert_eq!(data, whole.data);
    assert_eq!(response, whole.response);
    assert_eq!(changes, whole.changes);
    assert_eq!(whole.data, [b'a', 0xff, b'b', b'c']);
    assert_eq!(whole.changes, [FlagChange::ServerEcho(true)]);
}

#[test]
fn the_flags_hold_what_was_negotiated() {
    let flags = Arc::new(TelnetFlags::new());
    let mut f = TelnetFilter::new(132, 43, flags.clone(), "xterm".into());
    assert_eq!(flags.window(), (132, 43));
    let out = f.process(&[IAC, WILL, OPT_ECHO, IAC, WONT, OPT_ECHO, IAC, DO, OPT_NAWS]);
    assert_eq!(
        out.changes,
        [FlagChange::ServerEcho(true), FlagChange::ServerEcho(false), FlagChange::NawsEnabled],
    );
    assert!(!flags.echoes());
    assert!(flags.wants_size());
    assert_eq!(
        out.response,
        [
            IAC, DO, OPT_ECHO, IAC, WILL, OPT_NAWS, IAC, SB, OPT_NAWS, 0, 132, 0, 43, IAC, SE,
        ],
    );
    assert!(matches!(
        on_command(&flags, ConnectionCommand::Resize(258, 1)),
        WriterStep::TryWrite(b) if b == [IAC, SB, OPT_NAWS, 1, 2, 0, 1, IAC, SE]
    ));
    assert_eq!(flags.window(), (258, 1));
}

#[test]
fn window_sizes_may_be_asked_for_in_any_pieces() {
    let stream = [b'a', IAC, DO, OPT_NAWS, b'b', IAC, WILL, OPT_ECHO, IAC, DO, OPT_NAWS];
    let mut g = TelnetFilter::new(100, 255, Arc::new(TelnetFlags::new()), "xterm".into());
    let whole = g.process(&stream);
    for cut in 0..=stream.len() {
        let mut f = TelnetFilter::new(100, 255, Arc::new(TelnetFlags::new()), "xterm".into());
        let first = f.process(&stream[..cut]);
        let second = f.process(&stream[cut..]);
        assert_eq!([first.data, second.data].concat(), whole.data);
        assert_eq!([first.response, second.response].concat(), whole.response);
        assert_eq!([first.changes, second.changes].concat(), whole.changes);
        assert_eq!(f.state, g.state);
        assert_eq!(f.flags.window(), g.flags.window());
        assert!(f.flags.echoes() && f.flags.wants_size());
    }
}
