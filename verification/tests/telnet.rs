use nerdterm::network::telnet::{
    TelnetFilter, TelnetFlags, DO, IAC, OPT_NAWS, OPT_TERMINAL_TYPE, SB, SE,
};
use std::sync::atomic::Ordering;
use std::sync::Arc;

fn new_filter(cols: u16, rows: u16) -> TelnetFilter {
    TelnetFilter::new(
        cols,
        rows,
        Arc::new(TelnetFlags::new()),
        "XTERM-256COLOR".into(),
    )
}

fn naws_payload_present(response: &[u8], cols: u16, rows: u16) -> bool {
    let mut needle = Vec::new();
    needle.extend_from_slice(&cols.to_be_bytes());
    needle.extend_from_slice(&rows.to_be_bytes());
    response
        .windows(needle.len())
        .any(|w| w == needle.as_slice())
}

#[test]
fn naws_response_uses_initial_dimensions() {
    let mut f = new_filter(132, 50);
    let out = f.process(&[IAC, DO, OPT_NAWS]);
    assert!(
        naws_payload_present(&out.response, 132, 50),
        "expected NAWS payload with 132x50, got {:?}",
        out.response,
    );
}

#[test]
fn naws_response_reflects_resized_dimensions() {
    // A resize reaches the filter through the shared flags, which it re-reads
    // on every NAWS response.
    let flags = Arc::new(TelnetFlags::new());
    let mut f = TelnetFilter::new(80, 24, flags.clone(), "XTERM-256COLOR".into());
    flags.cols.store(100, Ordering::Relaxed);
    flags.rows.store(40, Ordering::Relaxed);
    let out = f.process(&[IAC, DO, OPT_NAWS]);
    assert!(
        naws_payload_present(&out.response, 100, 40),
        "expected NAWS payload with 100x40 after resize, got {:?}",
        out.response,
    );
}

#[test]
fn iac_inside_subneg_followed_by_garbage_does_not_swallow_later_data() {
    // Only IAC IAC and IAC SE are valid inside a subnegotiation; anything else
    // aborts it, and later bytes are plain data again.
    let mut f = new_filter(80, 24);
    let input = [
        b'A',
        IAC,
        SB,
        OPT_TERMINAL_TYPE,
        0xAB,
        IAC,
        0xF1, // NOP inside subneg — invalid, must abort cleanly
        b'B',
    ];
    let out = f.process(&input);
    assert!(
        out.data.contains(&b'A'),
        "leading 'A' missing from {:?}",
        out.data
    );
    assert!(
        out.data.contains(&b'B'),
        "data after aborted subneg was swallowed; got data={:?}",
        out.data,
    );
}

#[test]
fn well_formed_subneg_still_works_after_fix() {
    let mut f = new_filter(80, 24);
    // Server asks for terminal type: IAC SB TT SEND IAC SE
    let out = f.process(&[IAC, SB, OPT_TERMINAL_TYPE, 1, IAC, SE]);
    // Response should include "XTERM-256COLOR"
    let response_str = String::from_utf8_lossy(&out.response);
    assert!(
        response_str.contains("XTERM-256COLOR"),
        "expected terminal-type response, got {:?}",
        out.response,
    );
}

#[test]
fn iac_iac_inside_subneg_is_literal_ff() {
    // Sanity: this case must keep working — IAC IAC inside SB = data byte 0xFF.
    let mut f = new_filter(80, 24);
    // Subneg with embedded literal 0xFF, then properly terminated.
    // We can't easily inspect sb_buf from outside, so just verify it doesn't
    // panic and the next data byte still flows through.
    let input = [IAC, SB, OPT_TERMINAL_TYPE, IAC, IAC, IAC, SE, b'Z'];
    let out = f.process(&input);
    assert!(out.data.contains(&b'Z'), "got data={:?}", out.data);
}

#[test]
fn subneg_response_uses_configured_terminal_type() {
    let flags = Arc::new(TelnetFlags::new());
    let mut f = TelnetFilter::new(80, 24, flags, "ANSI".into());
    let out = f.process(&[IAC, SB, OPT_TERMINAL_TYPE, 1, IAC, SE]);
    let response_str = String::from_utf8_lossy(&out.response);
    assert!(
        response_str.contains("ANSI"),
        "expected configured terminal type in response, got {:?}",
        out.response,
    );
    assert!(
        !response_str.contains("XTERM-256COLOR"),
        "default terminal type leaked through; response={:?}",
        out.response,
    );
}
