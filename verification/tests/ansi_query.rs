use nerdterm::terminal::ansi_query::{
    cpr_response, da_response, dsr_ok_response, AnsiQuery, AnsiQueryScanner,
};

#[test]
fn detects_cpr_query() {
    let mut s = AnsiQueryScanner::new();
    assert_eq!(s.scan(b"\x1b[6n"), vec![AnsiQuery::CursorPositionReport]);
}

#[test]
fn detects_dsr_status_query() {
    let mut s = AnsiQueryScanner::new();
    assert_eq!(s.scan(b"\x1b[5n"), vec![AnsiQuery::DeviceStatusOk]);
}

#[test]
fn detects_da_query_no_param() {
    let mut s = AnsiQueryScanner::new();
    assert_eq!(
        s.scan(b"\x1b[c"),
        vec![AnsiQuery::PrimaryDeviceAttributes],
    );
}

#[test]
fn detects_da_query_zero_param() {
    let mut s = AnsiQueryScanner::new();
    assert_eq!(
        s.scan(b"\x1b[0c"),
        vec![AnsiQuery::PrimaryDeviceAttributes],
    );
}

#[test]
fn ignores_unrelated_csi() {
    let mut s = AnsiQueryScanner::new();
    // Clear screen, set color, move cursor — none should produce a query.
    assert!(s.scan(b"\x1b[2J\x1b[31m\x1b[24;1H").is_empty());
}

#[test]
fn detects_query_among_other_data() {
    let mut s = AnsiQueryScanner::new();
    assert_eq!(
        s.scan(b"hello\x1b[6nworld"),
        vec![AnsiQuery::CursorPositionReport],
    );
}

#[test]
fn detects_query_split_across_reads() {
    let mut s = AnsiQueryScanner::new();
    assert!(s.scan(b"\x1b").is_empty());
    assert!(s.scan(b"[").is_empty());
    assert!(s.scan(b"6").is_empty());
    assert_eq!(s.scan(b"n"), vec![AnsiQuery::CursorPositionReport]);
}

#[test]
fn detects_multiple_queries_in_one_buffer() {
    let mut s = AnsiQueryScanner::new();
    assert_eq!(
        s.scan(b"\x1b[6n\x1b[5n"),
        vec![
            AnsiQuery::CursorPositionReport,
            AnsiQuery::DeviceStatusOk,
        ],
    );
}

#[test]
fn does_not_match_dsr_with_unsupported_param() {
    let mut s = AnsiQueryScanner::new();
    assert!(s.scan(b"\x1b[7n").is_empty());
}

#[test]
fn does_not_match_dec_private_query() {
    // ESC[?6n is DEC private (asks about mode 6, origin), NOT CPR.
    let mut s = AnsiQueryScanner::new();
    assert!(s.scan(b"\x1b[?6n").is_empty());
}

#[test]
fn does_not_match_multi_param_dsr() {
    // ESC[6;7n is not a recognized CPR variant.
    let mut s = AnsiQueryScanner::new();
    assert!(s.scan(b"\x1b[6;7n").is_empty());
}

#[test]
fn esc_aborts_in_progress_csi() {
    // Mid-sequence ESC must restart, not poison the next CSI.
    let mut s = AnsiQueryScanner::new();
    assert_eq!(
        s.scan(b"\x1b[\x1b[6n"),
        vec![AnsiQuery::CursorPositionReport],
    );
}

#[test]
fn cpr_response_is_one_based() {
    assert_eq!(cpr_response(0, 0), b"\x1b[1;1R");
    assert_eq!(cpr_response(23, 79), b"\x1b[24;80R");
}

#[test]
fn dsr_ok_response_is_csi_0n() {
    assert_eq!(dsr_ok_response(), b"\x1b[0n");
}

#[test]
fn da_response_is_vt102_advanced() {
    assert_eq!(da_response(), b"\x1b[?1;2c");
}
