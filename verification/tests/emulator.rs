use nerdterm::terminal::emulator::TerminalEmulator;

fn vt_scrollback(e: &TerminalEmulator) -> usize {
    e.scrollback()
}

#[test]
fn scroll_view_guard_resets_vt_scrollback_on_drop() {
    let mut e = TerminalEmulator::new(24, 80, 1000);
    // Push some scrollback content so the offset isn't clamped to 0.
    for _ in 0..50 {
        e.process(b"line\r\n");
    }
    e.scroll_up(5);
    {
        let _guard = e.scroll_view();
        // While the guard is alive, vt100 scrollback should be non-zero
        // (the renderer reads cells from scrollback through it).
    }
    assert_eq!(
        vt_scrollback(&e),
        0,
        "vt scrollback must reset to 0 when guard drops",
    );
}

#[test]
fn scroll_view_guard_exposes_screen() {
    // The whole point of the guard is to render off scrolled-back cells.
    let mut e = TerminalEmulator::new(24, 80, 1000);
    e.process(b"hello");
    let guard = e.scroll_view();
    // Cursor should be at column 5 row 0 after "hello".
    let screen = guard.screen();
    let (row, col) = screen.cursor_position();
    assert_eq!((row, col), (0, 5));
}

#[test]
fn process_does_not_reset_scroll_when_scrolled_up() {
    let mut e = TerminalEmulator::new(24, 80, 1000);
    for _ in 0..50 {
        e.process(b"line\r\n");
    }
    e.scroll_up(10);
    let offset = e.scroll_offset();
    assert!(offset > 0);
    e.process(b"more data\r\n");
    assert_eq!(
        e.scroll_offset(),
        offset,
        "inbound data must not snap scrollback to the bottom"
    );
}

#[test]
fn process_keeps_offset_zero_when_at_bottom() {
    let mut e = TerminalEmulator::new(24, 80, 1000);
    e.process(b"hello\r\n");
    assert_eq!(e.scroll_offset(), 0);
    e.process(b"world\r\n");
    assert_eq!(e.scroll_offset(), 0);
}

#[test]
fn resize_zero_dimensions_are_ignored() {
    let mut e = TerminalEmulator::new(24, 80, 100);
    e.resize(0, 80);
    e.resize(24, 0);
    e.resize(0, 0);
    // Still the original size — process should not panic.
    e.process(b"x");
    assert_eq!(e.cursor_position(), (0, 1));
}

#[test]
fn resize_same_size_is_noop_different_size_applies() {
    let mut e = TerminalEmulator::new(24, 80, 100);
    e.resize(24, 80); // same
    e.process(b"\x1b[1;1Hab");
    assert_eq!(e.cursor_position(), (0, 2));
    e.resize(12, 40);
    // After resize the parser accepts the new geometry; writing still works.
    e.process(b"z");
    let (row, col) = e.cursor_position();
    assert!(row < 12, "row {row} should be within new height");
    assert!(col < 40, "col {col} should be within new width");
}

#[test]
fn scroll_up_overshoot_clamps_via_scroll_view() {
    let mut e = TerminalEmulator::new(5, 40, 20);
    for _ in 0..10 {
        e.process(b"line\r\n");
    }
    e.scroll_up(10_000);
    {
        let _g = e.scroll_view();
    }
    // scroll_view reads vt100's clamped scrollback and stores it back.
    assert!(
        e.scroll_offset() <= 20,
        "offset {} must clamp to available scrollback",
        e.scroll_offset()
    );
}

#[test]
fn size_probe_moves_cursor_before_cpr_sample() {
    // Common BBS pattern: CUP to far corner then CPR.
    let mut e = TerminalEmulator::new(24, 80, 100);
    e.process(b"\x1b[999;999H");
    let (row, col) = e.cursor_position();
    // vt100 clamps to bottom-right (23, 79) 0-based.
    assert_eq!((row, col), (23, 79));
}

#[test]
fn only_screens_of_some_size_are_sure_to_take_output() {
    assert!(TerminalEmulator::new(2, 3, 0).can_process());
    assert!(!TerminalEmulator::new(1, 80, 0).can_process());
    assert!(!TerminalEmulator::new(24, 2, 0).can_process());
    assert!(!TerminalEmulator::new(24, 65528, 0).can_process());
    let mut small = TerminalEmulator::new(1, 80, 0);
    assert!(!small.offer(b"x"));
    assert_eq!(small.cursor_position(), (0, 0));
    small.process(b"x");
    assert_eq!(small.cursor_position(), (0, 1));
    let mut large = TerminalEmulator::new(2, 80, 0);
    assert!(large.offer(b"x"));
    assert_eq!(large.cursor_position(), (0, 1));
}

#[test]
fn a_screen_that_may_have_lost_half_a_character_is_not_sure_to_take_output() {
    let mut e = TerminalEmulator::new(24, 80, 0);
    e.process("日本".as_bytes());
    e.resize(24, 90);
    assert!(e.can_process());
    e.resize(24, 89);
    assert!(!e.can_process());
    let mut plain = TerminalEmulator::new(24, 80, 0);
    plain.process("über".as_bytes());
    plain.resize(24, 40);
    assert!(plain.can_process());
}

#[test]
fn characters_that_are_taken_for_narrow_are() {
    let mut e = TerminalEmulator::new(24, 80, 0);
    let blocks = [(0x20, 0x0fff), (0x2000, 0x22ff), (0x2400, 0x25bf), (0xe000, 0xefff)];
    for (first, last) in blocks {
        for n in first..=last {
            if let Some(c) = char::from_u32(n) {
                e.process(b"\x1b[1;1H");
                e.process(c.to_string().as_bytes());
                let (row, col) = e.cursor_position();
                assert!(row == 0 && col <= 1, "U+{n:04X} moved the cursor to {row}, {col}");
            }
        }
    }
    e.resize(24, 79);
    assert!(e.can_process());
}

#[test]
fn wide_characters_are_taken_for_wide() {
    let mut e = TerminalEmulator::new(24, 80, 0);
    for n in 0x20..=0x10ffffu32 {
        if let Some(c) = char::from_u32(n) {
            e.process(b"\x1b[1;1H");
            e.process(c.to_string().as_bytes());
            if e.cursor_position().1 > 1 {
                let mut fresh = TerminalEmulator::new(2, 10, 0);
                fresh.process(c.to_string().as_bytes());
                fresh.resize(2, 9);
                assert!(!fresh.can_process(), "U+{n:04X}");
            }
        }
    }
}

#[test]
fn a_wide_character_in_two_pieces_is_wide() {
    let bytes = "日".as_bytes();
    for cut in 0..=bytes.len() {
        let mut e = TerminalEmulator::new(24, 80, 0);
        e.process(&bytes[..cut]);
        e.process(&bytes[cut..]);
        assert_eq!(e.cursor_position(), (0, 2));
        e.resize(24, 79);
        assert!(!e.can_process());
    }
    let watch = "\u{231a}".as_bytes();
    let mut e = TerminalEmulator::new(24, 80, 0);
    e.process(&watch[..1]);
    e.process(&watch[1..]);
    e.resize(24, 79);
    assert!(!e.can_process());
    let mut boxes = TerminalEmulator::new(24, 80, 0);
    boxes.process("┌─┐│█▒\u{e0b0}".as_bytes());
    boxes.process(b"\xe1x\xf4\xdb\xe9\xb0\xdb\xe3\xb0\r\n");
    boxes.resize(24, 40);
    assert!(boxes.can_process());
}

#[test]
fn any_output_is_taken_on_the_smallest_screen() {
    let pieces: [&[u8]; 24] = [
        b"a", b"\r\n", b"\n", b"\x08", b"\t", "日".as_bytes(), "é".as_bytes(), b"\xcc\x81",
        b"\x1b[2;3H", b"\x1b[1;2r", b"\x1b[r", b"\x1b[?6h", b"\x1b[?6l", b"\x1b[?1049h",
        b"\x1b[?1049l", b"\x1b[9@", b"\x1b[2P", b"\x1b[3X", b"\x1b[2L", b"\x1b[2M", b"\x1b[S",
        b"\x1b[T", b"\x1bM", b"\x1b[K",
    ];
    let mut seed: u32 = 12345;
    for (rows, cols) in [(2u16, 3u16), (2, 4), (3, 5), (24, 80)] {
        let mut e = TerminalEmulator::new(rows, cols, 5);
        for _ in 0..20_000 {
            seed = seed.wrapping_mul(1_664_525).wrapping_add(1_013_904_223);
            e.process(pieces[(seed >> 16) as usize % pieces.len()]);
            let (row, col) = e.cursor_position();
            assert!(row < rows && col <= cols);
        }
    }
}

#[test]
fn the_view_goes_back_and_comes_forward() {
    let mut e = TerminalEmulator::new(5, 40, 20);
    for i in 0..30 {
        e.process(format!("line {i}\r\n").as_bytes());
    }
    assert_eq!(e.scrollback(), 0);
    e.scroll_up(7);
    {
        let guard = e.scroll_view();
        assert_eq!(guard.emulator.scrollback(), 7);
        assert_eq!(guard.screen().contents().lines().next(), Some("line 19"));
    }
    assert_eq!(e.scrollback(), 0);
    e.scroll_down(3);
    assert_eq!(e.scroll_offset(), 4);
    e.scroll_down(100);
    assert_eq!(e.scroll_offset(), 0);
}

#[test]
fn any_narrow_output_is_taken_while_the_screen_changes_size() {
    let pieces: [&[u8]; 28] = [
        b"abc", b"\r\n", b"\n", b"\x08", b"\t", "é".as_bytes(), b"\xcc\x81", b"\x1b[9;9H",
        b"\x1b[1;2r", b"\x1b[2;9r", b"\x1b[r", b"\x1b[?6h", b"\x1b[?6l", b"\x1b[?1049h",
        b"\x1b[?1049l", b"\x1b7", b"\x1b8", b"\x1b[9@", b"\x1b[2P", b"\x1b[3X", b"\x1b[2L",
        b"\x1b[2M", b"\x1b[S", b"\x1b[T", b"\x1bM", b"\x1b[J", b"\x1b[1J", b"\x1bc",
    ];
    let sizes = [(2u16, 3u16), (3, 9), (24, 80), (10, 4), (5, 40)];
    let mut seed: u32 = 777;
    let mut e = TerminalEmulator::new(24, 80, 10);
    for _ in 0..100_000 {
        seed = seed.wrapping_mul(1_664_525).wrapping_add(1_013_904_223);
        let pick = (seed >> 16) as usize;
        if pick % 50 == 0 {
            let (rows, cols) = sizes[(pick / 50) % sizes.len()];
            e.resize(rows, cols);
        } else {
            e.process(pieces[pick % pieces.len()]);
        }
        if pick % 97 == 0 {
            e.scroll_up(3);
            let guard = e.scroll_view();
            assert!(!guard.screen().contents().contains('\u{fffd}'));
        }
    }
    assert!(e.can_process());
}

#[test]
fn any_output_is_taken_while_the_screen_widens() {
    let pieces: [&[u8]; 14] = [
        "日本語".as_bytes(), "한".as_bytes(), b"a", b"\r\n", b"\x08", b"\x1b[2;2H", b"\x1b[1@",
        b"\x1b[1P", b"\x1b[1X", b"\x1b[K", b"\x1b[1K", b"\x1bM", b"\x1b[?1049h", b"\x1b[?1049l",
    ];
    let mut seed: u32 = 4242;
    let mut e = TerminalEmulator::new(6, 3, 10);
    for i in 0..40_000u32 {
        seed = seed.wrapping_mul(1_664_525).wrapping_add(1_013_904_223);
        let pick = (seed >> 16) as usize;
        e.process(pieces[pick % pieces.len()]);
        if i % 400 == 0 {
            e.resize(2 + (pick % 7) as u16, 3 + (i / 400) as u16);
        }
    }
    assert!(e.can_process());
}
