//! What holds of the terminal: which queries are found, how they are answered, and what
//! becomes of its screen.

use super::ansi_query::{
    completed_by, cursor_report, decimal_bytes, pending_after, pending_after_all, queries_of,
    AnsiQuery, AnsiQueryScanner,
};
use super::emulator::{
    fed, opened, resized, scrolled_down, EmulatorModel, ScrollGuard, TerminalEmulator,
};
use super::responder::{all_drawn, drawn, output, reply};
use super::vt::{vt_cursor, vt_limit, vt_offset, vt_size, VtOp};
use crate::text::decimal;
use vstd::prelude::*;

verus! {

// ---------------------------------------------------------------------------
// Queries
// ---------------------------------------------------------------------------

/// Output without an escape byte (27) holds no query, and leaves none begun.
pub proof fn plain_output_asks_nothing(data: Seq<u8>)
    requires
        !data.contains(27u8),
    ensures
        queries_of(seq![], data) == Seq::<(AnsiQuery, int)>::empty(),
        pending_after_all(seq![], data) == Seq::<u8>::empty(),
    decreases data.len(),
{
    if data.len() > 0 {
        let shorter = data.drop_last();
        assert forall|i: int| 0 <= i < shorter.len() implies shorter[i] != 27 by {
            assert(shorter[i] == data[i]);
        }
        plain_output_asks_nothing(shorter);
        assert(data[data.len() - 1] != 27);
    }
}

/// What a sequence of bytes after plain output leaves begun, and what it asks.
proof fn lemma_asked(before: Seq<u8>, sequence: Seq<u8>)
    requires
        !before.contains(27u8),
    ensures
        pending_after_all(seq![], before + sequence) == pending_after_all(seq![], sequence),
        queries_of(seq![], before + sequence) == queries_of(seq![], sequence).map_values(
            |found: (AnsiQuery, int)| (found.0, found.1 + before.len()),
        ),
{
    plain_output_asks_nothing(before);
    super::ansi_query::pieces_of_a_stream_add_up(seq![], before, sequence);
    assert(queries_of(seq![], before + sequence) =~= queries_of(seq![], sequence).map_values(
        |found: (AnsiQuery, int)| (found.0, found.1 + before.len()),
    ));
}

/// Whether a sequence after plain output asks this, at its end, and nothing else.
pub open spec fn asks(before: Seq<u8>, sequence: Seq<u8>, query: AnsiQuery) -> bool {
    queries_of(seq![], before + sequence) == seq![(query, (before.len() + sequence.len()) as int)]
}

/// One byte after another.
proof fn lemma_push(data: Seq<u8>, b: u8)
    ensures
        pending_after_all(seq![], data.push(b)) == pending_after(
            pending_after_all(seq![], data),
            b,
        ),
        queries_of(seq![], data.push(b)) == (match completed_by(
            pending_after_all(seq![], data),
            b,
        ) {
            Some(q) => queries_of(seq![], data).push((q, data.len() as int + 1)),
            None => queries_of(seq![], data),
        }),
{
    assert(data.push(b).drop_last() =~= data);
}

/// `ESC [`.
proof fn lemma_escape()
    ensures
        pending_after_all(seq![], seq![27u8, 91]) == seq![27u8, 91],
        queries_of(seq![], seq![27u8, 91]) == Seq::<(AnsiQuery, int)>::empty(),
{
    let none = Seq::<u8>::empty();
    lemma_push(none, 27);
    lemma_push(seq![27u8], 91);
    assert(none.push(27) =~= seq![27u8]);
    assert(seq![27u8].push(91) =~= seq![27u8, 91]);
}

/// `ESC [ digit final`.
proof fn lemma_query(digit: u8, last: u8)
    requires
        48 <= digit <= 57,
        last == 99 || last == 110,
    ensures
        queries_of(seq![], seq![27u8, 91, digit, last]) == (if last == 110 && digit == 54 {
            seq![(AnsiQuery::CursorPositionReport, 4int)]
        } else if last == 110 && digit == 53 {
            seq![(AnsiQuery::DeviceStatusOk, 4int)]
        } else if last == 99 && digit == 48 {
            seq![(AnsiQuery::PrimaryDeviceAttributes, 4int)]
        } else {
            seq![]
        }),
{
    lemma_escape();
    lemma_push(seq![27u8, 91], digit);
    assert(seq![27u8, 91].push(digit) =~= seq![27u8, 91, digit]);
    lemma_push(seq![27u8, 91, digit], last);
    assert(seq![27u8, 91, digit].push(last) =~= seq![27u8, 91, digit, last]);
    let params = seq![27u8, 91, digit].skip(2);
    assert(params =~= seq![digit]);
    assert(seq![digit][0] == digit && seq![0x36u8][0] == 0x36 && seq![0x35u8][0] == 0x35
        && seq![0x30u8][0] == 0x30);
    assert(params != Seq::<u8>::empty()) by {
        assert(params.len() == 1);
    }
    let none = Seq::<(AnsiQuery, int)>::empty();
    assert(none.push((AnsiQuery::CursorPositionReport, 4int)) =~= seq![
        (AnsiQuery::CursorPositionReport, 4int),
    ]);
    assert(none.push((AnsiQuery::DeviceStatusOk, 4int)) =~= seq![
        (AnsiQuery::DeviceStatusOk, 4int),
    ]);
    assert(none.push((AnsiQuery::PrimaryDeviceAttributes, 4int)) =~= seq![
        (AnsiQuery::PrimaryDeviceAttributes, 4int),
    ]);
}

/// The host asks for the cursor with `ESC [ 6 n`, for the status with `ESC [ 5 n`, and for
/// the device with `ESC [ c` or `ESC [ 0 c`, wherever these stand in its output. With any
/// other digit these ask nothing.
pub proof fn four_sequences_are_queries(before: Seq<u8>, digit: u8)
    requires
        !before.contains(27u8),
        48 <= digit <= 57,
    ensures
        asks(before, seq![27u8, 91, 54, 110], AnsiQuery::CursorPositionReport),
        asks(before, seq![27u8, 91, 53, 110], AnsiQuery::DeviceStatusOk),
        asks(before, seq![27u8, 91, 99], AnsiQuery::PrimaryDeviceAttributes),
        asks(before, seq![27u8, 91, 48, 99], AnsiQuery::PrimaryDeviceAttributes),
        digit != 54 && digit != 53 ==> queries_of(
            seq![],
            before + seq![27u8, 91, digit, 110],
        ).len() == 0,
        digit != 48 ==> queries_of(seq![], before + seq![27u8, 91, digit, 99]).len() == 0,
{
    lemma_asked(before, seq![27u8, 91, 54, 110]);
    lemma_asked(before, seq![27u8, 91, 53, 110]);
    lemma_asked(before, seq![27u8, 91, 99]);
    lemma_asked(before, seq![27u8, 91, 48, 99]);
    lemma_asked(before, seq![27u8, 91, digit, 110]);
    lemma_asked(before, seq![27u8, 91, digit, 99]);
    lemma_query(54, 110);
    lemma_query(53, 110);
    lemma_query(48, 99);
    lemma_query(digit, 110);
    lemma_query(digit, 99);
    lemma_escape();
    lemma_push(seq![27u8, 91], 99);
    assert(seq![27u8, 91].push(99) =~= seq![27u8, 91, 99]);
    assert(seq![27u8, 91].skip(2) =~= Seq::<u8>::empty());
    let n = before.len() as int;
    assert(queries_of(seq![], before + seq![27u8, 91, 54, 110]) =~= seq![
        (AnsiQuery::CursorPositionReport, n + 4),
    ]);
    assert(queries_of(seq![], before + seq![27u8, 91, 53, 110]) =~= seq![
        (AnsiQuery::DeviceStatusOk, n + 4),
    ]);
    assert(queries_of(seq![], before + seq![27u8, 91, 48, 99]) =~= seq![
        (AnsiQuery::PrimaryDeviceAttributes, n + 4),
    ]);
    assert(queries_of(seq![], before + seq![27u8, 91, 99]) =~= seq![
        (AnsiQuery::PrimaryDeviceAttributes, n + 3),
    ]);
}

/// The cursor is answered as `ESC [ row ; column R`, counted from one and up to 65535, the
/// status as `ESC [ 0 n`, and the device as `ESC [ ? 1 ; 2 c`.
pub proof fn queries_have_their_answers(row: u16, col: u16)
    ensures
        ({
            let one_up = |n: u16|
                if n == 65535 {
                    65535nat
                } else {
                    (n + 1) as nat
                };
            reply(AnsiQuery::CursorPositionReport, (row, col)) == seq![27u8, 91] + decimal_bytes(
                one_up(row),
            ) + seq![59u8] + decimal_bytes(one_up(col)) + seq![82u8]
        }),
        reply(AnsiQuery::DeviceStatusOk, (row, col)) == seq![27u8, 91, 48, 110],
        reply(AnsiQuery::PrimaryDeviceAttributes, (row, col)) == seq![
            27u8,
            91,
            63,
            49,
            59,
            50,
            99,
        ],
        cursor_report(row, col) == reply(AnsiQuery::CursorPositionReport, (row, col)),
{
}

/// Numbers in answers are written in ASCII, digit by digit.
pub proof fn numbers_in_answers_are_decimal(n: nat, digit: nat)
    requires
        digit < 10,
    ensures
        decimal_bytes(digit) == seq![(48 + digit) as u8],
        n > 0 ==> decimal_bytes(10 * n + digit) == decimal_bytes(n).push((48 + digit) as u8),
{
    crate::text::numbers_are_written_in_tens(n, digit);
    assert(((48 + digit) as char) as u8 == (48 + digit) as u8);
    assert(decimal_bytes(digit) =~= seq![(48 + digit) as u8]);
    if n > 0 {
        assert(decimal(10 * n + digit) == decimal(n).push((48 + digit) as char));
        assert(decimal_bytes(10 * n + digit) =~= decimal_bytes(n).push((48 + digit) as u8));
    }
}

/// Output that asks nothing is drawn in one piece and answered with nothing.
pub proof fn plain_output_is_drawn_whole(emulator: EmulatorModel, data: Seq<u8>)
    requires
        data.len() > 0,
    ensures
        all_drawn(emulator, data, seq![]) == (EmulatorModel {
            screen: emulator.screen.push(VtOp::Feed(data)),
            scroll_offset: emulator.scroll_offset,
        }),
        drawn(emulator, data, seq![]).replies.len() == 0,
        all_drawn(emulator, seq![], seq![]) == emulator,
{
    assert(data.subrange(0, data.len() as int) =~= data);
}

/// A query at the end of output is answered once the output is drawn, with the cursor as it
/// is then.
pub proof fn a_query_is_answered_in_its_place(
    emulator: EmulatorModel,
    data: Seq<u8>,
    query: AnsiQuery,
)
    requires
        data.len() > 0,
    ensures
        ({
            let after = EmulatorModel {
                screen: emulator.screen.push(VtOp::Feed(data)),
                scroll_offset: emulator.scroll_offset,
            };
            let asked = seq![(query, data.len() as int)];
            &&& all_drawn(emulator, data, asked) == after
            &&& drawn(emulator, data, asked).replies == seq![
                reply(query, vt_cursor(after.screen)),
            ]
        }),
{
    let asked = seq![(query, data.len() as int)];
    assert(asked.drop_last() =~= seq![]);
    assert(data.subrange(0, data.len() as int) =~= data);
    reveal_with_fuel(drawn, 2);
    assert(drawn(emulator, data, asked).replies =~= seq![
        reply(query, vt_cursor(emulator.screen.push(VtOp::Feed(data)))),
    ]);
}

// ---------------------------------------------------------------------------
// The screen
// ---------------------------------------------------------------------------

/// A new screen has the size and the scrollback that it was made with, and nothing on it.
pub proof fn new_screens_are_empty(rows: u16, cols: u16, lines: usize)
    ensures
        vt_size(opened(rows, cols, lines).screen) == (rows, cols),
        vt_limit(opened(rows, cols, lines).screen) == lines,
        output(opened(rows, cols, lines).screen) == Seq::<u8>::empty(),
        opened(rows, cols, lines).scroll_offset == 0,
{
    assert(opened(rows, cols, lines).screen.drop_last() =~= seq![]);
    reveal_with_fuel(output, 2);
}

/// Output adds to what was there; size, scrollback and view stay.
pub proof fn output_adds_to_the_screen(m: EmulatorModel, data: Seq<u8>)
    requires
        m.screen.len() > 0,
    ensures
        output(fed(m, data).screen) == output(m.screen) + data,
        vt_size(fed(m, data).screen) == vt_size(m.screen),
        vt_limit(fed(m, data).screen) == vt_limit(m.screen),
        fed(m, data).scroll_offset == m.scroll_offset,
{
    assert(fed(m, data).screen.drop_last() =~= m.screen);
}

/// A screen takes on any real size, and no other; what was output, the scrollback and the
/// view stay.
pub proof fn screens_take_on_real_sizes(m: EmulatorModel, rows: u16, cols: u16)
    requires
        m.screen.len() > 0,
    ensures
        rows > 0 && cols > 0 ==> vt_size(resized(m, rows, cols).screen) == (rows, cols),
        rows == 0 || cols == 0 ==> resized(m, rows, cols) == m,
        (rows, cols) == vt_size(m.screen) ==> resized(m, rows, cols) == m,
        output(resized(m, rows, cols).screen) == output(m.screen),
        vt_limit(resized(m, rows, cols).screen) == vt_limit(m.screen),
        resized(m, rows, cols).scroll_offset == m.scroll_offset,
{
    assert(m.screen.push(VtOp::Size { rows, cols }).drop_last() =~= m.screen);
}

/// Scrolling forward goes by as many lines as asked for, and no further than to the live
/// output.
pub proof fn scrolling_forward_ends_at_the_output(m: EmulatorModel, lines: usize)
    ensures
        scrolled_down(m, lines).screen == m.screen,
        lines <= m.scroll_offset ==> scrolled_down(m, lines).scroll_offset + lines
            == m.scroll_offset,
        lines > m.scroll_offset ==> scrolled_down(m, lines).scroll_offset == 0,
{
}

/// A call draws exactly the output that it is handed; scrolling back goes by as many lines
/// as asked for; resizing takes on the size.
pub proof fn calls_change_the_screen(
    drawn_on: &mut TerminalEmulator,
    data: &[u8],
    scrolled: &mut TerminalEmulator,
    lines: usize,
    sized: &mut TerminalEmulator,
    rows: u16,
    cols: u16,
)
    requires
        call_ensures(TerminalEmulator::process, (drawn_on, data), ()),
        call_ensures(TerminalEmulator::scroll_up, (scrolled, lines), ()),
        call_ensures(TerminalEmulator::resize, (sized, rows, cols), ()),
        old(scrolled)@.scroll_offset + lines <= usize::MAX,
        old(sized)@.screen.len() > 0,
        rows > 0,
        cols > 0,
    ensures
        output(final(drawn_on)@.screen) == output(old(drawn_on)@.screen) + data@,
        final(drawn_on)@.scroll_offset == old(drawn_on)@.scroll_offset,
        final(scrolled)@.scroll_offset == old(scrolled)@.scroll_offset + lines,
        final(scrolled)@.screen == old(scrolled)@.screen,
        vt_size(final(sized)@.screen) == (rows, cols),
        output(final(sized)@.screen) == output(old(sized)@.screen),
{
    assert(old(drawn_on)@.screen.push(VtOp::Feed(data@)).drop_last() =~= old(drawn_on)@.screen);
    screens_take_on_real_sizes(old(sized)@, rows, cols);
}

/// A call of the scanner tells the queries that its bytes complete, in order, and goes on
/// from where the call before it stopped.
pub proof fn a_call_tells_the_queries(
    scanner: &mut AnsiQueryScanner,
    data: &[u8],
    found: Vec<AnsiQuery>,
    fresh: AnsiQueryScanner,
    i: int,
)
    requires
        call_ensures(AnsiQueryScanner::scan, (scanner, data), found),
        call_ensures(AnsiQueryScanner::new, (), fresh),
    ensures
        ({
            let queries = queries_of(old(scanner).pending(), data@);
            &&& found@.len() == queries.len()
            &&& 0 <= i < queries.len() ==> found@[i] == queries[i].0
        }),
        final(scanner).pending() == pending_after_all(old(scanner).pending(), data@),
        fresh.pending() == Seq::<u8>::empty(),
{
}

/// Looking back shows the lines that the user has scrolled to, as far as there are any; the
/// screen that is lent is the one in view.
pub proof fn looking_back_shows_the_scrollback(
    emulator: &mut TerminalEmulator,
    guard: ScrollGuard<'_>,
)
    requires
        call_ensures(TerminalEmulator::scroll_view, (emulator,), guard),
    ensures
        old(guard.emulator)@.screen == old(emulator)@.screen.push(
            VtOp::Look(old(emulator)@.scroll_offset),
        ),
        old(guard.emulator)@.scroll_offset == vt_offset(old(guard.emulator)@.screen),
        old(guard.emulator)@.scroll_offset <= old(emulator)@.scroll_offset,
{
}

} // verus!
