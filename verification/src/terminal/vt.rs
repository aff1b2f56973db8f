//! The screen that `vt100` keeps. A screen is known by what has been done to it;
//! what a cell shows after that is `vt100`'s business.

use vstd::prelude::*;

verus! {

/// `vt100::Screen`, opaque here: it is handed on to the renderer.
#[verifier::external_type_specification]
#[verifier::external_body]
pub struct ExScreen(vt100::Screen);

/// A `vt100::Parser`: an escape-sequence parser and the screen that it draws on.
#[verifier::external_body]
pub struct VtParser {
    inner: vt100::Parser,
}

/// One thing done to a screen.
pub ghost enum VtOp {
    /// It was made.
    Open { rows: u16, cols: u16, scrollback: usize },
    /// It was handed output. How output is cut into pieces is part of the record.
    Feed(Seq<u8>),
    /// It was given a size.
    Size { rows: u16, cols: u16 },
    /// The view was moved into the scrollback.
    Look(usize),
}

/// What has been done to a screen so far, in order.
pub uninterp spec fn vt_history(parser: VtParser) -> Seq<VtOp>;

/// The cursor of a screen with this history, row and column, from zero.
pub uninterp spec fn vt_cursor(history: Seq<VtOp>) -> (u16, u16);

/// How far into the scrollback a screen with this history is looking.
pub uninterp spec fn vt_offset(history: Seq<VtOp>) -> usize;

/// The screen itself, as `vt100` draws it from this history.
pub uninterp spec fn vt_drawn(history: Seq<VtOp>) -> vt100::Screen;

/// Whether `vt100::Parser::process` draws this output on a screen with this history:
/// it comes back, and no number in it overflows on the way.
pub uninterp spec fn vt_draws(history: Seq<VtOp>, data: Seq<u8>) -> bool;

/// The most lines that a screen with this history keeps in its scrollback.
pub open spec fn vt_limit(history: Seq<VtOp>) -> usize {
    if history.len() > 0 {
        match history[0] {
            VtOp::Open { scrollback, .. } => scrollback,
            _ => 0,
        }
    } else {
        0
    }
}

/// Whether a screen is large enough for any output: with one row a wrapped line
/// underflows the row number, with fewer than three columns a wide character does not
/// fit, and a tab beyond column 65527 overflows.
pub open spec fn vt_fits(rows: u16, cols: u16) -> bool {
    rows >= 2 && 3 <= cols <= 65527
}

/// Whether the byte at `i`, if it is there, can go on with a character of UTF-8.
pub open spec fn may_continue(data: Seq<u8>, i: int) -> bool {
    i < data.len() ==> 0x80 <= data[i] <= 0xbf
}

/// Whether a character that takes two columns or more may start at `i`. None of these
/// comes before U+1100, which UTF-8 starts with 0xE1, nor between U+2000 and U+22FF or
/// U+2400 and U+25BF, which start with 0xE2 and a byte that tells so, nor among the
/// private ones that start with 0xEE. At least two more bytes belong to it.
pub open spec fn may_start_wide(data: Seq<u8>, i: int) -> bool {
    &&& data[i] >= 0xe1 && data[i] != 0xee
    &&& may_continue(data, i + 1) && may_continue(data, i + 2)
    &&& !(data[i] == 0xe2 && i + 1 < data.len() && (data[i + 1] <= 0x8b || 0x90 <= data[i + 1]
        <= 0x96))
}

/// Whether output can hold the start of a character that takes two columns or more.
pub open spec fn may_be_wide(data: Seq<u8>) -> bool {
    exists|i: int| 0 <= i < data.len() && #[trigger] may_start_wide(data, i)
}

/// The size that the history ends with.
pub open spec fn vt_size(history: Seq<VtOp>) -> (u16, u16)
    decreases history.len(),
{
    if history.len() == 0 {
        (0, 0)
    } else {
        match history.last() {
            VtOp::Open { rows, cols, .. } => (rows, cols),
            VtOp::Size { rows, cols } => (rows, cols),
            _ => vt_size(history.drop_last()),
        }
    }
}

/// Whether output that may hold a wide character came in.
pub open spec fn vt_wide(history: Seq<VtOp>) -> bool
    decreases history.len(),
{
    history.len() > 0 && (vt_wide(history.drop_last()) || match history.last() {
        VtOp::Feed(data) => may_be_wide(data),
        _ => false,
    })
}

/// Whether the screen lost columns after such output. The left half of a wide
/// character may then stand in the last column, where `vt100` looks for the right
/// half beyond the end of the row.
pub open spec fn vt_cut(history: Seq<VtOp>) -> bool
    decreases history.len(),
{
    history.len() > 0 && {
        let before = history.drop_last();
        vt_cut(before) || match history.last() {
            VtOp::Size { rows, cols } => vt_wide(before) && cols < vt_size(before).1,
            _ => false,
        }
    }
}

/// Whether a screen with this history is sure to take any output: it is large enough,
/// and did not lose columns that a wide character may have stood in. Others may take
/// it too.
pub open spec fn vt_ready(history: Seq<VtOp>) -> bool {
    vt_fits(vt_size(history).0, vt_size(history).1) && !vt_cut(history)
}

/// Whether `later` is `history` with nothing after it but output, and looks into the
/// scrollback.
pub open spec fn same_screen(history: Seq<VtOp>, later: Seq<VtOp>) -> bool {
    &&& history.len() <= later.len()
    &&& later.take(history.len() as int) == history
    &&& forall|i: int|
        history.len() <= i < later.len() ==> (#[trigger] later[i]) is Feed || later[i] is Look
}

/// Whether a screen with this history takes whatever output comes, in any number of
/// pieces, as long as its size stays.
pub open spec fn vt_draws_on(history: Seq<VtOp>) -> bool {
    forall|later: Seq<VtOp>, data: Seq<u8>|
        same_screen(history, later) ==> #[trigger] vt_draws(later, data)
}

/// A screen that takes whatever comes does so after more output, or another look.
pub proof fn lemma_draws_on(history: Seq<VtOp>, op: VtOp)
    requires
        vt_draws_on(history),
        op is Feed || op is Look,
    ensures
        vt_draws_on(history.push(op)),
{
    let longer = history.push(op);
    assert forall|later: Seq<VtOp>, data: Seq<u8>| same_screen(longer, later) implies #[trigger] vt_draws(
        later,
        data,
    ) by {
        assert(later.take(history.len() as int) =~= later.take(longer.len() as int).take(
            history.len() as int,
        ));
        assert(longer.take(history.len() as int) =~= history);
        assert(later[history.len() as int] == later.take(longer.len() as int)[history.len() as int]);
        assert(same_screen(history, later));
    }
}

/// `vt100::Parser::new` makes a screen of the given size and scrollback, and
/// nothing has been done to it yet. It computes `rows - 1`, so it needs a row, and
/// a column for the cursor to stand in. If the screen is large enough,
/// `vt100::Parser::process` draws any output on it: each of its steps stays inside the
/// rows and columns.
#[verifier::external_body]
pub(crate) fn vt_open(rows: u16, cols: u16, scrollback: usize) -> (parser: VtParser)
    requires
        rows > 0,
        cols > 0,
    ensures
        vt_history(parser) == seq![VtOp::Open { rows, cols, scrollback }],
        vt_ready(vt_history(parser)) ==> forall|later: Seq<VtOp>, data: Seq<u8>|
            same_screen(vt_history(parser), later) ==> #[trigger] vt_draws(later, data),
{
    VtParser { inner: vt100::Parser::new(rows, cols, scrollback) }
}

/// `vt100::Parser::process` draws the output on the screen, where it can.
#[verifier::external_body]
pub(crate) fn vt_feed(parser: &mut VtParser, data: &[u8])
    requires
        vt_draws(vt_history(*old(parser)), data@),
    ensures
        vt_history(*final(parser)) == vt_history(*old(parser)).push(VtOp::Feed(data@)),
{
    parser.inner.process(data);
}

/// `vt100::Screen::set_size` gives the screen another size. It computes `rows - 1`
/// and `cols - 1`. If the screen is then large enough and has never lost columns that a
/// wide character may have stood in, `vt100::Parser::process` draws any output on it.
#[verifier::external_body]
pub(crate) fn vt_resize(parser: &mut VtParser, rows: u16, cols: u16)
    requires
        rows > 0,
        cols > 0,
    ensures
        vt_history(*final(parser)) == vt_history(*old(parser)).push(VtOp::Size { rows, cols }),
        vt_ready(vt_history(*final(parser))) ==> forall|later: Seq<VtOp>, data: Seq<u8>|
            same_screen(vt_history(*final(parser)), later) ==> #[trigger] vt_draws(later, data),
{
    parser.inner.screen_mut().set_size(rows, cols);
}

/// `vt100::Screen::set_scrollback` moves the view; the position is clamped to what
/// the scrollback holds, which is never more than the screen was made with.
#[verifier::external_body]
pub(crate) fn vt_look(parser: &mut VtParser, lines: usize)
    ensures
        vt_history(*final(parser)) == vt_history(*old(parser)).push(VtOp::Look(lines)),
        vt_offset(vt_history(*final(parser))) <= lines,
        vt_offset(vt_history(*final(parser))) <= vt_limit(vt_history(*old(parser))),
    opens_invariants none
    no_unwind
{
    parser.inner.screen_mut().set_scrollback(lines);
}

/// `vt100::Screen::scrollback` tells where the view is.
#[verifier::external_body]
pub(crate) fn vt_looking_at(parser: &VtParser) -> (lines: usize)
    ensures
        lines == vt_offset(vt_history(*parser)),
{
    parser.inner.screen().scrollback()
}

/// `vt100::Screen::cursor_position` tells the cursor's row and column, from zero.
#[verifier::external_body]
pub(crate) fn vt_cursor_position(parser: &VtParser) -> (at: (u16, u16))
    ensures
        at == vt_cursor(vt_history(*parser)),
{
    parser.inner.screen().cursor_position()
}

/// `vt100::Parser::screen` lends the parser's own screen: the one that its history
/// has drawn. What the cells show is left unsaid.
#[verifier::external_body]
pub(crate) fn vt_screen(parser: &VtParser) -> (screen: &vt100::Screen)
    ensures
        *screen == vt_drawn(vt_history(*parser)),
{
    parser.inner.screen()
}

} // verus!
