//! The terminal on screen.

use super::popup::column_after;
use crate::app::model::AppModel;
use crate::app::App;
use crate::entry::InputMode;
use crate::text::{decimal, push_decimal};
use vstd::prelude::*;
use vstd::string::*;

verus! {

/// Where the view is, if it is not at the live output.
pub open spec fn scroll_info(offset: usize) -> Seq<char> {
    if offset > 0 {
        " [scroll: -"@ + decimal(offset as nat) + "]"@
    } else {
        seq![]
    }
}

/// The name of an input mode on the status bar.
pub open spec fn mode_label(mode: InputMode) -> Seq<char> {
    match mode {
        InputMode::Character => "CHAR"@,
        InputMode::LineBuffered => "LINE"@,
    }
}

/// The status bar.
pub open spec fn status_bar(m: AppModel) -> Seq<char> {
    " "@ + m.status + scroll_info(m.emulator.scroll_offset) + " | ["@ + mode_label(m.input_mode)
        + "] Tab: mode | Shift+PgUp/Dn: scroll | Esc: suspend"@
}

/// The status bar: what happened last, where the view is, the mode and some keys.
pub fn status_line(app: &App) -> (line: String)
    ensures
        line@ == status_bar(app@),
{
    let mut line = " ".to_owned();
    line.append(&app.status_message);
    let offset: usize = app.emulator.scroll_offset();
    let ghost before = line@;
    if offset > 0 {
        line.append(" [scroll: -");
        push_decimal(&mut line, offset as u64);
        line.append("]");
    }
    assert(line@ =~= before + scroll_info(offset));
    line.append(" | [");
    match app.input_mode {
        InputMode::Character => line.append("CHAR"),
        InputMode::LineBuffered => line.append("LINE"),
    }
    line.append("] Tab: mode | Shift+PgUp/Dn: scroll | Esc: suspend");
    line
}

/// The badge of a running capture, in front of the status bar.
pub fn capture_badge(app: &App) -> (badge: Option<&'static str>)
    ensures
        match badge {
            Some(b) => app@.capture is Some && b@ == " ● REC "@,
            None => app@.capture is None,
        },
{
    if app.capture.is_some() {
        Some(" ● REC ")
    } else {
        None
    }
}

/// The rows below the terminal: the status bar and, in line mode, the input bar.
pub fn bar_heights(mode: InputMode) -> (heights: (u16, u16))
    ensures
        heights == (match mode {
            InputMode::Character => (1u16, 0u16),
            InputMode::LineBuffered => (1u16, 3u16),
        }),
{
    match mode {
        InputMode::Character => (1, 0),
        InputMode::LineBuffered => (1, 3),
    }
}

/// The input bar.
pub fn input_line(app: &App) -> (line: String)
    ensures
        line@ == "> "@ + app@.line.input,
{
    let mut line = "> ".to_owned();
    line.append(&app.line.input);
    line
}

/// The column of the cursor in an input bar at `x`, `width` columns wide: after the
/// input, and never beyond the bar. Columns are 16 bits wide.
pub open spec fn input_cursor(x: u16, width: u16, input: Seq<char>) -> int {
    let behind = x + 3 + column_after(input);
    let last = x + (if width == 0 {
        0
    } else {
        width - 1
    });
    if behind < last {
        behind
    } else {
        last
    }
}

/// The column of the cursor in an input bar at `x`, `width` columns wide.
pub fn input_cursor_column(x: u16, width: u16, input: &str) -> (column: u16)
    requires
        x + width <= u16::MAX + 1,
    ensures
        column == input_cursor(x, width, input@),
{
    let last: u16 = if width == 0 {
        x
    } else {
        x + (width - 1)
    };
    let behind: u32 = x as u32 + 3 + (input.as_bytes().len() % 65536) as u32;
    if behind < last as u32 {
        behind as u16
    } else {
        last
    }
}

} // verus!
