//! The terminal emulator: a `vt100` screen and the user's place in its scrollback.

use super::vt::{
    lemma_draws_on, may_be_wide, may_start_wide, same_screen, vt_cursor, vt_cursor_position,
    vt_cut, vt_drawn, vt_draws, vt_draws_on, vt_feed, vt_history, vt_limit, vt_look,
    vt_looking_at, vt_offset, vt_open, vt_ready, vt_resize, vt_screen, vt_size, vt_wide, VtOp,
    VtParser,
};
use vstd::prelude::*;

verus! {

pub struct TerminalEmulator {
    parser: VtParser,
    scroll_offset: usize,
    rows: u16,
    cols: u16,
    wide_seen: bool,
    cut: bool,
}

/// What an emulator holds: its screen, and the lines that the user has scrolled
/// back.
#[verifier::ext_equal]
pub ghost struct EmulatorModel {
    pub screen: Seq<VtOp>,
    pub scroll_offset: usize,
}

impl TerminalEmulator {
    /// What it holds.
    pub closed spec fn view(&self) -> EmulatorModel {
        EmulatorModel { screen: vt_history(self.parser), scroll_offset: self.scroll_offset }
    }
}

/// A fresh emulator.
pub open spec fn opened(rows: u16, cols: u16, scrollback_lines: usize) -> EmulatorModel {
    EmulatorModel {
        screen: seq![VtOp::Open { rows, cols, scrollback: scrollback_lines }],
        scroll_offset: 0,
    }
}

/// The emulator after output. Where the user has scrolled to stays as it is.
pub open spec fn fed(m: EmulatorModel, data: Seq<u8>) -> EmulatorModel {
    EmulatorModel { screen: m.screen.push(VtOp::Feed(data)), ..m }
}

/// Whether a character that takes two columns or more may start at `i`.
fn starts_wide(data: &[u8], i: usize) -> (wide: bool)
    requires
        i < data@.len(),
    ensures
        wide == may_start_wide(data@, i as int),
{
    let b: u8 = data[i];
    if b < 0xe1 || b == 0xee {
        return false;
    }
    if i + 1 < data.len() {
        let second: u8 = data[i + 1];
        if second < 0x80 || second > 0xbf {
            return false;
        }
        if b == 0xe2 && (second <= 0x8b || (0x90 <= second && second <= 0x96)) {
            return false;
        }
        if i + 2 < data.len() {
            let third: u8 = data[i + 2];
            return 0x80 <= third && third <= 0xbf;
        }
    }
    true
}

/// The emulator after a change of size: nothing happens unless the size is a real
/// one and differs.
pub open spec fn resized(m: EmulatorModel, rows: u16, cols: u16) -> EmulatorModel {
    if rows > 0 && cols > 0 && (rows, cols) != vt_size(m.screen) {
        EmulatorModel { screen: m.screen.push(VtOp::Size { rows, cols }), ..m }
    } else {
        m
    }
}

impl TerminalEmulator {
    /// The size and the condition of the screen are known.
    pub closed spec fn wf(&self) -> bool {
        &&& (self.rows, self.cols) == vt_size(self@.screen)
        &&& self.rows > 0
        &&& self.cols > 0
        &&& self.wide_seen == vt_wide(self@.screen)
        &&& self.cut == vt_cut(self@.screen)
        &&& vt_ready(self@.screen) ==> vt_draws_on(self@.screen)
    }

    pub fn new(rows: u16, cols: u16, scrollback_lines: usize) -> (emulator: Self)
        requires
            rows > 0,
            cols > 0,
        ensures
            emulator.wf(),
            emulator@ == opened(rows, cols, scrollback_lines),
    {
        let parser = vt_open(rows, cols, scrollback_lines);
        proof {
            let all = vt_history(parser);
            assert(all.drop_last() =~= seq![]);
            assert(all.last() == VtOp::Open { rows, cols, scrollback: scrollback_lines });
            reveal_with_fuel(vt_wide, 2);
            reveal_with_fuel(vt_cut, 2);
        }
        TerminalEmulator { parser, scroll_offset: 0, rows, cols, wide_seen: false, cut: false }
    }

    /// Whether any output is sure to be drawn: the screen is large enough, and it did
    /// not lose columns that a wide character may have stood in. On another screen it
    /// depends on the output.
    pub fn can_process(&self) -> (sure: bool)
        requires
            self.wf(),
        ensures
            sure == vt_ready(self@.screen),
            sure ==> vt_draws_on(self@.screen),
    {
        self.rows >= 2 && 3 <= self.cols && self.cols <= 65527 && !self.cut
    }

    /// Draws output, which the screen can take.
    ///
    /// The view stays pinned to live output only when the user is already at the
    /// bottom: scrolling up leaves the offset alone, so streaming boards and
    /// keepalives don't yank the view back down.
    pub fn process(&mut self, data: &[u8])
        requires
            old(self).wf(),
            vt_draws(old(self)@.screen, data@),
        ensures
            final(self).wf(),
            final(self)@ == fed(old(self)@, data@),
    {
        let mut wide = false;
        let mut i: usize = 0;
        while i < data.len() && !wide
            invariant
                i <= data@.len(),
                wide ==> may_be_wide(data@),
                !wide ==> forall|j: int| 0 <= j < i ==> !#[trigger] may_start_wide(data@, j),
            decreases data@.len() - i,
        {
            wide = starts_wide(data, i);
            i = i + 1;
        }
        assert(wide == may_be_wide(data@));
        vt_feed(&mut self.parser, data);
        self.wide_seen = self.wide_seen || wide;
        proof {
            assert(self@.screen.drop_last() =~= old(self)@.screen);
            if vt_ready(self@.screen) {
                lemma_draws_on(old(self)@.screen, VtOp::Feed(data@));
            }
        }
    }

    /// Draws output if the screen is sure to take it, and tells whether it did.
    pub fn offer(&mut self, data: &[u8]) -> (done: bool)
        requires
            old(self).wf(),
        ensures
            final(self).wf(),
            done == vt_ready(old(self)@.screen),
            final(self)@ == (if done {
                fed(old(self)@, data@)
            } else {
                old(self)@
            }),
    {
        if !self.can_process() {
            return false;
        }
        assert(self@.screen.take(self@.screen.len() as int) =~= self@.screen);
        assert(same_screen(self@.screen, self@.screen));
        self.process(data);
        true
    }

    /// Current cursor position as (row, col), 0-based. Used by the ANSI query
    /// responder to answer `ESC[6n` (CPR).
    pub fn cursor_position(&self) -> (at: (u16, u16))
        ensures
            at == vt_cursor(self@.screen),
    {
        vt_cursor_position(&self.parser)
    }

    pub fn resize(&mut self, rows: u16, cols: u16)
        requires
            old(self).wf(),
        ensures
            final(self).wf(),
            final(self)@ == resized(old(self)@, rows, cols),
    {
        if rows > 0 && cols > 0 && (rows != self.rows || cols != self.cols) {
            self.cut = self.cut || (self.wide_seen && cols < self.cols);
            self.rows = rows;
            self.cols = cols;
            vt_resize(&mut self.parser, rows, cols);
            assert(self@.screen.drop_last() =~= old(self)@.screen);
        }
    }

    /// Apply the user's scrollback offset and return a guard that resets it on
    /// drop. Render through `guard.screen()`: when the guard goes out of scope the
    /// live view is restored, so any incoming network data lands at the right
    /// place.
    pub fn scroll_view(&mut self) -> (guard: ScrollGuard<'_>)
        requires
            old(self).wf(),
        ensures
            guard.emulator.wf(),
            guard.emulator@.screen == old(self)@.screen.push(
                VtOp::Look(old(self)@.scroll_offset),
            ),
            guard.emulator@.scroll_offset == vt_offset(guard.emulator@.screen),
            guard.emulator@.scroll_offset <= old(self)@.scroll_offset,
            guard.emulator@.scroll_offset <= vt_limit(old(self)@.screen),
            *final(self) == *final(guard.emulator),
    {
        let offset: usize = self.scroll_offset;
        vt_look(&mut self.parser, offset);
        self.scroll_offset = vt_looking_at(&self.parser);
        proof {
            assert(self@.screen.drop_last() =~= old(self)@.screen);
            if vt_ready(self@.screen) {
                lemma_draws_on(old(self)@.screen, VtOp::Look(offset));
            }
        }
        ScrollGuard { emulator: self }
    }

    pub fn scroll_up(&mut self, lines: usize)
        requires
            old(self).wf(),
            old(self)@.scroll_offset + lines <= usize::MAX,
        ensures
            final(self).wf(),
            final(self)@ == (EmulatorModel {
                scroll_offset: (old(self)@.scroll_offset + lines) as usize,
                ..old(self)@
            }),
    {
        self.scroll_offset = self.scroll_offset + lines;
    }

    pub fn scroll_down(&mut self, lines: usize)
        requires
            old(self).wf(),
        ensures
            final(self).wf(),
            final(self)@ == scrolled_down(old(self)@, lines),
    {
        self.scroll_offset = self.scroll_offset.saturating_sub(lines);
    }

    /// How far into the scrollback the screen is looking.
    pub fn scrollback(&self) -> (lines: usize)
        ensures
            lines == vt_offset(self@.screen),
    {
        vt_looking_at(&self.parser)
    }

    pub fn scroll_offset(&self) -> (lines: usize)
        ensures
            lines == self@.scroll_offset,
    {
        self.scroll_offset
    }
}

/// A screen that is large enough, and that did not lose columns that a wide character may
/// have stood in, takes whatever output comes.
pub proof fn ready_screens_take_any_output(emulator: &TerminalEmulator)
    requires
        emulator.wf(),
        vt_ready(emulator@.screen),
    ensures
        vt_draws_on(emulator@.screen),
        forall|data: Seq<u8>| #[trigger] vt_draws(emulator@.screen, data),
{
    let screen = emulator@.screen;
    assert(screen.take(screen.len() as int) =~= screen);
    assert(same_screen(screen, screen));
}

/// The emulator with the view moved towards the live output, at most up to it.
pub open spec fn scrolled_down(m: EmulatorModel, lines: usize) -> EmulatorModel {
    EmulatorModel {
        scroll_offset: if m.scroll_offset < lines {
            0
        } else {
            (m.scroll_offset - lines) as usize
        },
        ..m
    }
}

/// A view into the scrollback. Dropping it puts the live screen in view again.
pub struct ScrollGuard<'a> {
    /// The emulator as it is shown.
    pub emulator: &'a mut TerminalEmulator,
}

impl<'a> ScrollGuard<'a> {
    /// The emulator's screen as it is in view.
    pub fn screen(&self) -> (screen: &vt100::Screen)
        ensures
            *screen == vt_drawn(old(self.emulator)@.screen),
    {
        vt_screen(&self.emulator.parser)
    }
}

impl<'a> Drop for ScrollGuard<'a> {
    fn drop(&mut self)
        ensures
            final(self).emulator@ == (EmulatorModel {
                screen: old(self).emulator@.screen.push(VtOp::Look(0)),
                ..old(self).emulator@
            }),
            vt_offset(final(self).emulator@.screen) == 0,
        opens_invariants none
        no_unwind
    {
        vt_look(&mut self.emulator.parser, 0);
    }
}

} // verus!
