//! Telnet protocol constants and state machine filter.
//!
//! Strips IAC sequences from the data stream, responds to negotiations, and
//! passes only clean display data through to the terminal emulator.

use std::sync::atomic::{AtomicBool, AtomicU16, Ordering};
use std::sync::Arc;
use vstd::prelude::*;
use vstd::slice::*;
use vstd::string::*;
use vstd::utf8::*;

verus! {

/// Interpret as command: opens every telnet sequence.
pub const IAC: u8 = 0xFF;

pub const WILL: u8 = 0xFB;

pub const WONT: u8 = 0xFC;

pub const DO: u8 = 0xFD;

pub const DONT: u8 = 0xFE;

/// Opens a subnegotiation.
pub const SB: u8 = 0xFA;

/// Closes a subnegotiation.
pub const SE: u8 = 0xF0;

pub const OPT_ECHO: u8 = 1;

pub const OPT_SUPPRESS_GO_AHEAD: u8 = 3;

/// Negotiate about window size.
pub const OPT_NAWS: u8 = 31;

pub const OPT_TERMINAL_TYPE: u8 = 24;

/// Where the filter stands within a telnet sequence.
#[derive(Debug, Clone, Copy, PartialEq, Eq, Structural)]
pub enum State {
    Data,
    Iac,
    Will,
    Wont,
    Do,
    Dont,
    Sb,
    SbIac,
}

/// Output from processing a chunk of bytes.
pub struct TelnetOutput {
    /// Clean data to display.
    pub data: Vec<u8>,
    /// Response bytes to send back to the server.
    pub response: Vec<u8>,
    /// The changes of the negotiated state, in order, as they were stored in the
    /// shared flags.
    pub changes: Vec<FlagChange>,
}

/// A change of the negotiated state that the rest of the session has to see.
#[derive(Debug, Clone, Copy, PartialEq, Eq, Structural)]
pub enum FlagChange {
    /// The server took over echoing, or gave it up.
    ServerEcho(bool),
    /// The server wants to be told of window sizes.
    NawsEnabled,
}

/// What one byte brought about.
pub struct Reaction {
    /// The byte to display, if any.
    pub data: Option<u8>,
    /// Response bytes to send back to the server.
    pub response: Vec<u8>,
    /// The negotiated state that changed, if any.
    pub change: Option<FlagChange>,
}

/// The high and the low byte of a 16-bit number.
pub open spec fn be_bytes(n: u16) -> (u8, u8) {
    ((n / 256) as u8, (n % 256) as u8)
}

/// A byte as it stands inside a telnet sequence: a literal 0xFF is doubled.
pub open spec fn escaped(b: u8) -> Seq<u8> {
    if b == IAC {
        seq![IAC, IAC]
    } else {
        seq![b]
    }
}

/// A 16-bit number, high byte first, as it stands inside a subnegotiation.
pub open spec fn escaped_u16(n: u16) -> Seq<u8> {
    escaped(be_bytes(n).0) + escaped(be_bytes(n).1)
}

/// The subnegotiation that tells a window size.
pub open spec fn naws_message(cols: u16, rows: u16) -> Seq<u8> {
    seq![IAC, SB, OPT_NAWS] + escaped_u16(cols) + escaped_u16(rows) + seq![IAC, SE]
}

/// The subnegotiation that tells the terminal type.
pub open spec fn terminal_type_message(name: Seq<char>) -> Seq<u8> {
    seq![IAC, SB, OPT_TERMINAL_TYPE, 0] + encode_utf8(name) + seq![IAC, SE]
}

fn push_escaped(out: &mut Vec<u8>, byte: u8)
    ensures
        final(out)@ == old(out)@ + escaped(byte),
{
    out.push(byte);
    if byte == IAC {
        out.push(IAC);
    }
    assert(out@ =~= old(out)@ + escaped(byte));
}

fn push_bytes(out: &mut Vec<u8>, bytes: &[u8])
    ensures
        final(out)@ == old(out)@ + bytes@,
{
    let mut i: usize = 0;
    while i < bytes.len()
        invariant
            i <= bytes@.len(),
            out@ == old(out)@ + bytes@.take(i as int),
        decreases bytes@.len() - i,
    {
        out.push(bytes[i]);
        assert(bytes@.take(i + 1) =~= bytes@.take(i as int).push(bytes@[i as int]));
        i = i + 1;
    }
    assert(bytes@.take(i as int) =~= bytes@);
}

/// Build a NAWS subnegotiation payload for the given dimensions.
pub fn build_naws(cols: u16, rows: u16) -> (out: Vec<u8>)
    ensures
        out@ == naws_message(cols, rows),
{
    let mut out: Vec<u8> = vec![IAC, SB, OPT_NAWS];
    push_escaped(&mut out, (cols / 256) as u8);
    push_escaped(&mut out, (cols % 256) as u8);
    push_escaped(&mut out, (rows / 256) as u8);
    push_escaped(&mut out, (rows % 256) as u8);
    out.push(IAC);
    out.push(SE);
    assert(out@ =~= naws_message(cols, rows));
    out
}

/// Shared negotiation state between the reader (telnet filter) and the app/writer.
/// Terminal dimensions live here too so the writer can update them when the user
/// resizes and the reader picks up the latest size when answering NAWS.
pub struct TelnetFlags {
    pub naws_enabled: AtomicBool,
    pub server_echo: AtomicBool,
    pub cols: AtomicU16,
    pub rows: AtomicU16,
}

/// Whether `cell` is one that `AtomicBool::new` makes of `value`.
pub open spec fn starts_as_bool(cell: AtomicBool, value: bool) -> bool {
    call_ensures(AtomicBool::new, (value,), cell)
}

/// Whether `cell` is one that `AtomicU16::new` makes of `value`.
pub open spec fn starts_as_u16(cell: AtomicU16, value: u16) -> bool {
    call_ensures(AtomicU16::new, (value,), cell)
}

/// Whether a read of `cell` can give `value`. Which value it gives is up to the tasks
/// that share the cell.
pub open spec fn reads_bool(cell: AtomicBool, value: bool) -> bool {
    call_ensures(AtomicBool::load, (&cell, Ordering::Relaxed), value)
}

/// Whether a read of `cell` can give `value`. Which value it gives is up to the tasks
/// that share the cell.
pub open spec fn reads_u16(cell: AtomicU16, value: u16) -> bool {
    call_ensures(AtomicU16::load, (&cell, Ordering::Relaxed), value)
}

/// Whether `value` was stored in `cell`. Whoever shares the cell may store another one
/// after that.
pub open spec fn stores_bool(cell: AtomicBool, value: bool) -> bool {
    call_ensures(AtomicBool::store, (&cell, value, Ordering::Relaxed), ())
}

/// Whether `value` was stored in `cell`. Whoever shares the cell may store another one
/// after that.
pub open spec fn stores_u16(cell: AtomicU16, value: u16) -> bool {
    call_ensures(AtomicU16::store, (&cell, value, Ordering::Relaxed), ())
}

/// Whether a read of the window size, columns first, can give `size`.
pub open spec fn reads_window(flags: TelnetFlags, size: (u16, u16)) -> bool {
    reads_u16(flags.cols, size.0) && reads_u16(flags.rows, size.1)
}

/// Whether a window size was stored, columns first.
pub open spec fn stores_window(flags: TelnetFlags, size: (u16, u16)) -> bool {
    stores_u16(flags.cols, size.0) && stores_u16(flags.rows, size.1)
}

/// Whether a negotiated change was stored.
pub open spec fn stores_change(flags: TelnetFlags, change: FlagChange) -> bool {
    match change {
        FlagChange::ServerEcho(on) => stores_bool(flags.server_echo, on),
        FlagChange::NawsEnabled => stores_bool(flags.naws_enabled, true),
    }
}

/// Whether each of these changes was stored.
pub open spec fn stores_changes(flags: TelnetFlags, changes: Seq<FlagChange>) -> bool {
    forall|k: int| 0 <= k < changes.len() ==> stores_change(flags, #[trigger] changes[k])
}

impl TelnetFlags {
    /// Nothing negotiated yet, on a window of 80 by 24. What the fields hold later
    /// depends on the tasks that share them, so nothing is stated of it.
    pub fn new() -> (flags: TelnetFlags)
        ensures
            starts_as_bool(flags.naws_enabled, false),
            starts_as_bool(flags.server_echo, false),
            starts_as_u16(flags.cols, 80),
            starts_as_u16(flags.rows, 24),
    {
        let make_bool = AtomicBool::new;
        let make_u16 = AtomicU16::new;
        TelnetFlags {
            naws_enabled: make_bool(false),
            server_echo: make_bool(false),
            cols: make_u16(80),
            rows: make_u16(24),
        }
    }

    /// Whether the server echoes what is typed, as of now.
    pub fn echoes(&self) -> (echo: bool)
        ensures
            reads_bool(self.server_echo, echo),
    {
        let load = AtomicBool::load;
        load(&self.server_echo, Ordering::Relaxed)
    }

    /// Whether the server wants to be told of window sizes, as of now.
    pub fn wants_size(&self) -> (wanted: bool)
        ensures
            reads_bool(self.naws_enabled, wanted),
    {
        let load = AtomicBool::load;
        load(&self.naws_enabled, Ordering::Relaxed)
    }

    /// The window size as of now, columns first.
    pub fn window(&self) -> (size: (u16, u16))
        ensures
            reads_window(*self, size),
    {
        let load = AtomicU16::load;
        (load(&self.cols, Ordering::Relaxed), load(&self.rows, Ordering::Relaxed))
    }

    /// Stores the window size for whoever reads it next.
    pub fn set_window(&self, cols: u16, rows: u16)
        ensures
            stores_window(*self, (cols, rows)),
    {
        let store = AtomicU16::store;
        store(&self.cols, cols, Ordering::Relaxed);
        store(&self.rows, rows, Ordering::Relaxed);
    }

    /// Stores a negotiated change for whoever reads it next.
    pub fn apply(&self, change: FlagChange)
        ensures
            stores_change(*self, change),
    {
        let store = AtomicBool::store;
        match change {
            FlagChange::ServerEcho(on) => {
                store(&self.server_echo, on, Ordering::Relaxed);
            },
            FlagChange::NawsEnabled => {
                store(&self.naws_enabled, true, Ordering::Relaxed);
            },
        }
    }
}

/// The filter's own state, apart from the flags that it shares.
#[verifier::ext_equal]
pub ghost struct FilterState {
    pub state: State,
    /// What the open subnegotiation has brought so far.
    pub sb: Seq<u8>,
    pub naws_enabled: bool,
    pub terminal_type: Seq<char>,
}

/// What one byte brings about, and the state it leaves.
#[verifier::ext_equal]
pub ghost struct Step {
    pub next: FilterState,
    pub data: Seq<u8>,
    pub response: Seq<u8>,
    pub change: Option<FlagChange>,
}

/// The state that the byte after an IAC leads to, within or outside a
/// subnegotiation.
pub open spec fn after_command(byte: u8) -> State {
    if byte == WILL {
        State::Will
    } else if byte == WONT {
        State::Wont
    } else if byte == DO {
        State::Do
    } else if byte == DONT {
        State::Dont
    } else if byte == SB {
        State::Sb
    } else {
        State::Data
    }
}

/// The answer to an option that the server offers to use.
pub open spec fn will_answer(option: u8) -> Seq<u8> {
    if option == OPT_ECHO || option == OPT_SUPPRESS_GO_AHEAD {
        seq![IAC, DO, option]
    } else {
        seq![IAC, DONT, option]
    }
}

/// The answer to an option that the server asks this side to use.
pub open spec fn do_answer(option: u8, size: (u16, u16)) -> Seq<u8> {
    if option == OPT_NAWS {
        seq![IAC, WILL, OPT_NAWS] + naws_message(size.0, size.1)
    } else if option == OPT_TERMINAL_TYPE {
        seq![IAC, WILL, OPT_TERMINAL_TYPE]
    } else {
        seq![IAC, WONT, option]
    }
}

/// The answer to a complete subnegotiation.
pub open spec fn subnegotiation_answer(sb: Seq<u8>, terminal_type: Seq<char>) -> Seq<u8> {
    if sb.len() >= 2 && sb[0] == OPT_TERMINAL_TYPE && sb[1] == 1 {
        terminal_type_message(terminal_type)
    } else {
        seq![]
    }
}

/// The change that `byte` negotiates in state `state`, if any.
pub open spec fn negotiated(state: State, byte: u8) -> Option<FlagChange> {
    match state {
        State::Will => if byte == OPT_ECHO {
            Some(FlagChange::ServerEcho(true))
        } else {
            None
        },
        State::Wont => if byte == OPT_ECHO {
            Some(FlagChange::ServerEcho(false))
        } else {
            None
        },
        State::Do => if byte == OPT_NAWS {
            Some(FlagChange::NawsEnabled)
        } else {
            None
        },
        _ => None,
    }
}

/// What `byte` brings about in state `m`, on a window of `size` (columns, rows).
pub open spec fn react(m: FilterState, byte: u8, size: (u16, u16)) -> Step {
    let quiet = Step {
        next: m,
        data: seq![],
        response: seq![],
        change: negotiated(m.state, byte),
    };
    match m.state {
        State::Data => if byte == IAC {
            Step { next: FilterState { state: State::Iac, ..m }, ..quiet }
        } else {
            Step { data: seq![byte], ..quiet }
        },
        State::Iac => if byte == IAC {
            Step { next: FilterState { state: State::Data, ..m }, data: seq![IAC], ..quiet }
        } else {
            let sb = if byte == SB {
                seq![]
            } else {
                m.sb
            };
            Step { next: FilterState { state: after_command(byte), sb, ..m }, ..quiet }
        },
        State::Will => Step {
            next: FilterState { state: State::Data, ..m },
            response: will_answer(byte),
            ..quiet
        },
        State::Wont => Step { next: FilterState { state: State::Data, ..m }, ..quiet },
        State::Do => Step {
            next: FilterState {
                state: State::Data,
                naws_enabled: m.naws_enabled || byte == OPT_NAWS,
                ..m
            },
            response: do_answer(byte, size),
            ..quiet
        },
        State::Dont => Step { next: FilterState { state: State::Data, ..m }, ..quiet },
        State::Sb => if byte == IAC {
            Step { next: FilterState { state: State::SbIac, ..m }, ..quiet }
        } else {
            Step { next: FilterState { sb: m.sb.push(byte), ..m }, ..quiet }
        },
        State::SbIac => if byte == SE {
            Step {
                next: FilterState { state: State::Data, ..m },
                response: subnegotiation_answer(m.sb, m.terminal_type),
                ..quiet
            }
        } else if byte == IAC {
            Step { next: FilterState { state: State::Sb, sb: m.sb.push(IAC), ..m }, ..quiet }
        } else {
            // Only IAC SE and IAC IAC are valid inside a subnegotiation. Any
            // other command aborts it and counts as if it stood alone.
            Step { next: FilterState { state: after_command(byte), sb: seq![], ..m }, ..quiet }
        },
    }
}

/// What a run of bytes brings about, and the state it leaves.
#[verifier::ext_equal]
pub ghost struct Run {
    pub next: FilterState,
    pub data: Seq<u8>,
    pub response: Seq<u8>,
    pub changes: Seq<FlagChange>,
}

/// What comes of no bytes.
pub open spec fn nothing_ran(m: FilterState) -> Run {
    Run { next: m, data: seq![], response: seq![], changes: seq![] }
}

/// One reaction after the other; `sizes` holds the window size as it was when
/// each byte was handled.
pub open spec fn run(m: FilterState, input: Seq<u8>, sizes: Seq<(u16, u16)>) -> Run
    decreases input.len(),
{
    if input.len() == 0 {
        nothing_ran(m)
    } else {
        let before = run(m, input.drop_last(), sizes);
        let step = react(before.next, input.last(), sizes[input.len() - 1]);
        Run {
            next: step.next,
            data: before.data + step.data,
            response: before.response + step.response,
            changes: match step.change {
                Some(c) => before.changes.push(c),
                None => before.changes,
            },
        }
    }
}

/// Whether the byte at `j` has the server ask for the window size.
pub open spec fn asks_size(m: FilterState, input: Seq<u8>, sizes: Seq<(u16, u16)>, j: int) -> bool {
    run(m, input.take(j), sizes).next.state == State::Do && input[j] == OPT_NAWS
}

/// Whether each of the sizes that the server asks for is one that was read from the
/// flags.
pub open spec fn sizes_read(
    flags: TelnetFlags,
    m: FilterState,
    input: Seq<u8>,
    sizes: Seq<(u16, u16)>,
) -> bool {
    &&& sizes.len() == input.len()
    &&& forall|j: int|
        0 <= j < input.len() && #[trigger] asks_size(m, input, sizes, j) ==> reads_window(
            flags,
            sizes[j],
        )
}

/// Whether `ran` can come of a run of bytes, with the window size read from the flags
/// each time that the server asks for it.
pub open spec fn processed(flags: TelnetFlags, m: FilterState, input: Seq<u8>, ran: Run) -> bool {
    exists|sizes: Seq<(u16, u16)>|
        sizes_read(flags, m, input, sizes) && ran == #[trigger] run(m, input, sizes)
}

pub struct TelnetFilter {
    pub state: State,
    pub sb_buf: Vec<u8>,
    pub naws_enabled: bool,
    pub flags: Arc<TelnetFlags>,
    pub terminal_type: String,
}

impl TelnetFilter {
    /// What it holds.
    pub open spec fn view(&self) -> FilterState {
        FilterState {
            state: self.state,
            sb: self.sb_buf@,
            naws_enabled: self.naws_enabled,
            terminal_type: self.terminal_type@,
        }
    }
}

impl TelnetFilter {
    /// A filter at the start of a stream. The window size goes into the shared
    /// flags, from which it is read back whenever the server asks for it.
    pub fn new(cols: u16, rows: u16, flags: Arc<TelnetFlags>, terminal_type: String) -> (filter:
        TelnetFilter)
        ensures
            filter@ == (FilterState {
                state: State::Data,
                sb: seq![],
                naws_enabled: false,
                terminal_type: terminal_type@,
            }),
            filter.flags == flags,
            stores_window(*flags, (cols, rows)),
    {
        flags.set_window(cols, rows);
        TelnetFilter { state: State::Data, sb_buf: Vec::new(), naws_enabled: false, flags, terminal_type }
    }

    /// Process incoming bytes, returning clean data and any telnet responses.
    ///
    /// The window size is read from the shared flags each time the server asks
    /// for it, so the responses hold whatever sizes were found there. What was
    /// negotiated is stored in the flags as it comes. Each store is stated; in which
    /// order they happen, and so which one is seen last, is not.
    pub fn process(&mut self, input: &[u8]) -> (out: TelnetOutput)
        ensures
            final(self).flags == old(self).flags,
            processed(
                *old(self).flags,
                old(self)@,
                input@,
                (Run {
                    next: final(self)@,
                    data: out.data@,
                    response: out.response@,
                    changes: out.changes@,
                }),
            ),
            stores_changes(*old(self).flags, out.changes@),
    {
        let mut data: Vec<u8> = Vec::new();
        let mut response: Vec<u8> = Vec::new();
        let mut changes: Vec<FlagChange> = Vec::new();
        let ghost mut sizes: Seq<(u16, u16)> = seq![];
        let mut i: usize = 0;
        assert(input@.take(0) =~= seq![]);
        while i < input.len()
            invariant
                i <= input@.len(),
                sizes.len() == i,
                self.flags == old(self).flags,
                self@ == run(old(self)@, input@.take(i as int), sizes).next,
                data@ == run(old(self)@, input@.take(i as int), sizes).data,
                response@ == run(old(self)@, input@.take(i as int), sizes).response,
                changes@ == run(old(self)@, input@.take(i as int), sizes).changes,
                sizes_read(*self.flags, old(self)@, input@.take(i as int), sizes),
                stores_changes(*self.flags, changes@),
            decreases input@.len() - i,
        {
            let byte = input[i];
            // The change is stored before the size is read, so that a resize in between
            // is not missed by both sides.
            let change = self.change_on(byte);
            match change {
                Some(c) => {
                    self.flags.apply(c);
                    changes.push(c);
                },
                None => {},
            }
            let size = if self.state == State::Do && byte == OPT_NAWS {
                self.flags.window()
            } else {
                (0, 0)
            };
            let reaction = self.feed(byte, size.0, size.1);
            proof {
                let next = sizes.push(size);
                assert(input@.take(i + 1).drop_last() =~= input@.take(i as int));
                lemma_run_sizes(old(self)@, input@.take(i as int), sizes, next);
                lemma_size_read(self.flags, old(self)@, input@.take(i as int), byte, sizes, size);
                assert(input@.take(i as int).push(byte) =~= input@.take(i + 1));
                sizes = next;
            }
            match reaction.data {
                Some(b) => {
                    data.push(b);
                },
                None => {},
            }
            push_bytes(&mut response, reaction.response.as_slice());
            i = i + 1;
        }
        assert(input@.take(i as int) =~= input@);
        assert(run(old(self)@, input@, sizes) == (Run {
            next: self@,
            data: data@,
            response: response@,
            changes: changes@,
        }));
        TelnetOutput { data, response, changes }
    }

    /// The change that a byte negotiates, if any.
    fn change_on(&self, byte: u8) -> (change: Option<FlagChange>)
        ensures
            change == negotiated(self@.state, byte),
    {
        match self.state {
            State::Will => {
                if byte == OPT_ECHO {
                    Some(FlagChange::ServerEcho(true))
                } else {
                    None
                }
            },
            State::Wont => {
                if byte == OPT_ECHO {
                    Some(FlagChange::ServerEcho(false))
                } else {
                    None
                }
            },
            State::Do => {
                if byte == OPT_NAWS {
                    Some(FlagChange::NawsEnabled)
                } else {
                    None
                }
            },
            _ => None,
        }
    }

    /// Handles one byte on a window of `cols` by `rows`.
    pub fn feed(&mut self, byte: u8, cols: u16, rows: u16) -> (reaction: Reaction)
        ensures
            final(self).flags == old(self).flags,
            ({
                let step = react(old(self)@, byte, (cols, rows));
                &&& final(self)@ == step.next
                &&& step.data == (match reaction.data {
                    Some(b) => seq![b],
                    None => seq![],
                })
                &&& reaction.response@ == step.response
                &&& reaction.change == step.change
            }),
    {
        let mut data: Option<u8> = None;
        let mut response: Vec<u8> = Vec::new();
        let change = self.change_on(byte);
        match self.state {
            State::Data => {
                if byte == IAC {
                    self.state = State::Iac;
                } else {
                    data = Some(byte);
                }
            },
            State::Iac => {
                if byte == IAC {
                    // Escaped 0xFF: a literal byte.
                    data = Some(IAC);
                    self.state = State::Data;
                } else {
                    if byte == SB {
                        self.sb_buf = Vec::new();
                    }
                    self.state = Self::command_state(byte);
                }
            },
            State::Will => {
                Self::handle_will(byte, &mut response);
                self.state = State::Data;
            },
            State::Wont => {
                self.state = State::Data;
            },
            State::Do => {
                self.handle_do(byte, cols, rows, &mut response);
                self.state = State::Data;
            },
            State::Dont => {
                self.state = State::Data;
            },
            State::Sb => {
                if byte == IAC {
                    self.state = State::SbIac;
                } else {
                    self.sb_buf.push(byte);
                }
            },
            State::SbIac => {
                if byte == SE {
                    self.handle_subnegotiation(&mut response);
                    self.state = State::Data;
                } else if byte == IAC {
                    // Escaped 0xFF inside subnegotiation data.
                    self.sb_buf.push(IAC);
                    self.state = State::Sb;
                } else {
                    self.sb_buf = Vec::new();
                    self.state = Self::command_state(byte);
                }
            },
        }
        Reaction { data, response, change }
    }

    /// The state that a command byte leads to.
    fn command_state(byte: u8) -> (state: State)
        ensures
            state == after_command(byte),
    {
        if byte == WILL {
            State::Will
        } else if byte == WONT {
            State::Wont
        } else if byte == DO {
            State::Do
        } else if byte == DONT {
            State::Dont
        } else if byte == SB {
            State::Sb
        } else {
            // Other 2-byte commands (GA, NOP, ...) are ignored.
            State::Data
        }
    }

    fn handle_will(option: u8, response: &mut Vec<u8>)
        ensures
            final(response)@ == old(response)@ + will_answer(option),
    {
        response.push(IAC);
        if option == OPT_ECHO || option == OPT_SUPPRESS_GO_AHEAD {
            response.push(DO);
        } else {
            // Decline everything else.
            response.push(DONT);
        }
        response.push(option);
        assert(response@ =~= old(response)@ + will_answer(option));
    }

    fn handle_do(&mut self, option: u8, cols: u16, rows: u16, response: &mut Vec<u8>)
        ensures
            final(response)@ == old(response)@ + do_answer(option, (cols, rows)),
            final(self)@ == (FilterState {
                naws_enabled: old(self)@.naws_enabled || option == OPT_NAWS,
                ..old(self)@
            }),
            final(self).flags == old(self).flags,
    {
        response.push(IAC);
        if option == OPT_NAWS {
            // Accept NAWS and tell the window size at once.
            response.push(WILL);
            response.push(OPT_NAWS);
            self.naws_enabled = true;
            Self::append_naws(cols, rows, response);
            assert(response@ =~= old(response)@ + do_answer(option, (cols, rows)));
        } else {
            if option == OPT_TERMINAL_TYPE {
                response.push(WILL);
            } else {
                // Decline everything else.
                response.push(WONT);
            }
            response.push(option);
            assert(response@ =~= old(response)@ + do_answer(option, (cols, rows)));
        }
    }

    fn handle_subnegotiation(&self, response: &mut Vec<u8>)
        ensures
            final(response)@ == old(response)@ + subnegotiation_answer(
                self.sb_buf@,
                self.terminal_type@,
            ),
    {
        if self.sb_buf.len() >= 2 && self.sb_buf[0] == OPT_TERMINAL_TYPE && self.sb_buf[1] == 1 {
            // The server asks SEND (1): answer IS (0) with the terminal type.
            response.push(IAC);
            response.push(SB);
            response.push(OPT_TERMINAL_TYPE);
            response.push(0);
            push_bytes(response, self.terminal_type.as_str().as_bytes());
            response.push(IAC);
            response.push(SE);
        }
        assert(response@ =~= old(response)@ + subnegotiation_answer(
            self.sb_buf@,
            self.terminal_type@,
        ));
    }

    fn append_naws(cols: u16, rows: u16, response: &mut Vec<u8>)
        ensures
            final(response)@ == old(response)@ + naws_message(cols, rows),
    {
        let message = build_naws(cols, rows);
        push_bytes(response, message.as_slice());
    }
}

/// Sizes beyond the end of the input do not matter.
proof fn lemma_run_sizes(m: FilterState, input: Seq<u8>, a: Seq<(u16, u16)>, b: Seq<(u16, u16)>)
    requires
        forall|i: int| 0 <= i < input.len() ==> a[i] == b[i],
    ensures
        run(m, input, a) == run(m, input, b),
    decreases input.len(),
{
    if input.len() > 0 {
        lemma_run_sizes(m, input.drop_last(), a, b);
    }
}

/// Nothing comes of no bytes.
pub(super) proof fn lemma_nothing_processed(flags: Arc<TelnetFlags>, m: FilterState)
    ensures
        processed(*flags, m, seq![], nothing_ran(m)),
{
    assert(sizes_read(*flags, m, seq![], seq![]));
    assert(run(m, seq![], seq![]).next == m);
}

/// Another byte, and the size that was read if it asks for one.
proof fn lemma_size_read(
    flags: Arc<TelnetFlags>,
    m: FilterState,
    input: Seq<u8>,
    byte: u8,
    sizes: Seq<(u16, u16)>,
    size: (u16, u16),
)
    requires
        sizes_read(*flags, m, input, sizes),
        run(m, input, sizes).next.state == State::Do && byte == OPT_NAWS ==> reads_window(
            *flags,
            size,
        ),
    ensures
        sizes_read(*flags, m, input.push(byte), sizes.push(size)),
{
    let longer = input.push(byte);
    let more = sizes.push(size);
    assert forall|j: int|
        0 <= j < longer.len() && #[trigger] asks_size(m, longer, more, j) implies reads_window(
        *flags,
        more[j],
    ) by {
        assert(longer.take(j) =~= input.take(j));
        lemma_run_sizes(m, input.take(j), sizes, more);
        if j < input.len() {
            assert(asks_size(m, input, sizes, j));
        } else {
            assert(input.take(j) =~= input);
        }
    }
}

/// One run and then another, taken together.
pub open spec fn joined(first: Run, second: Run) -> Run {
    Run {
        next: second.next,
        data: first.data + second.data,
        response: first.response + second.response,
        changes: first.changes + second.changes,
    }
}

/// The stream may arrive in pieces: handling `a` and then `b` gives what
/// handling them at once gives.
pub proof fn pieces_of_a_stream_add_up(
    m: FilterState,
    a: Seq<u8>,
    b: Seq<u8>,
    sizes_a: Seq<(u16, u16)>,
    sizes_b: Seq<(u16, u16)>,
)
    requires
        sizes_a.len() == a.len(),
        sizes_b.len() == b.len(),
    ensures
        run(m, a + b, sizes_a + sizes_b) == joined(
            run(m, a, sizes_a),
            run(run(m, a, sizes_a).next, b, sizes_b),
        ),
    decreases b.len(),
{
    let sizes = sizes_a + sizes_b;
    if b.len() == 0 {
        assert(a + b =~= a);
        assert(sizes =~= sizes_a);
    } else {
        let shorter = sizes_b.drop_last();
        pieces_of_a_stream_add_up(m, a, b.drop_last(), sizes_a, shorter);
        assert((a + b).drop_last() =~= a + b.drop_last());
        lemma_run_sizes(m, a + b.drop_last(), sizes_a + shorter, sizes);
        lemma_run_sizes(run(m, a, sizes_a).next, b.drop_last(), shorter, sizes_b);
    }
}

/// What two calls can give for `a` and then `b`, one call can give for both at once.
pub proof fn calls_add_up(
    flags: Arc<TelnetFlags>,
    m: FilterState,
    a: Seq<u8>,
    b: Seq<u8>,
    first: Run,
    second: Run,
)
    requires
        processed(*flags, m, a, first),
        processed(*flags, first.next, b, second),
    ensures
        processed(*flags, m, a + b, joined(first, second)),
{
    let sizes_a = choose|sizes: Seq<(u16, u16)>|
        sizes_read(*flags, m, a, sizes) && first == #[trigger] run(m, a, sizes);
    let sizes_b = choose|sizes: Seq<(u16, u16)>|
        sizes_read(*flags, first.next, b, sizes) && second == #[trigger] run(first.next, b, sizes);
    let sizes = sizes_a + sizes_b;
    pieces_of_a_stream_add_up(m, a, b, sizes_a, sizes_b);
    assert forall|j: int|
        0 <= j < (a + b).len() && #[trigger] asks_size(m, a + b, sizes, j) implies reads_window(
        *flags,
        sizes[j],
    ) by {
        if j < a.len() {
            assert((a + b).take(j) =~= a.take(j));
            lemma_run_sizes(m, a.take(j), sizes_a, sizes);
            assert(asks_size(m, a, sizes_a, j));
        } else {
            let k = j - a.len();
            assert((a + b).take(j) =~= a + b.take(k));
            pieces_of_a_stream_add_up(m, a, b.take(k), sizes_a, sizes_b.take(k));
            lemma_run_sizes(m, a + b.take(k), sizes_a + sizes_b.take(k), sizes);
            lemma_run_sizes(first.next, b.take(k), sizes_b.take(k), sizes_b);
            assert(asks_size(first.next, b, sizes_b, k));
        }
    }
}

/// Only the sizes that are asked for matter.
proof fn lemma_run_asked(m: FilterState, input: Seq<u8>, a: Seq<(u16, u16)>, b: Seq<(u16, u16)>)
    requires
        forall|j: int| 0 <= j < input.len() && #[trigger] asks_size(m, input, a, j) ==> a[j] == b[j],
    ensures
        run(m, input, a) == run(m, input, b),
    decreases input.len(),
{
    if input.len() > 0 {
        let shorter = input.drop_last();
        assert forall|j: int| 0 <= j < shorter.len() && #[trigger] asks_size(
            m,
            shorter,
            a,
            j,
        ) implies a[j] == b[j] by {
            assert(shorter.take(j) =~= input.take(j));
            assert(asks_size(m, input, a, j));
        }
        lemma_run_asked(m, shorter, a, b);
        assert(input.take(input.len() - 1) =~= shorter);
        assert(asks_size(m, input, a, input.len() - 1) == (run(m, shorter, a).next.state
            == State::Do && input.last() == OPT_NAWS));
    }
}

/// Whether the flags hold this window size, columns first, and nobody stores another:
/// every read gives it.
pub open spec fn window_stays(flags: TelnetFlags, size: (u16, u16)) -> bool {
    forall|read: (u16, u16)| #[trigger] reads_window(flags, read) ==> read == size
}

/// As long as nobody stores another window size, what a call gives is fixed by the
/// size, the filter's state and the input.
pub proof fn a_window_that_stays_fixes_the_answers(
    flags: Arc<TelnetFlags>,
    size: (u16, u16),
    m: FilterState,
    input: Seq<u8>,
    ran: Run,
)
    requires
        window_stays(*flags, size),
        processed(*flags, m, input, ran),
    ensures
        ran == run(m, input, Seq::new(input.len(), |i: int| size)),
{
    let sizes = choose|sizes: Seq<(u16, u16)>|
        sizes_read(*flags, m, input, sizes) && ran == #[trigger] run(m, input, sizes);
    lemma_run_asked(m, input, sizes, Seq::new(input.len(), |i: int| size));
}

/// The stream may arrive in pieces: of two filters in the same state, whose flags hold
/// the same window size all the while, one that is called with `a` and then with `b`
/// displays, answers and negotiates what the other does that is called with both at
/// once, and they end in the same state.
pub proof fn two_calls_give_what_one_gives(
    f: Arc<TelnetFlags>,
    g: Arc<TelnetFlags>,
    size: (u16, u16),
    m: FilterState,
    a: Seq<u8>,
    b: Seq<u8>,
    first: Run,
    second: Run,
    whole: Run,
)
    requires
        window_stays(*f, size),
        window_stays(*g, size),
        processed(*f, m, a, first),
        processed(*f, first.next, b, second),
        processed(*g, m, a + b, whole),
    ensures
        whole == joined(first, second),
{
    calls_add_up(f, m, a, b, first, second);
    a_window_that_stays_fixes_the_answers(f, size, m, a + b, joined(first, second));
    a_window_that_stays_fixes_the_answers(g, size, m, a + b, whole);
}

pub(super) proof fn lemma_run_push(m: FilterState, input: Seq<u8>, byte: u8, sizes: Seq<(u16, u16)>)
    ensures
        ({
            let before = run(m, input, sizes);
            let step = react(before.next, byte, sizes[input.len() as int]);
            run(m, input.push(byte), sizes) == (Run {
                next: step.next,
                data: before.data + step.data,
                response: before.response + step.response,
                changes: match step.change {
                    Some(c) => before.changes.push(c),
                    None => before.changes,
                },
            })
        }),
{
    assert(input.push(byte).drop_last() =~= input);
}

/// Outside a telnet sequence, bytes other than IAC are displayed as they are,
/// and nothing is sent back.
pub proof fn plain_data_passes_unchanged(m: FilterState, input: Seq<u8>, sizes: Seq<(u16, u16)>)
    requires
        m.state == State::Data,
        !input.contains(IAC),
    ensures
        run(m, input, sizes) == (Run { next: m, data: input, response: seq![], changes: seq![] }),
    decreases input.len(),
{
    if input.len() > 0 {
        let shorter = input.drop_last();
        assert forall|i: int| 0 <= i < shorter.len() implies shorter[i] != IAC by {
            assert(shorter[i] == input[i]);
        }
        plain_data_passes_unchanged(m, shorter, sizes);
        assert(input.last() != IAC);
        assert(shorter + seq![input.last()] =~= input);
    }
}

/// Data as a telnet peer sends it: every 0xFF doubled.
pub open spec fn escaped_data(data: Seq<u8>) -> Seq<u8>
    decreases data.len(),
{
    if data.len() == 0 {
        seq![]
    } else {
        escaped_data(data.drop_last()) + escaped(data.last())
    }
}

/// Data that a peer sent with its 0xFF bytes doubled is displayed as it was,
/// whatever bytes it holds, and nothing is sent back.
pub proof fn escaped_data_reads_back(m: FilterState, data: Seq<u8>, sizes: Seq<(u16, u16)>)
    requires
        m.state == State::Data,
    ensures
        run(m, escaped_data(data), sizes) == (Run {
            next: m,
            data,
            response: seq![],
            changes: seq![],
        }),
    decreases data.len(),
{
    if data.len() > 0 {
        let shorter = data.drop_last();
        let sent = escaped_data(shorter);
        escaped_data_reads_back(m, shorter, sizes);
        lemma_run_push(m, sent, data.last(), sizes);
        if data.last() == IAC {
            lemma_run_push(m, sent.push(IAC), IAC, sizes);
            assert(sent + seq![IAC, IAC] =~= sent.push(IAC).push(IAC));
        } else {
            assert(sent + seq![data.last()] =~= sent.push(data.last()));
        }
        assert(shorter + seq![data.last()] =~= data);
    }
}

/// What `IAC verb option` brings about.
pub(super) proof fn lemma_negotiation(m: FilterState, verb: u8, option: u8, sizes: Seq<(u16, u16)>)
    requires
        m.state == State::Data,
        verb == WILL || verb == WONT || verb == DO || verb == DONT,
    ensures
        ({
            let step = react(FilterState { state: after_command(verb), ..m }, option, sizes[2]);
            let ran = run(m, seq![IAC, verb, option], sizes);
            &&& ran.next == step.next
            &&& ran.data == Seq::<u8>::empty()
            &&& ran.response == step.response
            &&& ran.changes == (match step.change {
                Some(c) => seq![c],
                None => seq![],
            })
        }),
{
    lemma_run_push(m, seq![], IAC, sizes);
    lemma_run_push(m, seq![IAC], verb, sizes);
    lemma_run_push(m, seq![IAC, verb], option, sizes);
    assert(Seq::<u8>::empty().push(IAC) =~= seq![IAC]);
    assert(seq![IAC].push(verb) =~= seq![IAC, verb]);
    assert(seq![IAC, verb].push(option) =~= seq![IAC, verb, option]);
}

/// An option that this side does not know is refused: an offer (WILL) of
/// anything but ECHO and SUPPRESS-GO-AHEAD is answered DONT, a request (DO) for
/// anything but NAWS and TERMINAL-TYPE is answered WONT. Nothing is displayed,
/// and the stream goes on as before.
pub proof fn unknown_options_are_refused(m: FilterState, option: u8, sizes: Seq<(u16, u16)>)
    requires
        m.state == State::Data,
    ensures
        option != OPT_ECHO && option != OPT_SUPPRESS_GO_AHEAD ==> run(
            m,
            seq![IAC, WILL, option],
            sizes,
        ) == (Run { next: m, data: seq![], response: seq![IAC, DONT, option], changes: seq![] }),
        option != OPT_NAWS && option != OPT_TERMINAL_TYPE ==> run(
            m,
            seq![IAC, DO, option],
            sizes,
        ) == (Run { next: m, data: seq![], response: seq![IAC, WONT, option], changes: seq![] }),
{
    lemma_negotiation(m, WILL, option, sizes);
    lemma_negotiation(m, DO, option, sizes);
}

/// What this side can do is agreed to. A server that offers to echo is let, and the
/// session hears of it; one that asks for window sizes is sent the current one at
/// once; one that asks for the terminal type may go on to ask for its name.
pub proof fn wanted_options_are_agreed_to(m: FilterState, sizes: Seq<(u16, u16)>)
    requires
        m.state == State::Data,
    ensures
        run(m, seq![IAC, WILL, OPT_ECHO], sizes) == (Run {
            next: m,
            data: seq![],
            response: seq![IAC, DO, OPT_ECHO],
            changes: seq![FlagChange::ServerEcho(true)],
        }),
        run(m, seq![IAC, WILL, OPT_SUPPRESS_GO_AHEAD], sizes) == (Run {
            next: m,
            data: seq![],
            response: seq![IAC, DO, OPT_SUPPRESS_GO_AHEAD],
            changes: seq![],
        }),
        run(m, seq![IAC, DO, OPT_NAWS], sizes) == (Run {
            next: FilterState { naws_enabled: true, ..m },
            data: seq![],
            response: seq![IAC, WILL, OPT_NAWS] + naws_message(sizes[2].0, sizes[2].1),
            changes: seq![FlagChange::NawsEnabled],
        }),
        run(m, seq![IAC, DO, OPT_TERMINAL_TYPE], sizes) == (Run {
            next: m,
            data: seq![],
            response: seq![IAC, WILL, OPT_TERMINAL_TYPE],
            changes: seq![],
        }),
{
    lemma_negotiation(m, WILL, OPT_ECHO, sizes);
    lemma_negotiation(m, WILL, OPT_SUPPRESS_GO_AHEAD, sizes);
    lemma_negotiation(m, DO, OPT_NAWS, sizes);
    lemma_negotiation(m, DO, OPT_TERMINAL_TYPE, sizes);
}

/// A server that asks for the terminal type is sent the configured one.
pub proof fn the_terminal_type_is_told(m: FilterState, sizes: Seq<(u16, u16)>)
    requires
        m.state == State::Data,
    ensures
        run(m, seq![IAC, SB, OPT_TERMINAL_TYPE, 1, IAC, SE], sizes) == (Run {
            next: FilterState { sb: seq![OPT_TERMINAL_TYPE, 1], ..m },
            data: seq![],
            response: terminal_type_message(m.terminal_type),
            changes: seq![],
        }),
{
    let q = seq![IAC, SB, OPT_TERMINAL_TYPE, 1, IAC, SE];
    lemma_run_push(m, seq![], IAC, sizes);
    lemma_run_push(m, q.take(1), SB, sizes);
    lemma_run_push(m, q.take(2), OPT_TERMINAL_TYPE, sizes);
    lemma_run_push(m, q.take(3), 1, sizes);
    lemma_run_push(m, q.take(4), IAC, sizes);
    lemma_run_push(m, q.take(5), SE, sizes);
    assert(Seq::<u8>::empty().push(IAC) =~= q.take(1));
    assert(q.take(1).push(SB) =~= q.take(2));
    assert(q.take(2).push(OPT_TERMINAL_TYPE) =~= q.take(3));
    assert(q.take(3).push(1) =~= q.take(4));
    assert(q.take(4).push(IAC) =~= q.take(5));
    assert(q.take(5).push(SE) =~= q);
    assert(Seq::<u8>::empty().push(OPT_TERMINAL_TYPE).push(1) =~= seq![OPT_TERMINAL_TYPE, 1]);
}

/// A refusal by the server (WONT, DONT) is never answered, so that no
/// negotiation goes round in circles.
pub proof fn refusals_are_not_answered(m: FilterState, option: u8, sizes: Seq<(u16, u16)>)
    requires
        m.state == State::Data,
    ensures
        run(m, seq![IAC, WONT, option], sizes).response == Seq::<u8>::empty(),
        run(m, seq![IAC, DONT, option], sizes).response == Seq::<u8>::empty(),
{
    lemma_negotiation(m, WONT, option, sizes);
    lemma_negotiation(m, DONT, option, sizes);
}

/// A subnegotiation that breaks off with a command other than IAC SE, IAC IAC or
/// a new negotiation is dropped, and the data after it is displayed.
pub proof fn data_after_an_aborted_subnegotiation_is_kept(
    m: FilterState,
    command: u8,
    data: Seq<u8>,
    sizes: Seq<(u16, u16)>,
)
    requires
        m.state == State::Sb,
        command < 250,
        command != 240,
        !data.contains(255u8),
        sizes.len() == data.len() + 2,
    ensures
        run(m, seq![255u8, command] + data, sizes) == (Run {
            next: FilterState { state: State::Data, sb: seq![], ..m },
            data,
            response: seq![],
            changes: seq![],
        }),
{
    let head = seq![IAC, command];
    lemma_run_push(m, seq![], IAC, sizes.take(2));
    lemma_run_push(m, seq![IAC], command, sizes.take(2));
    assert(Seq::<u8>::empty().push(IAC) =~= seq![IAC]);
    assert(seq![IAC].push(command) =~= head);
    let after = run(m, head, sizes.take(2)).next;
    plain_data_passes_unchanged(after, data, sizes.skip(2));
    pieces_of_a_stream_add_up(m, head, data, sizes.take(2), sizes.skip(2));
    assert(sizes.take(2) + sizes.skip(2) =~= sizes);
}

/// Feeding one escaped byte to an open subnegotiation adds the byte itself.
proof fn lemma_escaped_in_subnegotiation(
    m: FilterState,
    sent: Seq<u8>,
    byte: u8,
    sizes: Seq<(u16, u16)>,
)
    requires
        run(m, sent, sizes).next.state == State::Sb,
    ensures
        run(m, sent + escaped(byte), sizes) == (Run {
            next: FilterState {
                sb: run(m, sent, sizes).next.sb.push(byte),
                ..run(m, sent, sizes).next
            },
            ..run(m, sent, sizes)
        }),
{
    lemma_run_push(m, sent, byte, sizes);
    if byte == IAC {
        lemma_run_push(m, sent.push(IAC), IAC, sizes);
        assert(sent + seq![IAC, IAC] =~= sent.push(IAC).push(IAC));
    } else {
        assert(sent + seq![byte] =~= sent.push(byte));
    }
}

/// The start of a window-size message opens a subnegotiation of the option.
proof fn lemma_window_size_opens(m: FilterState, sizes: Seq<(u16, u16)>)
    requires
        m.state == State::Data,
    ensures
        run(m, seq![IAC, SB, OPT_NAWS], sizes) == (Run {
            next: FilterState { state: State::Sb, sb: seq![OPT_NAWS], ..m },
            data: seq![],
            response: seq![],
            changes: seq![],
        }),
{
    lemma_run_push(m, seq![], IAC, sizes);
    lemma_run_push(m, seq![IAC], SB, sizes);
    lemma_run_push(m, seq![IAC, SB], OPT_NAWS, sizes);
    assert(Seq::<u8>::empty().push(IAC) =~= seq![IAC]);
    assert(seq![IAC].push(SB) =~= seq![IAC, SB]);
    assert(seq![IAC, SB].push(OPT_NAWS) =~= seq![IAC, SB, OPT_NAWS]);
    assert(Seq::<u8>::empty().push(OPT_NAWS) =~= seq![OPT_NAWS]);
}

/// Feeding an escaped number to an open subnegotiation adds its two bytes.
proof fn lemma_escaped_number(m: FilterState, sent: Seq<u8>, n: u16, sizes: Seq<(u16, u16)>)
    requires
        run(m, sent, sizes).next.state == State::Sb,
    ensures
        run(m, sent + escaped_u16(n), sizes) == (Run {
            next: FilterState {
                sb: run(m, sent, sizes).next.sb.push(be_bytes(n).0).push(be_bytes(n).1),
                ..run(m, sent, sizes).next
            },
            ..run(m, sent, sizes)
        }),
{
    let (high, low) = be_bytes(n);
    lemma_escaped_in_subnegotiation(m, sent, high, sizes);
    lemma_escaped_in_subnegotiation(m, sent + escaped(high), low, sizes);
    assert(sent + escaped_u16(n) =~= sent + escaped(high) + escaped(low));
}

/// IAC SE closes a subnegotiation that brings no answer.
proof fn lemma_subnegotiation_closes(m: FilterState, sent: Seq<u8>, sizes: Seq<(u16, u16)>)
    requires
        run(m, sent, sizes).next.state == State::Sb,
        run(m, sent, sizes).next.sb.len() > 0,
        run(m, sent, sizes).next.sb[0] != OPT_TERMINAL_TYPE,
    ensures
        run(m, sent + seq![IAC, SE], sizes) == (Run {
            next: FilterState { state: State::Data, ..run(m, sent, sizes).next },
            ..run(m, sent, sizes)
        }),
{
    lemma_run_push(m, sent, IAC, sizes);
    lemma_run_push(m, sent.push(IAC), SE, sizes);
    assert(sent + seq![IAC, SE] =~= sent.push(IAC).push(SE));
}

/// A window-size message is one well-formed subnegotiation, whatever the size:
/// whoever reads it finds the option and the four bytes of the size in it, with
/// every 0xFF in them restored, and nothing else.
pub proof fn window_size_message_is_one_subnegotiation(
    m: FilterState,
    cols: u16,
    rows: u16,
    sizes: Seq<(u16, u16)>,
)
    requires
        m.state == State::Data,
    ensures
        run(m, naws_message(cols, rows), sizes) == (Run {
            next: FilterState {
                sb: seq![
                    OPT_NAWS,
                    be_bytes(cols).0,
                    be_bytes(cols).1,
                    be_bytes(rows).0,
                    be_bytes(rows).1,
                ],
                ..m
            },
            data: seq![],
            response: seq![],
            changes: seq![],
        }),
{
    let start = seq![IAC, SB, OPT_NAWS];
    let wide = start + escaped_u16(cols);
    let full = wide + escaped_u16(rows);
    lemma_window_size_opens(m, sizes);
    lemma_escaped_number(m, start, cols, sizes);
    lemma_escaped_number(m, wide, rows, sizes);
    assert(run(m, full, sizes).next.sb =~= seq![
        OPT_NAWS,
        be_bytes(cols).0,
        be_bytes(cols).1,
        be_bytes(rows).0,
        be_bytes(rows).1,
    ]);
    lemma_subnegotiation_closes(m, full, sizes);
}

} // verus!
