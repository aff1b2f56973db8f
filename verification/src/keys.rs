//! Keys, the mouse wheel and what else comes from the user's terminal.

use vstd::prelude::*;

verus! {

#[derive(Debug, Clone, Copy, PartialEq, Eq, Structural)]
pub enum KeyCode {
    Char(char),
    Enter,
    Backspace,
    Esc,
    Tab,
    BackTab,
    Up,
    Down,
    Left,
    Right,
    Home,
    End,
    PageUp,
    PageDown,
    Delete,
    Insert,
    /// A function key.
    F(u8),
    /// Any key that nothing is bound to.
    Other,
}

/// The modifier keys held down.
#[derive(Debug, Clone, Copy, PartialEq, Eq, Structural)]
pub struct Modifiers {
    pub shift: bool,
    pub control: bool,
    /// Any other modifier.
    pub other: bool,
}

#[derive(Debug, Clone, Copy, PartialEq, Eq, Structural)]
pub struct Key {
    pub code: KeyCode,
    pub modifiers: Modifiers,
}

#[derive(Debug, Clone, Copy, PartialEq, Eq, Structural)]
pub enum Mouse {
    ScrollUp,
    ScrollDown,
    Other,
}

/// An event of the user's terminal.
#[derive(Debug)]
pub enum TerminalEvent {
    /// A key was pressed, held down, or let go.
    Key { key: Key, released: bool },
    Mouse(Mouse),
    /// The window has a new size, width and height.
    Resize(u16, u16),
    /// A bracketed paste.
    Paste(String),
    Other,
}

/// What an event says.
pub ghost enum TerminalEventModel {
    Key { key: Key, released: bool },
    Mouse(Mouse),
    Resize(u16, u16),
    Paste(Seq<char>),
    Other,
}

impl TerminalEvent {
    /// What it holds.
    pub open spec fn view(&self) -> TerminalEventModel {
        match *self {
            TerminalEvent::Key { key, released } => TerminalEventModel::Key { key, released },
            TerminalEvent::Mouse(mouse) => TerminalEventModel::Mouse(mouse),
            TerminalEvent::Resize(w, h) => TerminalEventModel::Resize(w, h),
            TerminalEvent::Paste(text) => TerminalEventModel::Paste(text@),
            TerminalEvent::Other => TerminalEventModel::Other,
        }
    }
}

/// Whether no modifier is held down.
pub open spec fn unmodified(m: Modifiers) -> bool {
    !m.shift && !m.control && !m.other
}

/// The bytes of a function key.
pub open spec fn f_key_bytes(n: u8) -> Seq<u8> {
    if n == 1 {
        seq![0x1b, 0x4f, 0x50]
    } else if n == 2 {
        seq![0x1b, 0x4f, 0x51]
    } else if n == 3 {
        seq![0x1b, 0x4f, 0x52]
    } else if n == 4 {
        seq![0x1b, 0x4f, 0x53]
    } else if n == 5 {
        seq![0x1b, 0x5b, 0x31, 0x35, 0x7e]
    } else if n == 6 {
        seq![0x1b, 0x5b, 0x31, 0x37, 0x7e]
    } else if n == 7 {
        seq![0x1b, 0x5b, 0x31, 0x38, 0x7e]
    } else if n == 8 {
        seq![0x1b, 0x5b, 0x31, 0x39, 0x7e]
    } else if n == 9 {
        seq![0x1b, 0x5b, 0x32, 0x30, 0x7e]
    } else if n == 10 {
        seq![0x1b, 0x5b, 0x32, 0x31, 0x7e]
    } else if n == 11 {
        seq![0x1b, 0x5b, 0x32, 0x33, 0x7e]
    } else if n == 12 {
        seq![0x1b, 0x5b, 0x32, 0x34, 0x7e]
    } else {
        seq![]
    }
}

/// The bytes of a function key: `ESC O P` to `ESC O S`, then `ESC [ 15 ~` and on.
pub fn f_key_escape(n: u8) -> (bytes: Vec<u8>)
    ensures
        bytes@ == f_key_bytes(n),
{
    if n == 1 {
        vec![0x1b, 0x4f, 0x50]
    } else if n == 2 {
        vec![0x1b, 0x4f, 0x51]
    } else if n == 3 {
        vec![0x1b, 0x4f, 0x52]
    } else if n == 4 {
        vec![0x1b, 0x4f, 0x53]
    } else if n == 5 {
        vec![0x1b, 0x5b, 0x31, 0x35, 0x7e]
    } else if n == 6 {
        vec![0x1b, 0x5b, 0x31, 0x37, 0x7e]
    } else if n == 7 {
        vec![0x1b, 0x5b, 0x31, 0x38, 0x7e]
    } else if n == 8 {
        vec![0x1b, 0x5b, 0x31, 0x39, 0x7e]
    } else if n == 9 {
        vec![0x1b, 0x5b, 0x32, 0x30, 0x7e]
    } else if n == 10 {
        vec![0x1b, 0x5b, 0x32, 0x31, 0x7e]
    } else if n == 11 {
        vec![0x1b, 0x5b, 0x32, 0x33, 0x7e]
    } else if n == 12 {
        vec![0x1b, 0x5b, 0x32, 0x34, 0x7e]
    } else {
        vec![]
    }
}

} // verus!
