//! The bytes that keys and pastes turn into.

use super::model::{
    control_byte, digits_only, keystroke, with_crlf, without_breaks, Keystroke,
};
use crate::keys::{f_key_escape, Key, KeyCode};
use crate::text::{char_list, is_digit};
use vstd::prelude::*;
use vstd::string::*;
use vstd::utf8::encode_utf8;

verus! {

/// `text` without line breaks.
pub fn drop_breaks(text: &str) -> (kept: String)
    ensures
        kept@ == without_breaks(text@),
{
    let chars = char_list(text);
    let mut kept = String::new();
    let mut i: usize = 0;
    let ghost keep = |c: char| c != '\n' && c != '\r';
    proof {
        reveal(Seq::filter);
        assert(chars@.take(0).filter(keep) =~= seq![]);
    }
    while i < chars.len()
        invariant
            i <= chars@.len(),
            chars@ == text@,
            keep == (|c: char| c != '\n' && c != '\r'),
            kept@ == chars@.take(i as int).filter(keep),
        decreases chars@.len() - i,
    {
        let c: char = chars[i];
        proof {
            reveal(Seq::filter);
            assert(chars@.take(i + 1).drop_last() =~= chars@.take(i as int));
        }
        if c != '\n' && c != '\r' {
            kept.push(c);
        }
        i = i + 1;
    }
    assert(chars@.take(i as int) =~= text@);
    kept
}

/// The digits of `text`.
pub fn keep_digits(text: &str) -> (kept: String)
    ensures
        kept@ == digits_only(text@),
{
    let chars = char_list(text);
    let mut kept = String::new();
    let mut i: usize = 0;
    let ghost keep = |c: char| is_digit(c);
    proof {
        reveal(Seq::filter);
        assert(chars@.take(0).filter(keep) =~= seq![]);
    }
    while i < chars.len()
        invariant
            i <= chars@.len(),
            chars@ == text@,
            keep == (|c: char| is_digit(c)),
            kept@ == chars@.take(i as int).filter(keep),
        decreases chars@.len() - i,
    {
        let c: char = chars[i];
        proof {
            reveal(Seq::filter);
            assert(chars@.take(i + 1).drop_last() =~= chars@.take(i as int));
        }
        if '0' <= c && c <= '9' {
            kept.push(c);
        }
        i = i + 1;
    }
    assert(chars@.take(i as int) =~= text@);
    kept
}

/// `text` in UTF-8, with every line break as CR LF.
pub fn crlf_bytes(text: &str) -> (bytes: Vec<u8>)
    ensures
        bytes@ == encode_utf8(with_crlf(text@)),
{
    let chars = char_list(text);
    let mut out = String::new();
    let mut i: usize = 0;
    assert(chars@.skip(0) =~= text@);
    assert(seq![] + with_crlf(text@) =~= with_crlf(text@));
    while i < chars.len()
        invariant
            i <= chars@.len(),
            chars@ == text@,
            out@ + with_crlf(chars@.skip(i as int)) == with_crlf(text@),
        decreases chars@.len() - i,
    {
        let c: char = chars[i];
        let ghost rest = chars@.skip(i as int);
        let ghost before = out@;
        assert(rest[0] == c);
        assert(rest.skip(1) =~= chars@.skip(i + 1));
        if c == '\r' {
            out.push('\r');
            out.push('\n');
            if i + 1 < chars.len() && chars[i + 1] == '\n' {
                assert(rest[1] == '\n');
                assert(rest.skip(2) =~= chars@.skip(i + 2));
                assert(out@ + with_crlf(rest.skip(2)) =~= before + with_crlf(rest));
                i = i + 1;
            } else {
                assert(out@ + with_crlf(rest.skip(1)) =~= before + with_crlf(rest));
            }
        } else if c == '\n' {
            out.push('\r');
            out.push('\n');
            assert(out@ + with_crlf(rest.skip(1)) =~= before + with_crlf(rest));
        } else {
            out.push(c);
            assert(out@ + with_crlf(rest.skip(1)) =~= before + with_crlf(rest));
        }
        i = i + 1;
    }
    assert(out@ =~= with_crlf(text@));
    out.as_str().as_bytes_vec()
}

/// What a key does in character mode.
pub struct KeyBytes {
    /// What goes to the peer.
    pub send: Option<Vec<u8>>,
    /// What local echo draws.
    pub draw: Option<Vec<u8>>,
    /// How many characters stand on the line afterwards.
    pub len: usize,
}

/// The bytes, if there are any.
pub open spec fn opt_bytes(bytes: Option<Vec<u8>>) -> Option<Seq<u8>> {
    match bytes {
        Some(b) => Some(b@),
        None => None,
    }
}

impl KeyBytes {
    /// What it holds.
    pub open spec fn view(&self) -> Keystroke {
        Keystroke { send: opt_bytes(self.send), draw: opt_bytes(self.draw), len: self.len as int }
    }
}

/// The byte of a letter typed with Ctrl: 1 for A to 26 for Z.
fn control_key(c: char) -> (byte: Option<u8>)
    ensures
        byte == control_byte(c),
{
    if 'a' <= c && c <= 'z' {
        Some((c as u32 - 0x60) as u8)
    } else if 'A' <= c && c <= 'Z' {
        Some((c as u32 - 0x40) as u8)
    } else {
        None
    }
}

fn one_byte(b: u8) -> (bytes: Vec<u8>)
    ensures
        bytes@ == seq![b],
{
    vec![b]
}

fn line_break() -> (bytes: Vec<u8>)
    ensures
        bytes@ == seq![0x0du8, 0x0a],
{
    vec![0x0d, 0x0a]
}

/// `ESC [` and a letter.
fn arrow(letter: u8) -> (bytes: Vec<u8>)
    ensures
        bytes@ == seq![0x1bu8, 0x5b, letter],
{
    vec![0x1b, 0x5b, letter]
}

/// `ESC [`, a digit and `~`.
fn editing_key(digit: u8) -> (bytes: Vec<u8>)
    ensures
        bytes@ == seq![0x1bu8, 0x5b, digit, 0x7e],
{
    vec![0x1b, 0x5b, digit, 0x7e]
}

/// Back over the last character, blank it, and back again.
fn rubout() -> (bytes: Vec<u8>)
    ensures
        bytes@ == seq![0x08u8, 0x20, 0x08],
{
    vec![0x08, 0x20, 0x08]
}

fn char_bytes(c: char) -> (bytes: Vec<u8>)
    ensures
        bytes@ == encode_utf8(seq![c]),
{
    let mut s = String::new();
    s.push(c);
    assert(s@ =~= seq![c]);
    s.as_str().as_bytes_vec()
}

/// A key that is sent and not echoed.
fn sent_only(len: usize, bytes: Vec<u8>) -> (key: KeyBytes)
    ensures
        key@ == super::model::sent(len as int, bytes@),
{
    KeyBytes { send: Some(bytes), draw: None, len }
}

/// The bytes for a key in character mode, on a line with `len` typed characters.
pub fn key_bytes(len: usize, key: Key) -> (bytes: KeyBytes)
    requires
        key.code is Char && !key.modifiers.control ==> len < usize::MAX,
    ensures
        bytes@ == keystroke(len as int, key),
{
    match key.code {
        KeyCode::Char(c) => {
            if key.modifiers.control {
                match control_key(c) {
                    Some(b) => {
                        return sent_only(len, one_byte(b));
                    },
                    None => {
                        return KeyBytes { send: None, draw: None, len };
                    },
                }
            }
            KeyBytes { send: Some(char_bytes(c)), draw: Some(char_bytes(c)), len: len + 1 }
        },
        KeyCode::Enter => KeyBytes {
            send: Some(line_break()),
            draw: Some(line_break()),
            len: 0,
        },
        KeyCode::Backspace => {
            if len > 0 {
                // Terminals of the xterm family send DEL, which hosts and boards
                // take for "erase the last character"; many show BS as `^H`.
                return KeyBytes { send: Some(one_byte(0x7f)), draw: Some(rubout()), len: len - 1 };
            }
            KeyBytes { send: None, draw: None, len }
        },
        KeyCode::Up => sent_only(len, arrow(0x41)),
        KeyCode::Down => sent_only(len, arrow(0x42)),
        KeyCode::Right => sent_only(len, arrow(0x43)),
        KeyCode::Left => sent_only(len, arrow(0x44)),
        KeyCode::Home => sent_only(len, arrow(0x48)),
        KeyCode::End => sent_only(len, arrow(0x46)),
        KeyCode::PageUp => sent_only(len, editing_key(0x35)),
        KeyCode::PageDown => sent_only(len, editing_key(0x36)),
        KeyCode::Delete => sent_only(len, editing_key(0x33)),
        KeyCode::Insert => sent_only(len, editing_key(0x32)),
        KeyCode::F(n) => sent_only(len, f_key_escape(n)),
        KeyCode::Esc | KeyCode::Tab | KeyCode::BackTab | KeyCode::Other => KeyBytes {
            send: None,
            draw: None,
            len,
        },
    }
}

} // verus!
