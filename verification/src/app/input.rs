//! Keys that go to the remote host: whole lines, or one at a time.

use super::line::{line_wf, LineEditor};
use super::model::{
    character_key, echo_fits, keystroke, line_key, line_sent, line_typed, KEY_SCROLL_LINES,
};
use super::typing::key_bytes;
use super::App;
use crate::events::{effect_models, ConnectionCommand, Effect};
use crate::keys::{Key, KeyCode};
use vstd::prelude::*;
use vstd::string::*;
use vstd::utf8::encode_utf8;

verus! {

/// A key in line mode that does not send the line.
fn type_into_line(line: &mut LineEditor, code: KeyCode)
    requires
        line_wf(old(line)@),
    ensures
        final(line)@ == line_typed(old(line)@, code),
        line_wf(final(line)@),
{
    match code {
        KeyCode::Up => line.up(),
        KeyCode::Down => line.down(),
        KeyCode::Char(c) => line.type_char(c),
        KeyCode::Backspace => line.backspace(),
        _ => {},
    }
}

impl App {
    /// Sends the input line, echoes it where the server does not, and remembers it.
    fn send_line(&mut self, server_echo: bool) -> (effects: Vec<Effect>)
        requires
            old(self).wf(),
            old(self)@.link.open ==> echo_fits(
                old(self)@,
                server_echo,
                Some(encode_utf8(old(self)@.line.input + "\r\n"@)),
            ),
        ensures
            final(self)@ == line_sent(old(self)@, server_echo).app,
            effect_models(effects@) == line_sent(old(self)@, server_echo).effects,
            final(self).wf(),
    {
        if !self.link.open {
            return Vec::new();
        }
        let mut text = self.line.input.clone();
        text.append("\r\n");
        if self.needs_local_echo(server_echo) {
            self.emulator.process(text.as_str().as_bytes());
        }
        self.line.submit();
        vec![Effect::Send(ConnectionCommand::SendText(text))]
    }

    pub fn handle_key_line_buffered(&mut self, key: Key, server_echo: bool) -> (effects: Vec<
        Effect,
    >)
        requires
            old(self).wf(),
            key.code == KeyCode::Enter && old(self)@.link.open ==> echo_fits(
                old(self)@,
                server_echo,
                Some(encode_utf8(old(self)@.line.input + "\r\n"@)),
            ),
            key.code == KeyCode::PageUp ==> old(self)@.emulator.scroll_offset + KEY_SCROLL_LINES
                <= usize::MAX,
        ensures
            final(self)@ == line_key(old(self)@, key, server_echo).app,
            effect_models(effects@) == line_key(old(self)@, key, server_echo).effects,
            final(self).wf(),
    {
        match key.code {
            KeyCode::Enter => {
                return self.send_line(server_echo);
            },
            KeyCode::PageUp => {
                self.emulator.scroll_up(KEY_SCROLL_LINES);
                return Vec::new();
            },
            KeyCode::PageDown => {
                self.emulator.scroll_down(KEY_SCROLL_LINES);
                return Vec::new();
            },
            _ => {
                type_into_line(&mut self.line, key.code);
                return Vec::new();
            },
        }
    }

    pub fn handle_key_character(&mut self, key: Key, server_echo: bool) -> (effects: Vec<Effect>)
        requires
            old(self).wf(),
            old(self)@.link.open && key.code is Char && !key.modifiers.control
                ==> old(self)@.char_input_len < usize::MAX,
            old(self)@.link.open ==> echo_fits(
                old(self)@,
                server_echo,
                keystroke(old(self)@.char_input_len, key).draw,
            ),
        ensures
            final(self)@ == character_key(old(self)@, key, server_echo).app,
            effect_models(effects@) == character_key(old(self)@, key, server_echo).effects,
            final(self).wf(),
    {
        if !self.link.open {
            return Vec::new();
        }
        let bytes = key_bytes(self.char_input_len, key);
        self.char_input_len = bytes.len;
        match &bytes.draw {
            Some(draw) => {
                if self.needs_local_echo(server_echo) {
                    self.emulator.process(draw);
                }
            },
            None => {},
        }
        match bytes.send {
            Some(send) => vec![Effect::Send(ConnectionCommand::SendRaw(send))],
            None => Vec::new(),
        }
    }
}

} // verus!
