//! Address-book entries and the choices that they are made of.

use crate::text::{clone_opt, opt_text};
use vstd::prelude::*;

verus! {

/// How keys reach the remote host: whole lines, or one character at a time.
#[derive(Debug, Clone, Copy, PartialEq, Eq, Structural)]
pub enum InputMode {
    LineBuffered,
    Character,
}

/// The other mode.
pub open spec fn other_mode(mode: InputMode) -> InputMode {
    match mode {
        InputMode::LineBuffered => InputMode::Character,
        InputMode::Character => InputMode::LineBuffered,
    }
}

impl InputMode {
    /// The other mode.
    pub fn toggled(self) -> (mode: InputMode)
        ensures
            mode == other_mode(self),
    {
        match self {
            InputMode::LineBuffered => InputMode::Character,
            InputMode::Character => InputMode::LineBuffered,
        }
    }
}

#[derive(Debug, Clone, Copy, PartialEq, Eq, Structural)]
pub enum Protocol {
    Telnet,
    Ssh,
}

/// The name shown for a protocol.
pub open spec fn protocol_name(protocol: Protocol) -> Seq<char> {
    match protocol {
        Protocol::Telnet => "Telnet"@,
        Protocol::Ssh => "SSH"@,
    }
}

impl Protocol {
    /// The name shown for the protocol.
    pub fn name(&self) -> (name: &'static str)
        ensures
            name@ == protocol_name(*self),
    {
        match self {
            Protocol::Telnet => "Telnet",
            Protocol::Ssh => "SSH",
        }
    }
}

/// The protocol of an entry that names none.
pub fn default_protocol() -> (protocol: Protocol)
    ensures
        protocol == Protocol::Telnet,
{
    Protocol::Telnet
}

pub struct AddressBookEntry {
    pub name: String,
    pub host: String,
    pub port: u16,
    pub protocol: Protocol,
    pub username: Option<String>,
    /// Per-entry override for the telnet/SSH terminal type. `None` means "use
    /// whatever Settings says".
    pub terminal_type: Option<String>,
    /// Per-entry default input mode. `None` means auto: SSH starts in character
    /// mode; telnet uses Settings and may switch to character when the server
    /// negotiates WILL ECHO.
    pub default_input_mode: Option<InputMode>,
}

/// What an entry says.
#[verifier::ext_equal]
pub ghost struct EntryModel {
    pub name: Seq<char>,
    pub host: Seq<char>,
    pub port: u16,
    pub protocol: Protocol,
    pub username: Option<Seq<char>>,
    pub terminal_type: Option<Seq<char>>,
    pub default_input_mode: Option<InputMode>,
}

impl AddressBookEntry {
    /// What it holds.
    pub open spec fn view(&self) -> EntryModel {
        EntryModel {
            name: self.name@,
            host: self.host@,
            port: self.port,
            protocol: self.protocol,
            username: opt_text(self.username),
            terminal_type: opt_text(self.terminal_type),
            default_input_mode: self.default_input_mode,
        }
    }
}

impl Clone for AddressBookEntry {
    fn clone(&self) -> (copy: Self)
        ensures
            copy@ == self@,
    {
        AddressBookEntry {
            name: self.name.clone(),
            host: self.host.clone(),
            port: self.port,
            protocol: self.protocol,
            username: clone_opt(&self.username),
            terminal_type: clone_opt(&self.terminal_type),
            default_input_mode: self.default_input_mode,
        }
    }
}

/// What each of the entries says.
pub open spec fn entry_models(entries: Seq<AddressBookEntry>) -> Seq<EntryModel> {
    Seq::new(entries.len(), |i: int| entries[i]@)
}

} // verus!
