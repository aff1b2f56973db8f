//! The protocols spoken with a host.

pub mod laws;
pub mod ssh;
pub mod tcp;
pub mod telnet;

use crate::text::{decimal, push_decimal};
use vstd::prelude::*;
use vstd::string::*;

verus! {

/// How many seconds to wait for the TCP handshake before giving up.
pub const CONNECT_TIMEOUT: u64 = 30;

/// A host and a port, as one address.
pub open spec fn address(host: Seq<char>, port: u16) -> Seq<char> {
    host + ":"@ + decimal(port as nat)
}

/// A host and a port, as one address.
pub fn host_address(host: &str, port: u16) -> (text: String)
    ensures
        text@ == address(host@, port),
{
    let mut text = host.to_owned();
    text.append(":");
    push_decimal(&mut text, port as u64);
    text
}

/// What is shown when a host does not answer in time.
pub open spec fn timeout_reason(what: Seq<char>, host: Seq<char>, port: u16) -> Seq<char> {
    what + " to "@ + address(host, port) + " timed out after "@ + decimal(CONNECT_TIMEOUT as nat)
        + "s"@
}

/// What is shown when a host does not answer in time; `what` was waited for.
pub(crate) fn timeout_message(what: &str, host: &str, port: u16) -> (message: String)
    ensures
        message@ == timeout_reason(what@, host@, port),
{
    let mut message = what.to_owned();
    message.append(" to ");
    message.append(&host_address(host, port));
    message.append(" timed out after ");
    push_decimal(&mut message, CONNECT_TIMEOUT);
    message.append("s");
    message
}

/// How an attempt to connect ended.
pub enum ConnectResult {
    Made,
    Failed(String),
    TimedOut,
    /// The user gave it up.
    Cancelled,
}

} // verus!
