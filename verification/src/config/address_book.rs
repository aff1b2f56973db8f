//! The address book file.

use super::files::{Backup, FileState};
use crate::entry::{entry_models, AddressBookEntry, EntryModel, Protocol};
use crate::text::opt_text;
use vstd::prelude::*;
use vstd::string::*;

verus! {

pub struct LoadResult {
    pub entries: Vec<AddressBookEntry>,
    pub warning: Option<String>,
}

/// An entry of the list that a first launch ships with.
pub open spec fn telnet_host(name: Seq<char>, host: Seq<char>, port: u16) -> EntryModel {
    EntryModel {
        name,
        host,
        port,
        protocol: Protocol::Telnet,
        username: None,
        terminal_type: None,
        default_input_mode: None,
    }
}

/// The public hosts that a first launch ships with.
pub open spec fn shipped_entries() -> Seq<EntryModel> {
    seq![
        telnet_host("CoffeeMUD"@, "coffeemud.net"@, 2323),
        telnet_host("Star Wars ASCII"@, "towel.blinkenlights.nl"@, 23),
        telnet_host("Aardwolf MUD"@, "aardmud.org"@, 4000),
        telnet_host("Legend of the Red Dragon"@, "lord.stabs.org"@, 23),
        telnet_host("Synchronet BBS"@, "vert.synchro.net"@, 23),
    ]
}

fn telnet_entry(name: &str, host: &str, port: u16) -> (entry: AddressBookEntry)
    ensures
        entry@ == telnet_host(name@, host@, port),
{
    AddressBookEntry {
        name: name.to_owned(),
        host: host.to_owned(),
        port,
        protocol: Protocol::Telnet,
        username: None,
        terminal_type: None,
        default_input_mode: None,
    }
}

/// The public hosts that a first launch ships with.
pub fn default_entries() -> (entries: Vec<AddressBookEntry>)
    ensures
        entry_models(entries@) == shipped_entries(),
{
    let entries = vec![
        telnet_entry("CoffeeMUD", "coffeemud.net", 2323),
        telnet_entry("Star Wars ASCII", "towel.blinkenlights.nl", 23),
        telnet_entry("Aardwolf MUD", "aardmud.org", 4000),
        telnet_entry("Legend of the Red Dragon", "lord.stabs.org", 23),
        telnet_entry("Synchronet BBS", "vert.synchro.net", 23),
    ];
    assert(entry_models(entries@) =~= shipped_entries());
    entries
}

/// What the user is told of a file that does not parse.
pub open spec fn parse_warning(path: Seq<char>, error: Seq<char>, backup: Backup) -> Seq<char> {
    match backup {
        Backup::Moved(to) => "Could not parse "@ + path + ": "@ + error
            + ". Saved corrupt copy to "@ + to@ + "."@,
        Backup::Failed(e) => "Could not parse "@ + path + ": "@ + error
            + ". Failed to back it up: "@ + e@ + "."@,
    }
}

/// What the user is told of a file that does not parse.
pub(crate) fn unparsed(path: &str, error: &str, backup: &Backup) -> (warning: String)
    ensures
        warning@ == parse_warning(path@, error@, *backup),
{
    let mut warning = "Could not parse ".to_owned();
    warning.append(path);
    warning.append(": ");
    warning.append(error);
    match backup {
        Backup::Moved(to) => {
            warning.append(". Saved corrupt copy to ");
            warning.append(to);
        },
        Backup::Failed(e) => {
            warning.append(". Failed to back it up: ");
            warning.append(e);
        },
    }
    warning.append(".");
    warning
}

/// What the user is told of a file that cannot be read.
pub open spec fn read_warning(path: Seq<char>, error: Seq<char>) -> Seq<char> {
    "Could not read "@ + path + ": "@ + error
}

/// What the user is told of a file that cannot be read.
pub(crate) fn unread(path: &str, error: &str) -> (warning: String)
    ensures
        warning@ == read_warning(path@, error@),
{
    let mut warning = "Could not read ".to_owned();
    warning.append(path);
    warning.append(": ");
    warning.append(error);
    warning
}

/// The address book and what to tell the user of it: the entries of a file that
/// parses and holds any, otherwise the shipped ones. Only a file that is not there,
/// or is empty, goes without a warning.
pub open spec fn loaded(file: FileState<Vec<AddressBookEntry>>) -> (
    Seq<EntryModel>,
    Option<Seq<char>>,
) {
    match file {
        FileState::NoLocation(e) => (
            shipped_entries(),
            Some("Could not determine config path: "@ + e@),
        ),
        FileState::Missing => (shipped_entries(), None),
        FileState::Unreadable { path, error } => (
            shipped_entries(),
            Some(read_warning(path@, error@)),
        ),
        FileState::Malformed { path, error, backup } => (
            shipped_entries(),
            Some(parse_warning(path@, error@, backup)),
        ),
        FileState::Parsed(entries) => if entries@.len() == 0 {
            (shipped_entries(), None)
        } else {
            (entry_models(entries@), None)
        },
    }
}

/// The address book, given what was found in the file.
pub fn load(file: FileState<Vec<AddressBookEntry>>) -> (result: LoadResult)
    ensures
        (entry_models(result.entries@), opt_text(result.warning)) == loaded(file),
{
    match file {
        FileState::NoLocation(e) => {
            let mut warning = "Could not determine config path: ".to_owned();
            warning.append(&e);
            LoadResult { entries: default_entries(), warning: Some(warning) }
        },
        FileState::Missing => LoadResult { entries: default_entries(), warning: None },
        FileState::Unreadable { path, error } => LoadResult {
            entries: default_entries(),
            warning: Some(unread(&path, &error)),
        },
        FileState::Malformed { path, error, backup } => LoadResult {
            entries: default_entries(),
            warning: Some(unparsed(&path, &error, &backup)),
        },
        FileState::Parsed(entries) => if entries.len() == 0 {
            LoadResult { entries: default_entries(), warning: None }
        } else {
            LoadResult { entries, warning: None }
        },
    }
}

} // verus!
