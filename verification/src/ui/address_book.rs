//! The address book on screen.

use crate::app::book::BookModel;
use crate::app::App;
use crate::entry::Protocol;
use crate::network::{address, host_address};
use crate::text::char_list;
use vstd::prelude::*;
use vstd::string::*;

verus! {

/// The mark of a protocol.
pub open spec fn protocol_tag(protocol: Protocol) -> Seq<char> {
    match protocol {
        Protocol::Telnet => "[TEL]"@,
        Protocol::Ssh => "[SSH]"@,
    }
}

/// One row: the mark of a live session, the protocol, the name, host and port.
pub open spec fn entry_line(
    connected: bool,
    protocol: Protocol,
    name: Seq<char>,
    host: Seq<char>,
    port: u16,
) -> Seq<char> {
    (if connected {
        "* "@
    } else {
        "  "@
    }) + protocol_tag(protocol) + " "@ + name + " - "@ + address(host, port)
}

/// Format one address-book row (connected marker, protocol, name, host:port).
pub fn format_entry_line(
    connected: bool,
    protocol: Protocol,
    name: &str,
    host: &str,
    port: u16,
) -> (line: String)
    ensures
        line@ == entry_line(connected, protocol, name@, host@, port),
{
    let mut line = if connected {
        "* ".to_owned()
    } else {
        "  ".to_owned()
    };
    match protocol {
        Protocol::Telnet => line.append("[TEL]"),
        Protocol::Ssh => line.append("[SSH]"),
    }
    line.append(" ");
    line.append(name);
    line.append(" - ");
    line.append(&host_address(host, port));
    line
}

/// A row of the list.
#[derive(Debug)]
pub struct BookRow {
    pub text: String,
    /// Whether the entry has a live session.
    pub connected: bool,
}

/// What the rows of the list say, and which of them has a live session.
pub open spec fn book_rows(b: BookModel) -> Seq<(Seq<char>, bool)> {
    Seq::new(
        b.entries.len(),
        |i: int|
            {
                let e = b.entries[i];
                let connected = b.connected == Some(i);
                (entry_line(connected, e.protocol, e.name, e.host, e.port), connected)
            },
    )
}

/// What rows say.
pub open spec fn row_models(rows: Seq<BookRow>) -> Seq<(Seq<char>, bool)> {
    Seq::new(rows.len(), |i: int| (rows[i].text@, rows[i].connected))
}

/// The rows of the list.
pub fn list_rows(app: &App) -> (rows: Vec<BookRow>)
    ensures
        row_models(rows@) == book_rows(app@.book),
{
    let mut rows: Vec<BookRow> = Vec::new();
    let mut i: usize = 0;
    while i < app.book.entries.len()
        invariant
            i <= app.book.entries@.len(),
            rows@.len() == i,
            forall|j: int|
                0 <= j < i ==> (#[trigger] rows@[j]).text@ == book_rows(app@.book)[j].0
                    && rows@[j].connected == book_rows(app@.book)[j].1,
        decreases app.book.entries@.len() - i,
    {
        let entry = &app.book.entries[i];
        assert(app@.book.entries[i as int] == entry@);
        let connected = match app.book.connected {
            Some(c) => c == i,
            None => false,
        };
        let text = format_entry_line(
            connected,
            entry.protocol,
            &entry.name,
            &entry.host,
            entry.port,
        );
        rows.push(BookRow { text, connected });
        i = i + 1;
    }
    assert(row_models(rows@) =~= book_rows(app@.book));
    rows
}

/// A key and what it does.
#[derive(Debug)]
pub struct MenuItem {
    pub key: String,
    pub label: String,
}

/// What menu items say.
pub open spec fn menu_models(items: Seq<MenuItem>) -> Seq<(Seq<char>, Seq<char>)> {
    Seq::new(items.len(), |i: int| (items[i].key@, items[i].label@))
}

/// The menu: Enter resumes where the selected entry has the live session, and there
/// is something to disconnect while any entry has.
pub open spec fn menu(b: BookModel) -> Seq<(Seq<char>, Seq<char>)> {
    let first = seq![
        (
            "Enter"@,
            if b.connected == Some(b.selected) {
                "Resume"@
            } else {
                "Connect"@
            },
        ),
        ("A"@, "Add"@),
        ("E"@, "Edit"@),
        ("D"@, "Delete"@),
        ("S"@, "Settings"@),
    ];
    let middle = if b.connected is Some {
        first.push(("^D"@, "Disconnect"@))
    } else {
        first
    };
    middle.push(("Q"@, "Quit"@))
}

fn menu_item(key: &str, label: &str) -> (item: MenuItem)
    ensures
        item.key@ == key@,
        item.label@ == label@,
{
    MenuItem { key: key.to_owned(), label: label.to_owned() }
}

/// The menu.
pub fn menu_items(app: &App) -> (items: Vec<MenuItem>)
    ensures
        menu_models(items@) == menu(app@.book),
{
    let enter = if app.book.on_session() {
        "Resume"
    } else {
        "Connect"
    };
    let mut items: Vec<MenuItem> = vec![
        menu_item("Enter", enter),
        menu_item("A", "Add"),
        menu_item("E", "Edit"),
        menu_item("D", "Delete"),
        menu_item("S", "Settings"),
    ];
    if app.book.connected.is_some() {
        items.push(menu_item("^D", "Disconnect"));
    }
    items.push(menu_item("Q", "Quit"));
    assert(menu_models(items@) =~= menu(app@.book));
    items
}

/// How many lines a text has. A line break at its end does not start another line.
pub open spec fn line_count(text: Seq<char>) -> nat
    decreases text.len(),
{
    if text.len() == 0 {
        0
    } else {
        line_breaks(text.drop_last()) + 1
    }
}

/// How many line breaks a text has.
pub open spec fn line_breaks(text: Seq<char>) -> nat
    decreases text.len(),
{
    if text.len() == 0 {
        0
    } else if text.last() == '\n' {
        line_breaks(text.drop_last()) + 1
    } else {
        line_breaks(text.drop_last())
    }
}

/// How many rows the status takes: one when there is nothing to say, otherwise its
/// lines, at most eight, and a border.
pub open spec fn status_rows(status: Seq<char>) -> int {
    if status.len() == 0 {
        1
    } else if line_count(status) > 8 {
        10
    } else {
        line_count(status) as int + 2
    }
}

/// How many rows the status takes.
pub fn status_height(status: &str) -> (rows: u16)
    ensures
        rows == status_rows(status@),
{
    let chars = char_list(status);
    let n: usize = chars.len();
    if n == 0 {
        return 1;
    }
    let mut lines: u16 = 1;
    let mut i: usize = 0;
    assert(chars@.take(0) =~= seq![]);
    while i < n - 1
        invariant
            0 < n == chars@.len(),
            i <= n - 1,
            lines as int == (if line_breaks(chars@.take(i as int)) >= 8 {
                9int
            } else {
                line_breaks(chars@.take(i as int)) as int + 1
            }),
        decreases n - i,
    {
        assert(chars@.take(i + 1).drop_last() =~= chars@.take(i as int));
        if chars[i] == '\n' && lines < 9 {
            lines = lines + 1;
        }
        i = i + 1;
    }
    assert(chars@.take(n - 1) =~= chars@.drop_last());
    if lines > 8 {
        10
    } else {
        lines + 2
    }
}

/// Whether the status is shown from the left, as several lines are, or centred.
pub fn status_is_left_aligned(status: &str) -> (left: bool)
    ensures
        left == status@.contains('\n'),
{
    let chars = char_list(status);
    let mut i: usize = 0;
    while i < chars.len()
        invariant
            i <= chars@.len(),
            chars@ == status@,
            forall|j: int| 0 <= j < i ==> chars@[j] != '\n',
        decreases chars@.len() - i,
    {
        if chars[i] == '\n' {
            assert(status@[i as int] == '\n');
            return true;
        }
        i = i + 1;
    }
    false
}

/// There is a row for each entry, and at most one is marked as the live session's.
pub proof fn one_session_is_marked(b: BookModel, i: int, j: int)
    requires
        0 <= i < j < b.entries.len(),
    ensures
        book_rows(b).len() == b.entries.len(),
        !(book_rows(b)[i].1 && book_rows(b)[j].1),
{
}

} // verus!
