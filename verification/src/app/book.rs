//! The address book on screen.

use crate::entry::{entry_models, AddressBookEntry, EntryModel};
use vstd::prelude::*;

verus! {

/// The entries, the one that is selected, and the one with a live session.
pub struct Book {
    pub entries: Vec<AddressBookEntry>,
    pub selected: usize,
    /// Index of the entry with a live session.
    pub connected: Option<usize>,
}

/// What the address book shows.
#[verifier::ext_equal]
pub ghost struct BookModel {
    pub entries: Seq<EntryModel>,
    pub selected: int,
    pub connected: Option<int>,
}

/// Whether the selection is on an entry, if there is any.
pub open spec fn book_wf(b: BookModel) -> bool {
    0 <= b.selected && (b.selected < b.entries.len() || b.selected == 0)
}

/// The selection moved up, from the first entry to the last.
pub open spec fn selected_previous(b: BookModel) -> BookModel {
    BookModel {
        selected: if b.entries.len() == 0 {
            b.selected
        } else if b.selected == 0 {
            b.entries.len() - 1
        } else {
            b.selected - 1
        },
        ..b
    }
}

/// The selection moved down, from the last entry to the first.
pub open spec fn selected_next(b: BookModel) -> BookModel {
    BookModel {
        selected: if b.entries.len() == 0 {
            b.selected
        } else {
            (b.selected + 1) % (b.entries.len() as int)
        },
        ..b
    }
}

/// The name of the selected entry, for messages.
pub open spec fn selected_name(b: BookModel) -> Seq<char> {
    if 0 <= b.selected < b.entries.len() {
        b.entries[b.selected].name
    } else {
        "unknown"@
    }
}

/// Where the live session's entry is once the one at `gone` has gone: nowhere, if
/// it is that entry.
pub open spec fn connected_after(connected: Option<int>, gone: int) -> Option<int> {
    match connected {
        Some(conn) => if conn == gone {
            None
        } else if gone < conn {
            Some(conn - 1)
        } else {
            Some(conn)
        },
        None => None,
    }
}

/// The book without the selected entry.
pub open spec fn without_selected(b: BookModel) -> BookModel {
    let left = b.entries.remove(b.selected);
    BookModel {
        entries: left,
        selected: if b.selected >= left.len() && b.selected > 0 {
            b.selected - 1
        } else {
            b.selected
        },
        connected: connected_after(b.connected, b.selected),
    }
}

/// The book with one more entry, which is selected.
pub open spec fn with_entry(b: BookModel, entry: EntryModel) -> BookModel {
    BookModel { entries: b.entries.push(entry), selected: b.entries.len() as int, ..b }
}

/// The book with another entry in the selected one's place.
pub open spec fn with_selected(b: BookModel, entry: EntryModel) -> BookModel {
    BookModel { entries: b.entries.update(b.selected, entry), ..b }
}

impl Book {
    /// What it holds.
    pub open spec fn view(&self) -> BookModel {
        BookModel {
            entries: entry_models(self.entries@),
            selected: self.selected as int,
            connected: match self.connected {
                Some(i) => Some(i as int),
                None => None,
            },
        }
    }

    pub fn new(entries: Vec<AddressBookEntry>) -> (book: Self)
        ensures
            book@ == (BookModel {
                entries: entry_models(entries@),
                selected: 0,
                connected: None,
            }),
    {
        Book { entries, selected: 0, connected: None }
    }

    /// Moves the selection up, from the first entry to the last.
    pub fn select_previous(&mut self)
        requires
            book_wf(old(self)@),
        ensures
            final(self)@ == selected_previous(old(self)@),
    {
        let n: usize = self.entries.len();
        if n > 0 {
            self.selected = if self.selected == 0 {
                n - 1
            } else {
                self.selected - 1
            };
        }
    }

    /// Moves the selection down, from the last entry to the first.
    pub fn select_next(&mut self)
        requires
            book_wf(old(self)@),
        ensures
            final(self)@ == selected_next(old(self)@),
    {
        let n: usize = self.entries.len();
        if n > 0 {
            self.selected = (self.selected + 1) % n;
        }
    }

    /// The name of the selected entry, for messages.
    pub fn selected_name(&self) -> (name: &str)
        ensures
            name@ == selected_name(self@),
    {
        if self.selected < self.entries.len() {
            &self.entries[self.selected].name
        } else {
            "unknown"
        }
    }

    /// Whether the live session is the selected entry's.
    pub fn on_session(&self) -> (here: bool)
        ensures
            here == (self@.connected == Some(self@.selected)),
    {
        match self.connected {
            Some(i) => i == self.selected,
            None => false,
        }
    }

    /// Removes the selected entry. The live session's index is adjusted or cleared,
    /// so that it stays with its entry.
    pub fn remove_selected(&mut self) -> (gone: AddressBookEntry)
        requires
            book_wf(old(self)@),
            old(self)@.entries.len() > 0,
        ensures
            final(self)@ == without_selected(old(self)@),
            gone@ == old(self)@.entries[old(self)@.selected],
    {
        let at: usize = self.selected;
        let ghost listed = self.entries@;
        match self.connected {
            Some(conn) => {
                if conn == at {
                    self.connected = None;
                } else if at < conn {
                    self.connected = Some(conn - 1);
                }
            },
            None => {},
        }
        let gone = self.entries.remove(at);
        assert(entry_models(self.entries@) =~= entry_models(listed).remove(at as int));
        if self.selected >= self.entries.len() && self.selected > 0 {
            self.selected = self.selected - 1;
        }
        gone
    }

    /// Adds an entry and selects it.
    pub fn push(&mut self, entry: AddressBookEntry)
        ensures
            final(self)@ == with_entry(old(self)@, entry@),
    {
        let ghost listed = self.entries@;
        self.entries.push(entry);
        self.selected = self.entries.len() - 1;
        assert(entry_models(self.entries@) =~= entry_models(listed).push(entry@));
    }

    /// Puts another entry in the selected one's place.
    pub fn replace_selected(&mut self, entry: AddressBookEntry)
        requires
            old(self)@.selected < old(self)@.entries.len(),
        ensures
            final(self)@ == with_selected(old(self)@, entry@),
    {
        let at: usize = self.selected;
        let ghost listed = self.entries@;
        self.entries.set(at, entry);
        assert(entry_models(self.entries@) =~= entry_models(listed).update(at as int, entry@));
    }
}

/// Moving the selection down and up again, or up and down, leads nowhere else.
pub proof fn selecting_goes_round(b: BookModel)
    requires
        book_wf(b),
    ensures
        selected_previous(selected_next(b)) == b,
        selected_next(selected_previous(b)) == b,
        book_wf(selected_next(b)),
        book_wf(selected_previous(b)),
{
    let n = b.entries.len() as int;
    if n > 0 {
        if b.selected + 1 < n {
            vstd::arithmetic::div_mod::lemma_small_mod((b.selected + 1) as nat, n as nat);
        } else {
            vstd::arithmetic::div_mod::lemma_mod_self_0(n);
        }
        if b.selected == 0 {
            vstd::arithmetic::div_mod::lemma_mod_self_0(n);
        } else {
            vstd::arithmetic::div_mod::lemma_small_mod(b.selected as nat, n as nat);
        }
    }
}

/// Deleting an entry leaves a live session with the entry that it was with, unless
/// that is the one that goes; all other entries stay, in order.
pub proof fn deleting_keeps_the_session_attached(b: BookModel)
    requires
        book_wf(b),
        b.entries.len() > 0,
        b.connected is Some ==> 0 <= b.connected->0 < b.entries.len(),
    ensures
        ({
            let after = without_selected(b);
            &&& book_wf(after)
            &&& after.entries == b.entries.remove(b.selected)
            &&& match b.connected {
                Some(conn) => if conn == b.selected {
                    after.connected is None
                } else {
                    &&& after.connected is Some
                    &&& 0 <= after.connected->0 < after.entries.len()
                    &&& after.entries[after.connected->0] == b.entries[conn]
                },
                None => after.connected is None,
            }
        }),
{
}

} // verus!
