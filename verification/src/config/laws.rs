//! What holds of the files: the known hosts, the address book, the settings and the
//! captures.

use super::address_book;
use super::capture;
use super::capture::{
    base_name, candidate, collapsed, exhausted_error, header_line, is_unsafe, race_error, replaced,
    safe_name, search_after, search_result, stripped_end, stripped_start, CaptureFile, CapturePlan,
    NameSearch,
};
use super::clock::{formatted, rfc3339, stamp_of, started_of, Moment};
use super::files;
use super::files::{
    quarantine_suffix, stage_after, temporary_suffix, Backup, FileState, SaveStage, SaveStep,
};
use super::known_hosts;
use super::known_hosts::{verdict, HostKey, HostKeyModel, KnownHosts, Verdict, VerdictModel};
use super::settings;
use super::settings::{default_settings, Settings};
use crate::entry::{entry_models, AddressBookEntry, EntryModel, InputMode, Protocol};
use crate::text::{decimal, opt_text, white_space_is_what_unicode_lists};
use vstd::prelude::*;
use vstd::utf8::encode_utf8;

verus! {

// ---------------------------------------------------------------------------
// Known hosts
// ---------------------------------------------------------------------------

/// A key is unknown exactly if no stored key has its host, its port and its type.
pub proof fn unknown_keys_have_no_stored_key(store: Seq<HostKeyModel>, key: HostKeyModel)
    ensures
        verdict(store, key) is Unknown <==> forall|i: int|
            0 <= i < store.len() ==> !((#[trigger] store[i]).host == key.host && store[i].port
                == key.port && store[i].key_type == key.key_type),
    decreases store.len(),
{
    if store.len() > 0 {
        let rest = store.skip(1);
        unknown_keys_have_no_stored_key(rest, key);
        let first = store[0];
        if first.host == key.host && first.port == key.port && first.key_type == key.key_type {
            assert(!(verdict(store, key) is Unknown));
        } else if verdict(rest, key) is Unknown {
            assert forall|i: int| 0 <= i < store.len() implies !((#[trigger] store[i]).host
                == key.host && store[i].port == key.port && store[i].key_type == key.key_type) by {
                if i > 0 {
                    assert(store[i] == rest[i - 1]);
                }
            }
        } else {
            let i = choose|i: int|
                0 <= i < rest.len() && (#[trigger] rest[i]).host == key.host && rest[i].port
                    == key.port && rest[i].key_type == key.key_type;
            assert(store[i + 1] == rest[i]);
        }
    }
}

/// The first stored key of a host, port and type decides: it is the key, or the key is
/// refused and the stored one told.
pub proof fn the_first_stored_key_decides(store: Seq<HostKeyModel>, key: HostKeyModel, at: int)
    requires
        0 <= at < store.len(),
        store[at].host == key.host,
        store[at].port == key.port,
        store[at].key_type == key.key_type,
        forall|i: int|
            0 <= i < at ==> !((#[trigger] store[i]).host == key.host && store[i].port == key.port
                && store[i].key_type == key.key_type),
    ensures
        store[at].fingerprint == key.fingerprint ==> verdict(store, key) == VerdictModel::Trusted,
        store[at].fingerprint != key.fingerprint ==> verdict(store, key) == VerdictModel::Mismatch(
            store[at].fingerprint,
        ),
    decreases store.len(),
{
    if at > 0 {
        let rest = store.skip(1);
        assert(!(store[0].host == key.host && store[0].port == key.port && store[0].key_type
            == key.key_type));
        assert forall|i: int| 0 <= i < at - 1 implies !((#[trigger] rest[i]).host == key.host
            && rest[i].port == key.port && rest[i].key_type == key.key_type) by {
            assert(rest[i] == store[i + 1]);
        }
        assert(rest[at - 1] == store[at]);
        the_first_stored_key_decides(rest, key, at - 1);
    }
}

/// A key that is added for one host, port and type leaves what is known of all others as
/// it was.
pub proof fn other_hosts_are_not_touched(
    store: Seq<HostKeyModel>,
    added: HostKeyModel,
    key: HostKeyModel,
)
    requires
        added.host != key.host || added.port != key.port || added.key_type != key.key_type,
    ensures
        verdict(store.push(added), key) == verdict(store, key),
    decreases store.len(),
{
    let all = store.push(added);
    if store.len() == 0 {
        assert(all[0] == added);
        assert(all.skip(1) =~= seq![]);
        assert(verdict(all.skip(1), key) is Unknown);
    } else {
        assert(all[0] == store[0]);
        assert(all.skip(1) =~= store.skip(1).push(added));
        other_hosts_are_not_touched(store.skip(1), added, key);
    }
}

/// The keys of a file that parses are the known hosts, each as it stands there; without
/// such a file no host is known. The user hears of every file that could not be used.
pub proof fn known_hosts_are_those_of_the_file(file: FileState<Vec<HostKey>>, i: int)
    ensures
        match file {
            FileState::Parsed(keys) => {
                let (hosts, warning) = known_hosts::loaded(file);
                &&& warning is None
                &&& hosts.len() == keys@.len()
                &&& 0 <= i < keys@.len() ==> hosts[i] == (HostKeyModel {
                    host: keys@[i].host@,
                    port: keys@[i].port,
                    key_type: keys@[i].key_type@,
                    fingerprint: keys@[i].fingerprint@,
                })
            },
            FileState::Missing => known_hosts::loaded(file) == (Seq::<HostKeyModel>::empty(), None::<
                Seq<char>,
            >),
            FileState::NoLocation(e) => known_hosts::loaded(file) == (
                Seq::<HostKeyModel>::empty(),
                Some("Could not determine known_hosts path: "@ + e@),
            ),
            FileState::Unreadable { path, error } => known_hosts::loaded(file) == (
                Seq::<HostKeyModel>::empty(),
                Some("Could not read "@ + path@ + ": "@ + error@),
            ),
            FileState::Malformed { path, error, backup } => known_hosts::loaded(file) == (
                Seq::<HostKeyModel>::empty(),
                Some(
                    match backup {
                        Backup::Moved(to) => "Could not parse "@ + path@ + ": "@ + error@
                            + ". Saved corrupt copy to "@ + to@ + "."@,
                        Backup::Failed(e) => "Could not parse "@ + path@ + ": "@ + error@
                            + ". Failed to back it up: "@ + e@ + "."@,
                    },
                ),
            ),
        },
{
}

// ---------------------------------------------------------------------------
// The address book
// ---------------------------------------------------------------------------

/// Whether an entry is a telnet host of this name, host and port, and says nothing else.
pub open spec fn is_telnet_host(
    entry: EntryModel,
    name: Seq<char>,
    host: Seq<char>,
    port: u16,
) -> bool {
    &&& entry.name == name
    &&& entry.host == host
    &&& entry.port == port
    &&& entry.protocol == Protocol::Telnet
    &&& entry.username is None
    &&& entry.terminal_type is None
    &&& entry.default_input_mode is None
}

/// A first launch ships with five public telnet hosts.
pub proof fn five_hosts_are_shipped()
    ensures
        ({
            let all = address_book::shipped_entries();
            &&& all.len() == 5
            &&& is_telnet_host(all[0], "CoffeeMUD"@, "coffeemud.net"@, 2323)
            &&& is_telnet_host(all[1], "Star Wars ASCII"@, "towel.blinkenlights.nl"@, 23)
            &&& is_telnet_host(all[2], "Aardwolf MUD"@, "aardmud.org"@, 4000)
            &&& is_telnet_host(all[3], "Legend of the Red Dragon"@, "lord.stabs.org"@, 23)
            &&& is_telnet_host(all[4], "Synchronet BBS"@, "vert.synchro.net"@, 23)
        }),
{
}

/// The entries of a file that parses and holds any are the address book, each as it stands
/// there, in order. Any other file leaves the user with the shipped hosts, and with a
/// warning unless it is missing or empty.
pub proof fn entries_are_those_of_the_file(file: FileState<Vec<AddressBookEntry>>, i: int)
    ensures
        ({
            let (entries, warning) = address_book::loaded(file);
            match file {
                FileState::Parsed(listed) => {
                    &&& warning is None
                    &&& listed@.len() > 0 ==> entries.len() == listed@.len()
                    &&& listed@.len() == 0 ==> entries == address_book::shipped_entries()
                    &&& 0 <= i < listed@.len() ==> {
                        let said = listed@[i];
                        &&& entries[i].name == said.name@
                        &&& entries[i].host == said.host@
                        &&& entries[i].port == said.port
                        &&& entries[i].protocol == said.protocol
                        &&& entries[i].username is Some == said.username is Some
                        &&& said.username is Some ==> entries[i].username->0 == said.username->0@
                        &&& entries[i].terminal_type is Some == said.terminal_type is Some
                        &&& said.terminal_type is Some ==> entries[i].terminal_type->0
                            == said.terminal_type->0@
                        &&& entries[i].default_input_mode == said.default_input_mode
                    }
                },
                FileState::Missing => entries == address_book::shipped_entries() && warning is None,
                FileState::NoLocation(e) => entries == address_book::shipped_entries() && warning
                    == Some("Could not determine config path: "@ + e@),
                FileState::Unreadable { path, error } => entries == address_book::shipped_entries()
                    && warning == Some("Could not read "@ + path@ + ": "@ + error@),
                FileState::Malformed { path, error, backup } => entries
                    == address_book::shipped_entries() && warning == Some(
                    match backup {
                        Backup::Moved(to) => "Could not parse "@ + path@ + ": "@ + error@
                            + ". Saved corrupt copy to "@ + to@ + "."@,
                        Backup::Failed(e) => "Could not parse "@ + path@ + ": "@ + error@
                            + ". Failed to back it up: "@ + e@ + "."@,
                    },
                ),
            }
        }),
{
}

// ---------------------------------------------------------------------------
// The settings
// ---------------------------------------------------------------------------

/// Settings that parse are the ones in force, value by value. Without them there are a
/// thousand lines of scrollback, line mode and `xterm-256color`; the user hears of settings
/// that do not parse, and of nothing else.
pub proof fn settings_are_those_of_the_file(file: FileState<Settings>)
    ensures
        ({
            let (now, warning) = settings::loaded(file);
            match file {
                FileState::Parsed(said) => {
                    &&& now.scrollback_lines == said.scrollback_lines
                    &&& now.default_input_mode == said.default_input_mode
                    &&& now.terminal_type == said.terminal_type@
                    &&& warning is None
                },
                _ => {
                    &&& now.scrollback_lines == 1000
                    &&& now.default_input_mode == InputMode::LineBuffered
                    &&& now.terminal_type == "xterm-256color"@
                },
            }
        }),
        match file {
            FileState::Malformed { path, error, backup } => settings::loaded(file).1 == Some(
                match backup {
                    Backup::Moved(to) => "settings file at "@ + path@ + " failed to parse ("@
                        + error@ + "); quarantined to "@ + to@ + ", using defaults"@,
                    Backup::Failed(e) => "settings file at "@ + path@ + " failed to parse ("@
                        + error@ + "); failed to quarantine: "@ + e@ + ", using defaults"@,
                },
            ),
            _ => settings::loaded(file).1 is None,
        },
        default_settings().scrollback_lines == 1000,
        default_settings().default_input_mode == InputMode::LineBuffered,
        default_settings().terminal_type == "xterm-256color"@,
{
}

// ---------------------------------------------------------------------------
// Saving
// ---------------------------------------------------------------------------

/// A save makes the directory, writes a temporary file and moves it into place, in this
/// order, and each only if what came before went well: nothing is moved into place that was
/// not written. It fails for the reason of the step that failed; after a failed move the
/// temporary file is removed first.
pub proof fn a_save_replaces_only_what_was_written(e: Seq<char>, removed: Option<Seq<char>>)
    ensures
        stage_after(SaveStage::MakeDirectory, None) == SaveStage::WriteTemporary,
        stage_after(SaveStage::WriteTemporary, None) == SaveStage::Replace,
        stage_after(SaveStage::Replace, None) == SaveStage::Saved,
        stage_after(SaveStage::MakeDirectory, Some(e)) == SaveStage::Failed(e),
        stage_after(SaveStage::WriteTemporary, Some(e)) == SaveStage::Failed(e),
        stage_after(SaveStage::Replace, Some(e)) == SaveStage::RemoveTemporary(e),
        stage_after(SaveStage::RemoveTemporary(e), removed) == SaveStage::Failed(e),
        stage_after(SaveStage::Saved, removed) == SaveStage::Saved,
        stage_after(SaveStage::Failed(e), removed) == SaveStage::Failed(e),
{
}

// ---------------------------------------------------------------------------
// Captures
// ---------------------------------------------------------------------------

/// The characters that do not go into a file name are white space and / \ : ? * " < > |;
/// letters, digits and the rest do.
pub proof fn unsafe_characters_are_few(c: char)
    ensures
        is_unsafe(c) <==> crate::text::is_space(c) || c == '/' || c == '\\' || c == ':' || c == '?'
            || c == '*' || c == '"' || c == '<' || c == '>' || c == '|',
        'a' <= c && c <= 'z' ==> !is_unsafe(c),
        'A' <= c && c <= 'Z' ==> !is_unsafe(c),
        '0' <= c && c <= '9' ==> !is_unsafe(c),
        c == '_' || c == '-' || c == '.' ==> !is_unsafe(c),
{
    white_space_is_what_unicode_lists(c);
}

/// Whether `s` is made of characters that stay as they are in a file name: neither white
/// space, nor one that means something in a path or a shell, nor an underscore.
pub open spec fn is_plain(s: Seq<char>) -> bool {
    forall|i: int|
        0 <= i < s.len() ==> !crate::text::is_space(#[trigger] s[i]) && s[i] != '/' && s[i] != '\\'
            && s[i] != ':' && s[i] != '?' && s[i] != '*' && s[i] != '"' && s[i] != '<' && s[i]
            != '>' && s[i] != '|' && s[i] != '_'
}

/// Whether `s` is made of characters that do not stay: each becomes an underscore, or is
/// one.
pub open spec fn is_gap(s: Seq<char>) -> bool {
    forall|i: int|
        0 <= i < s.len() ==> crate::text::is_space(#[trigger] s[i]) || s[i] == '/' || s[i] == '\\'
            || s[i] == ':' || s[i] == '?' || s[i] == '*' || s[i] == '"' || s[i] == '<' || s[i]
            == '>' || s[i] == '|' || s[i] == '_'
}

/// A plain word after any text stands in a file name as it is.
pub proof fn plain_words_stay(s: Seq<char>, word: Seq<char>)
    requires
        is_plain(word),
    ensures
        collapsed(replaced(s + word)) == collapsed(replaced(s)) + word,
    decreases word.len(),
{
    if word.len() == 0 {
        assert(s + word =~= s);
        assert(collapsed(replaced(s)) + word =~= collapsed(replaced(s)));
    } else {
        let shorter = word.drop_last();
        assert forall|i: int| 0 <= i < shorter.len() implies !crate::text::is_space(
            #[trigger] shorter[i],
        ) && shorter[i] != '/' && shorter[i] != '\\' && shorter[i] != ':' && shorter[i] != '?'
            && shorter[i] != '*' && shorter[i] != '"' && shorter[i] != '<' && shorter[i] != '>'
            && shorter[i] != '|' && shorter[i] != '_' by {
            assert(shorter[i] == word[i]);
        }
        plain_words_stay(s, shorter);
        let all = replaced(s + word);
        assert(all.drop_last() =~= replaced(s + shorter));
        assert(all.last() == word[word.len() - 1]);
        assert(collapsed(replaced(s)) + shorter.push(word.last()) =~= collapsed(replaced(s))
            + word);
        assert(collapsed(all) =~= collapsed(replaced(s)) + word);
    }
}

/// A gap after any text makes one underscore, unless there is one already.
pub proof fn gaps_make_one_underscore(s: Seq<char>, gap: Seq<char>)
    requires
        is_gap(gap),
        gap.len() > 0,
    ensures
        collapsed(replaced(s + gap)) == (if collapsed(replaced(s)).len() > 0 && collapsed(
            replaced(s),
        ).last() == '_' {
            collapsed(replaced(s))
        } else {
            collapsed(replaced(s)).push('_')
        }),
    decreases gap.len(),
{
    let shorter = gap.drop_last();
    let all = replaced(s + gap);
    assert(all.drop_last() =~= replaced(s + shorter));
    assert(gap[gap.len() - 1] == gap.last());
    assert(all.last() == '_');
    if shorter.len() == 0 {
        assert(s + shorter =~= s);
    } else {
        assert forall|i: int| 0 <= i < shorter.len() implies crate::text::is_space(
            #[trigger] shorter[i],
        ) || shorter[i] == '/' || shorter[i] == '\\' || shorter[i] == ':' || shorter[i] == '?'
            || shorter[i] == '*' || shorter[i] == '"' || shorter[i] == '<' || shorter[i] == '>'
            || shorter[i] == '|' || shorter[i] == '_' by {
            assert(shorter[i] == gap[i]);
        }
        gaps_make_one_underscore(s, shorter);
    }
}

/// A word of plain characters stands in a file name as it is, up to 80 characters of it,
/// whatever gaps stand around it.
pub proof fn words_are_kept_in_file_names(before: Seq<char>, word: Seq<char>, after: Seq<char>)
    requires
        is_gap(before),
        is_plain(word),
        is_gap(after),
        word.len() > 0,
    ensures
        safe_name(before + word + after) == (if word.len() > 80 {
            word.take(80)
        } else {
            word
        }),
{
    let none = Seq::<char>::empty();
    let lead = collapsed(replaced(before));
    assert(collapsed(replaced(none)) =~= none);
    if before.len() > 0 {
        gaps_make_one_underscore(none, before);
        assert(none + before =~= before);
        assert(lead =~= seq!['_']);
    } else {
        assert(before =~= none);
    }
    plain_words_stay(before, word);
    let body = lead + word;
    let all = collapsed(replaced(before + word + after));
    assert(body.last() == word[word.len() - 1]);
    if after.len() > 0 {
        gaps_make_one_underscore(before + word, after);
        assert(all =~= body.push('_'));
    } else {
        assert(before + word + after =~= before + word);
    }
    let tail = if after.len() > 0 {
        word.push('_')
    } else {
        word
    };
    assert(tail[0] == word[0]);
    if before.len() > 0 {
        assert(all[0] == '_');
        assert(all.skip(1) =~= tail);
    } else {
        assert(all =~= tail);
    }
    assert(stripped_start(tail) == tail);
    assert(stripped_start(all) == tail);
    assert(word.last() == word[word.len() - 1]);
    assert(stripped_end(word) == word);
    if after.len() > 0 {
        assert(tail.drop_last() =~= word);
    }
    assert(stripped_end(tail) == word);
}

/// Two words in a name are joined by one underscore, however wide the gap between them.
pub proof fn words_are_joined_in_file_names(first: Seq<char>, gap: Seq<char>, second: Seq<char>)
    requires
        is_plain(first),
        is_gap(gap),
        is_plain(second),
        first.len() > 0,
        gap.len() > 0,
        second.len() > 0,
        first.len() + 1 + second.len() <= 80,
    ensures
        safe_name(first + gap + second) == first + seq!['_'] + second,
{
    let none = Seq::<char>::empty();
    assert(collapsed(replaced(none)) =~= none);
    plain_words_stay(none, first);
    assert(none + first =~= first);
    gaps_make_one_underscore(first, gap);
    assert(first.last() == first[first.len() - 1]);
    plain_words_stay(first + gap, second);
    let all = first + seq!['_'] + second;
    assert(collapsed(replaced(first + gap + second)) =~= all);
    assert(all[0] == first[0]);
    assert(all.last() == second[second.len() - 1]);
}

/// A name with nothing to keep makes `session`.
pub proof fn empty_names_make_a_session(gap: Seq<char>)
    requires
        is_gap(gap),
    ensures
        safe_name(gap) == "session"@,
{
    let none = Seq::<char>::empty();
    assert(collapsed(replaced(none)) =~= none);
    if gap.len() > 0 {
        gaps_make_one_underscore(none, gap);
        assert(none + gap =~= gap);
        assert(collapsed(replaced(gap)) =~= seq!['_']);
        assert(seq!['_'].skip(1) =~= none);
        assert(stripped_start(seq!['_'].skip(1)) == none);
    } else {
        assert(gap =~= none);
    }
}

/// Captures tell the time to the minute in their names, and in RFC 3339 in their first
/// line, both in local time.
pub proof fn captures_tell_local_time(now: Moment)
    ensures
        stamp_of(now) == formatted(now.seconds, now.nanos, now.offset, "%Y-%m-%dT%H%M"@),
        started_of(now) == rfc3339(now.seconds, now.nanos, now.offset),
{
}

/// A capture is named after its entry and the minute it starts in; the first free one of a
/// hundred numbered names is taken. Its first line says what is captured and since when.
pub proof fn captures_are_named_and_headed(
    entry: Seq<char>,
    host: Seq<char>,
    port: u16,
    time: Seq<char>,
    base: Seq<char>,
    number: u32,
)
    ensures
        base_name(entry, time) == safe_name(entry) + "_"@ + time,
        candidate(base, 1) == base + ".log"@,
        number != 1 ==> candidate(base, number) == base + "_"@ + decimal(number as nat) + ".log"@,
        header_line(entry, host, port, time) == "# nerdterm session: "@ + entry + " "@ + host + ":"@
            + decimal(port as nat) + " started "@ + time + "\n"@,
        exhausted_error(base) == "Could not find an available capture filename in "@ + base
            + " (tried up to _100.log)"@,
        race_error(base) == "Capture file "@ + base + " already exists (race) — try again"@,
{
}

/// Of a hundred names the first that is not taken is found; only where all are taken does
/// the search give up.
pub proof fn a_hundred_names_are_tried(taken: Seq<bool>, number: u32)
    requires
        taken.len() == 100,
    ensures
        1 <= number <= 100 && !taken[number - 1] && (forall|i: int|
            0 <= i < number - 1 ==> taken[i]) ==> search_result(1, taken) == NameSearch::Found(
            number,
        ),
        (forall|i: int| 0 <= i < 100 ==> taken[i]) ==> search_result(1, taken)
            == NameSearch::Exhausted,
{
    super::capture::the_first_free_name_is_found(taken);
    match search_result(1, taken) {
        NameSearch::Found(found) => {
            if 1 <= number <= 100 && !taken[number - 1] && (forall|i: int|
                0 <= i < number - 1 ==> taken[i]) {
                if found < number {
                    assert(taken[found - 1]);
                } else if number < found {
                    assert(taken[number - 1]);
                }
            }
        },
        _ => {},
    }
}

/// What a call says of a key, in terms of the stored keys: it is unknown exactly if none has
/// its host, port and type; it is trusted only if one of these has its fingerprint, and told
/// apart only from one that has another.
pub proof fn a_call_goes_by_host_port_and_type(
    known: &KnownHosts,
    host: &str,
    port: u16,
    key_type: &str,
    fingerprint: &str,
    found: Verdict,
)
    requires
        call_ensures(KnownHosts::verify, (known, host, port, key_type, fingerprint), found),
    ensures
        found is Unknown <==> forall|i: int|
            0 <= i < known.entries@.len() ==> !((#[trigger] known.entries@[i]).host@ == host@
                && known.entries@[i].port == port && known.entries@[i].key_type@ == key_type@),
        found is Trusted ==> exists|i: int|
            0 <= i < known.entries@.len() && (#[trigger] known.entries@[i]).host@ == host@
                && known.entries@[i].port == port && known.entries@[i].key_type@ == key_type@
                && known.entries@[i].fingerprint@ == fingerprint@,
        found is Mismatch ==> exists|i: int|
            0 <= i < known.entries@.len() && (#[trigger] known.entries@[i]).host@ == host@
                && known.entries@[i].port == port && known.entries@[i].key_type@ == key_type@
                && known.entries@[i].fingerprint@ != fingerprint@ && found->stored@
                == known.entries@[i].fingerprint@,
{
    let key = HostKeyModel { host: host@, port, key_type: key_type@, fingerprint: fingerprint@ };
    let store = known@;
    unknown_keys_have_no_stored_key(store, key);
    assert forall|i: int| 0 <= i < known.entries@.len() implies store[i] == (
    #[trigger] known.entries@[i])@ by {}
    if !(found is Unknown) {
        let at = the_deciding_key(store, key);
        assert(known.entries@[at].host@ == host@);
    } else {
        assert forall|i: int| 0 <= i < known.entries@.len() implies !((
        #[trigger] known.entries@[i]).host@ == host@ && known.entries@[i].port == port
            && known.entries@[i].key_type@ == key_type@) by {
            assert(store[i].host == known.entries@[i].host@);
        }
    }
}

/// The place of the stored key that decides.
pub(crate) proof fn the_deciding_key(store: Seq<HostKeyModel>, key: HostKeyModel) -> (at: int)
    requires
        !(verdict(store, key) is Unknown),
    ensures
        0 <= at < store.len(),
        store[at].host == key.host,
        store[at].port == key.port,
        store[at].key_type == key.key_type,
        verdict(store, key) == (if store[at].fingerprint == key.fingerprint {
            VerdictModel::Trusted
        } else {
            VerdictModel::Mismatch(store[at].fingerprint)
        }),
    decreases store.len(),
{
    let rest = store.skip(1);
    if store.len() > 0 && store[0].host == key.host && store[0].port == key.port
        && store[0].key_type == key.key_type {
        0
    } else {
        let at = the_deciding_key(rest, key);
        assert(rest[at] == store[at + 1]);
        at + 1
    }
}

/// A key that is stored comes after those that are there.
pub proof fn keys_are_stored_last(known: &mut KnownHosts, key: HostKey)
    requires
        call_ensures(KnownHosts::add, (known, key), ()),
    ensures
        final(known)@ == old(known)@.push(
            HostKeyModel {
                host: key.host@,
                port: key.port,
                key_type: key.key_type@,
                fingerprint: key.fingerprint@,
            },
        ),
{
}

/// A capture counts its header and what is appended, byte by byte.
pub proof fn captures_count_their_bytes(
    path: String,
    header: &str,
    fresh: CaptureFile,
    file: &mut CaptureFile,
    data: &[u8],
)
    requires
        call_ensures(CaptureFile::new, (path, header), fresh),
        call_ensures(CaptureFile::write, (file, data), ()),
        encode_utf8(header@).len() <= u64::MAX,
        old(file)@.bytes_written + data@.len() <= u64::MAX,
    ensures
        fresh@.path == path@,
        fresh@.bytes_written == encode_utf8(header@).len(),
        final(file)@.path == old(file)@.path,
        final(file)@.bytes_written == old(file)@.bytes_written + data@.len(),
{
}

/// A file is written under its name and `.tmp` before it takes its place; one that does not
/// parse is kept under its name, `.corrupt-` and the time in seconds.
pub proof fn files_have_their_suffixes(
    temporary: &'static str,
    seconds: u64,
    corrupt: String,
)
    requires
        call_ensures(temporary_suffix, (), temporary),
        call_ensures(quarantine_suffix, (seconds,), corrupt),
    ensures
        temporary@ == ".tmp"@,
        corrupt@ == ".corrupt-"@ + decimal(seconds as nat),
{
}

/// What is loaded is what was found in the files.
pub proof fn files_are_loaded_as_found(
    book: FileState<Vec<AddressBookEntry>>,
    entries: address_book::LoadResult,
    hosts: FileState<Vec<HostKey>>,
    keys: known_hosts::LoadResult,
    values: FileState<Settings>,
    chosen: settings::LoadedSettings,
    shipped: Vec<AddressBookEntry>,
)
    requires
        call_ensures(address_book::load, (book,), entries),
        call_ensures(known_hosts::load, (hosts,), keys),
        call_ensures(settings::load, (values,), chosen),
        call_ensures(address_book::default_entries, (), shipped),
    ensures
        entry_models(entries.entries@) == address_book::loaded(book).0,
        opt_text(entries.warning) == address_book::loaded(book).1,
        keys.known_hosts@ == known_hosts::loaded(hosts).0,
        opt_text(keys.warning) == known_hosts::loaded(hosts).1,
        chosen.settings@ == settings::loaded(values).0,
        opt_text(chosen.warning) == settings::loaded(values).1,
        entry_models(shipped@) == address_book::shipped_entries(),
{
}

/// A save starts with the directory and goes on step by step.
pub proof fn saves_go_step_by_step(
    first: SaveStep,
    step: SaveStep,
    result: Result<(), String>,
    next: SaveStep,
)
    requires
        call_ensures(files::save, (), first),
        call_ensures(SaveStep::next, (step, result), next),
    ensures
        first is MakeDirectory,
        result is Ok ==> next@ == stage_after(step@, None),
        result is Err ==> next@ == stage_after(step@, Some(result->Err_0@)),
        match step {
            SaveStep::MakeDirectory => step@ == SaveStage::MakeDirectory,
            SaveStep::WriteTemporary => step@ == SaveStage::WriteTemporary,
            SaveStep::Replace => step@ == SaveStage::Replace,
            SaveStep::RemoveTemporary(e) => step@ == SaveStage::RemoveTemporary(e@),
            SaveStep::Saved => step@ == SaveStage::Saved,
            SaveStep::Failed(e) => step@ == SaveStage::Failed(e@),
        },
{
}

/// A capture is planned, named and told of as its parts say.
pub proof fn captures_are_planned(
    entry: &str,
    host: &str,
    port: u16,
    now: Moment,
    plan: Option<CapturePlan>,
    base: &str,
    number: u32,
    name: String,
    first: NameSearch,
    search: NameSearch,
    exists: bool,
    next: NameSearch,
    all_taken: String,
    taken: String,
)
    requires
        call_ensures(capture::open_in, (entry, host, port, now), plan),
        call_ensures(capture::candidate_name, (base, number), name),
        call_ensures(capture::next_available_path, (), first),
        call_ensures(NameSearch::next, (search, exists), next),
        call_ensures(capture::exhausted_message, (base,), all_taken),
        call_ensures(capture::race_message, (base,), taken),
    ensures
        plan is Some <==> stamp_of(now) is Some && started_of(now) is Some,
        plan is Some ==> plan->0.base@ == safe_name(entry@) + "_"@ + stamp_of(now)->0,
        plan is Some ==> plan->0.header@ == header_line(entry@, host@, port, started_of(now)->0),
        name@ == candidate(base@, number),
        first == NameSearch::Probe(1),
        next == search_after(search, exists),
        all_taken@ == exhausted_error(base@),
        taken@ == race_error(base@),
{
}

} // verus!
