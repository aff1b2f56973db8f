//! Session captures: how a capture file is named, what it starts with, and how
//! much has gone into it.

use super::clock::{started_of, stamp_of, Moment};
use crate::text::{char_list, decimal, is_space, is_whitespace, push_decimal};
use vstd::prelude::*;
use vstd::string::*;
use vstd::utf8::encode_utf8;

verus! {

/// The characters that do not go into a file name: white space and those that mean
/// something in a path or a shell.
pub open spec fn is_unsafe(c: char) -> bool {
    is_space(c) || c == '/' || c == '\\' || c == ':' || c == '?' || c == '*' || c == '"' || c == '<'
        || c == '>' || c == '|'
}

/// `name` with an underscore for each of those.
pub open spec fn replaced(name: Seq<char>) -> Seq<char> {
    name.map_values(
        |c: char|
            if is_unsafe(c) {
                '_'
            } else {
                c
            },
    )
}

/// `s` with one underscore for each run of them.
pub open spec fn collapsed(s: Seq<char>) -> Seq<char>
    decreases s.len(),
{
    if s.len() == 0 {
        s
    } else {
        let before = collapsed(s.drop_last());
        if s.last() == '_' && before.len() > 0 && before.last() == '_' {
            before
        } else {
            before.push(s.last())
        }
    }
}

/// `s` without the underscores at its start.
pub open spec fn stripped_start(s: Seq<char>) -> Seq<char>
    decreases s.len(),
{
    if s.len() > 0 && s[0] == '_' {
        stripped_start(s.skip(1))
    } else {
        s
    }
}

/// `s` without the underscores at its end.
pub open spec fn stripped_end(s: Seq<char>) -> Seq<char>
    decreases s.len(),
{
    if s.len() > 0 && s.last() == '_' {
        stripped_end(s.drop_last())
    } else {
        s
    }
}

/// At most the first `n` characters of `s`.
pub open spec fn capped(s: Seq<char>, n: int) -> Seq<char> {
    if s.len() > n {
        s.take(n)
    } else {
        s
    }
}

/// The most characters of an entry's name that go into a file name.
pub const NAME_LIMIT: usize = 80;

/// An entry's name as part of a file name.
pub open spec fn safe_name(name: Seq<char>) -> Seq<char> {
    let safe = capped(
        stripped_end(stripped_start(collapsed(replaced(name)))),
        NAME_LIMIT as int,
    );
    if safe.len() == 0 {
        "session"@
    } else {
        safe
    }
}

/// Whether a character does not go into a file name.
fn unsafe_char(c: char) -> (bad: bool)
    ensures
        bad == is_unsafe(c),
{
    is_whitespace(c) || c == '/' || c == '\\' || c == ':' || c == '?' || c == '*' || c == '"' || c
        == '<' || c == '>' || c == '|'
}

/// Make an entry's name safe to use in a file name.
///
/// - Any of `/ \ : ? * " < > |` or white space becomes `_`.
/// - Runs of `_` collapse to a single `_`.
/// - Leading and trailing `_` are trimmed.
/// - The result is cut to 80 characters.
/// - An empty result becomes `session`.
/// - Other Unicode is kept as it is.
pub fn sanitize_entry_name(name: &str) -> (out: String)
    ensures
        out@ == safe_name(name@),
{
    let chars = char_list(name);
    let mut kept: Vec<char> = Vec::new();
    let mut i: usize = 0;
    let ghost all = replaced(name@);
    assert(all.take(0) =~= seq![]);
    while i < chars.len()
        invariant
            i <= chars@.len(),
            chars@ == name@,
            all == replaced(name@),
            kept@ == collapsed(all.take(i as int)),
        decreases chars@.len() - i,
    {
        let c: char = if unsafe_char(chars[i]) {
            '_'
        } else {
            chars[i]
        };
        assert(all.take(i + 1).drop_last() =~= all.take(i as int));
        assert(all.take(i + 1).last() == c);
        if !(c == '_' && kept.len() > 0 && kept[kept.len() - 1] == '_') {
            kept.push(c);
        }
        i = i + 1;
    }
    assert(all.take(i as int) =~= all);
    let mut from: usize = 0;
    assert(kept@.skip(0) =~= kept@);
    while from < kept.len() && kept[from] == '_'
        invariant
            from <= kept@.len(),
            stripped_start(kept@.skip(from as int)) == stripped_start(kept@),
        decreases kept@.len() - from,
    {
        assert(kept@.skip(from as int).skip(1) =~= kept@.skip(from + 1));
        from = from + 1;
    }
    let ghost rest = kept@.skip(from as int);
    assert(rest == stripped_start(kept@));
    let mut to: usize = kept.len();
    assert(kept@.subrange(from as int, to as int) =~= rest);
    while from < to && kept[to - 1] == '_'
        invariant
            from <= to <= kept@.len(),
            stripped_end(kept@.subrange(from as int, to as int)) == stripped_end(rest),
        decreases to,
    {
        assert(kept@.subrange(from as int, to as int).drop_last() =~= kept@.subrange(
            from as int,
            to - 1,
        ));
        to = to - 1;
    }
    let ghost middle = kept@.subrange(from as int, to as int);
    assert(middle == stripped_end(rest));
    if to - from > NAME_LIMIT {
        to = from + NAME_LIMIT;
        assert(kept@.subrange(from as int, to as int) =~= middle.take(NAME_LIMIT as int));
    }
    if from == to {
        return "session".to_owned();
    }
    let mut out = String::new();
    let mut j: usize = from;
    while j < to
        invariant
            from <= j <= to <= kept@.len(),
            out@ == kept@.subrange(from as int, j as int),
        decreases to - j,
    {
        out.push(kept[j]);
        assert(out@ =~= kept@.subrange(from as int, j + 1));
        j = j + 1;
    }
    out
}

/// The name of a capture file without its suffix: what it captures, and since when.
pub open spec fn base_name(entry_name: Seq<char>, stamp: Seq<char>) -> Seq<char> {
    safe_name(entry_name) + "_"@ + stamp
}

/// The name of a capture file without its suffix. `stamp` is the time to the
/// minute.
pub fn capture_base(entry_name: &str, stamp: &str) -> (base: String)
    ensures
        base@ == base_name(entry_name@, stamp@),
{
    let mut base = sanitize_entry_name(entry_name);
    base.append("_");
    base.append(stamp);
    base
}

/// The names that a capture file can have: `base.log`, `base_2.log`, `base_3.log`
/// and so on.
pub open spec fn candidate(base: Seq<char>, number: u32) -> Seq<char> {
    if number == 1 {
        base + ".log"@
    } else {
        base + "_"@ + decimal(number as nat) + ".log"@
    }
}

/// The `number`th name that a capture file can have.
pub fn candidate_name(base: &str, number: u32) -> (name: String)
    ensures
        name@ == candidate(base@, number),
{
    let mut name = base.to_owned();
    if number != 1 {
        name.append("_");
        push_decimal(&mut name, number as u64);
    }
    name.append(".log");
    name
}

/// How many names are tried.
pub const CANDIDATES: u32 = 100;

/// The search for a name that is not taken.
#[derive(Debug, Clone, Copy, PartialEq, Eq, Structural)]
pub enum NameSearch {
    /// See whether there is a file of this candidate's name.
    Probe(u32),
    /// This candidate's name is free.
    Found(u32),
    /// All of them are taken.
    Exhausted,
}

/// The search after it was seen whether there is a file.
pub open spec fn search_after(search: NameSearch, exists: bool) -> NameSearch {
    match search {
        NameSearch::Probe(number) => if !exists {
            NameSearch::Found(number)
        } else if number < CANDIDATES {
            NameSearch::Probe((number + 1) as u32)
        } else {
            NameSearch::Exhausted
        },
        _ => search,
    }
}

/// Pick the next name that is not taken: `base.log`, or `base_2.log`, `base_3.log`
/// and so on. The search starts with the first candidate.
pub fn next_available_path() -> (search: NameSearch)
    ensures
        search == NameSearch::Probe(1),
{
    NameSearch::Probe(1)
}

impl NameSearch {
    /// Goes on, given whether there is a file of the probed candidate's name.
    pub fn next(self, exists: bool) -> (search: NameSearch)
        ensures
            search == search_after(self, exists),
    {
        match self {
            NameSearch::Probe(number) => {
                if !exists {
                    NameSearch::Found(number)
                } else if number < CANDIDATES {
                    NameSearch::Probe(number + 1)
                } else {
                    NameSearch::Exhausted
                }
            },
            NameSearch::Found(number) => NameSearch::Found(number),
            NameSearch::Exhausted => NameSearch::Exhausted,
        }
    }
}

/// What the user is told when all names are taken.
pub open spec fn exhausted_error(dir: Seq<char>) -> Seq<char> {
    "Could not find an available capture filename in "@ + dir + " (tried up to _100.log)"@
}

/// What the user is told when all names in `dir` are taken.
pub fn exhausted_message(dir: &str) -> (message: String)
    ensures
        message@ == exhausted_error(dir@),
{
    let mut message = "Could not find an available capture filename in ".to_owned();
    message.append(dir);
    message.append(" (tried up to _100.log)");
    message
}

/// What the user is told when a file turned up under the chosen name meanwhile.
pub open spec fn race_error(path: Seq<char>) -> Seq<char> {
    "Capture file "@ + path + " already exists (race) — try again"@
}

/// What the user is told when a file turned up under the chosen name meanwhile.
pub fn race_message(path: &str) -> (message: String)
    ensures
        message@ == race_error(path@),
{
    let mut message = "Capture file ".to_owned();
    message.append(path);
    message.append(" already exists (race) — try again");
    message
}

/// The line that a capture starts with.
pub open spec fn header_line(
    entry_name: Seq<char>,
    host: Seq<char>,
    port: u16,
    started: Seq<char>,
) -> Seq<char> {
    "# nerdterm session: "@ + entry_name + " "@ + host + ":"@ + decimal(port as nat) + " started "@
        + started + "\n"@
}

/// The line that a capture starts with. `started` is the time in RFC 3339.
pub fn capture_header(entry_name: &str, host: &str, port: u16, started: &str) -> (header: String)
    ensures
        header@ == header_line(entry_name@, host@, port, started@),
{
    let mut header = "# nerdterm session: ".to_owned();
    header.append(entry_name);
    header.append(" ");
    header.append(host);
    header.append(":");
    push_decimal(&mut header, port as u64);
    header.append(" started ");
    header.append(started);
    header.append("\n");
    header
}

/// A capture about to be opened: its name without suffix, and its first line.
#[derive(Debug)]
pub struct CapturePlan {
    pub base: String,
    pub header: String,
}

/// A capture that is opened now, named after its entry and the minute.
pub fn open_in(entry_name: &str, host: &str, port: u16, now: Moment) -> (plan: Option<CapturePlan>)
    ensures
        match plan {
            Some(p) => stamp_of(now) is Some && started_of(now) is Some && p.base@ == base_name(
                entry_name@,
                stamp_of(now)->0,
            ) && p.header@ == header_line(entry_name@, host@, port, started_of(now)->0),
            None => stamp_of(now) is None || started_of(now) is None,
        },
{
    let stamp = match now.stamp() {
        Some(text) => text,
        None => {
            return None;
        },
    };
    let started = match now.started() {
        Some(text) => text,
        None => {
            return None;
        },
    };
    Some(
        CapturePlan {
            base: capture_base(entry_name, &stamp),
            header: capture_header(entry_name, host, port, &started),
        },
    )
}

/// An open capture file, as far as the user is told of it.
#[derive(Debug)]
pub struct CaptureFile {
    path: String,
    bytes_written: u64,
}

/// Where a capture goes, and how much has gone there.
#[verifier::ext_equal]
pub ghost struct CaptureModel {
    pub path: Seq<char>,
    pub bytes_written: u64,
}

impl CaptureFile {
    /// What it holds.
    pub closed spec fn view(&self) -> CaptureModel {
        CaptureModel { path: self.path@, bytes_written: self.bytes_written }
    }
}

impl CaptureFile {
    /// A fresh capture file that holds its header.
    pub fn new(path: String, header: &str) -> (file: Self)
        ensures
            file@ == (CaptureModel {
                path: path@,
                bytes_written: encode_utf8(header@).len() as u64,
            }),
    {
        CaptureFile { path, bytes_written: header.as_bytes().len() as u64 }
    }

    pub fn path(&self) -> (path: &str)
        ensures
            path@ == self@.path,
    {
        &self.path
    }

    pub fn bytes_written(&self) -> (bytes: u64)
        ensures
            bytes == self@.bytes_written,
    {
        self.bytes_written
    }

    /// Counts data that was appended to the file.
    pub fn write(&mut self, data: &[u8])
        requires
            old(self)@.bytes_written + data@.len() <= u64::MAX,
        ensures
            final(self)@ == (CaptureModel {
                bytes_written: (old(self)@.bytes_written + data@.len()) as u64,
                ..old(self)@
            }),
    {
        self.bytes_written = self.bytes_written + data.len() as u64;
    }
}

/// Whether two underscores stand side by side in `s`.
pub open spec fn has_double_underscore(s: Seq<char>) -> bool {
    exists|i: int| 0 <= i < s.len() - 1 && #[trigger] s[i] == '_' && s[i + 1] == '_'
}

/// Whether `s` holds a character that does not go into a file name.
pub open spec fn has_unsafe(s: Seq<char>) -> bool {
    exists|i: int| 0 <= i < s.len() && is_unsafe(#[trigger] s[i])
}

proof fn lemma_collapsed(s: Seq<char>)
    ensures
        !has_double_underscore(collapsed(s)),
        !has_unsafe(s) ==> !has_unsafe(collapsed(s)),
        !has_double_underscore(s) ==> collapsed(s) == s,
    decreases s.len(),
{
    if s.len() > 0 {
        let shorter = s.drop_last();
        let before = collapsed(shorter);
        let after = collapsed(s);
        lemma_collapsed(shorter);
        if has_double_underscore(after) {
            let i = choose|i: int|
                0 <= i < after.len() - 1 && #[trigger] after[i] == '_' && after[i + 1] == '_';
            if i < before.len() - 1 {
                assert(before[i] == '_' && before[i + 1] == '_');
            } else {
                assert(before.last() == '_');
            }
        }
        if !has_unsafe(s) {
            assert forall|i: int| 0 <= i < shorter.len() implies !is_unsafe(
                #[trigger] shorter[i],
            ) by {
                assert(shorter[i] == s[i]);
            }
            assert(!is_unsafe(s[s.len() - 1]));
            assert forall|i: int| 0 <= i < after.len() implies !is_unsafe(#[trigger] after[i]) by {
                if i < before.len() {
                    assert(after[i] == before[i]);
                }
            }
        }
        if !has_double_underscore(s) {
            if has_double_underscore(shorter) {
                let i = choose|i: int|
                    0 <= i < shorter.len() - 1 && #[trigger] shorter[i] == '_' && shorter[i + 1]
                        == '_';
                assert(s[i] == '_' && s[i + 1] == '_');
            }
            if s.last() == '_' && shorter.len() > 0 && shorter.last() == '_' {
                assert(s[s.len() - 2] == '_' && s[s.len() - 2 + 1] == '_');
            }
            assert(after =~= s);
        }
    }
}

/// What is stripped is a part of what was there.
proof fn lemma_stripped(s: Seq<char>)
    ensures
        ({
            let out = stripped_end(stripped_start(s));
            exists|from: int, to: int|
                0 <= from <= to <= s.len() && out == #[trigger] s.subrange(from, to)
        }),
        stripped_start(s).len() > 0 ==> stripped_start(s)[0] != '_',
        stripped_end(s).len() > 0 ==> stripped_end(s).last() != '_',
        stripped_end(stripped_start(s)).len() > 0 ==> stripped_end(stripped_start(s))[0] != '_',
{
    let a = lemma_stripped_start(s);
    let middle = stripped_start(s);
    let b = lemma_stripped_end(middle);
    assert(stripped_end(middle) =~= s.subrange(a, a + b));
    lemma_stripped_end(s);
    if b > 0 {
        assert(stripped_end(middle)[0] == middle[0]);
    }
}

proof fn lemma_stripped_start(s: Seq<char>) -> (from: int)
    ensures
        0 <= from <= s.len(),
        stripped_start(s) == s.subrange(from, s.len() as int),
        stripped_start(s).len() > 0 ==> stripped_start(s)[0] != '_',
    decreases s.len(),
{
    if s.len() > 0 && s[0] == '_' {
        let rest = s.skip(1);
        let from = lemma_stripped_start(rest);
        assert(rest.subrange(from, rest.len() as int) =~= s.subrange(from + 1, s.len() as int));
        from + 1
    } else {
        assert(s.subrange(0, s.len() as int) =~= s);
        0
    }
}

proof fn lemma_stripped_end(s: Seq<char>) -> (to: int)
    ensures
        0 <= to <= s.len(),
        stripped_end(s) == s.subrange(0, to),
        stripped_end(s).len() > 0 ==> stripped_end(s).last() != '_',
    decreases s.len(),
{
    if s.len() > 0 && s.last() == '_' {
        let shorter = s.drop_last();
        let to = lemma_stripped_end(shorter);
        assert(shorter.subrange(0, to) =~= s.subrange(0, to));
        to
    } else {
        assert(s.subrange(0, s.len() as int) =~= s);
        s.len() as int
    }
}

/// A safe name is never empty nor longer than the limit, holds none of the
/// characters that do not go into a file name, no two underscores in a row, and
/// does not start with one.
pub proof fn names_are_made_safe(name: Seq<char>)
    ensures
        0 < safe_name(name).len() <= NAME_LIMIT,
        !has_unsafe(safe_name(name)),
        !has_double_underscore(safe_name(name)),
        safe_name(name)[0] != '_',
{
    let r = replaced(name);
    let c = collapsed(r);
    let t = stripped_end(stripped_start(c));
    let out = capped(t, NAME_LIMIT as int);
    assert forall|i: int| 0 <= i < r.len() implies !is_unsafe(#[trigger] r[i]) by {
        assert(r[i] == '_' || r[i] == name[i]);
    }
    lemma_collapsed(r);
    lemma_stripped(c);
    let (from, to) = choose|from: int, to: int|
        0 <= from <= to <= c.len() && t == #[trigger] c.subrange(from, to);
    if out.len() == 0 {
        reveal_strlit("session");
        let s = "session"@;
        assert forall|i: int| 0 <= i < s.len() implies !is_unsafe(#[trigger] s[i]) && s[i]
            != '_' by {}
    } else {
        assert(out[0] == t[0]);
        assert forall|i: int| 0 <= i < out.len() implies !is_unsafe(#[trigger] out[i]) by {
            assert(out[i] == c[from + i]);
        }
        if has_double_underscore(out) {
            let i = choose|i: int|
                0 <= i < out.len() - 1 && #[trigger] out[i] == '_' && out[i + 1] == '_';
            assert(c[from + i] == '_' && c[from + i + 1] == '_');
        }
    }
}

/// A name that is safe already stays as it is.
pub proof fn safe_names_are_kept(name: Seq<char>)
    requires
        0 < name.len() <= NAME_LIMIT,
        !has_unsafe(name),
        !has_double_underscore(name),
        name[0] != '_',
        name.last() != '_',
    ensures
        safe_name(name) == name,
{
    assert forall|i: int| 0 <= i < name.len() implies replaced(name)[i] == name[i] by {
        assert(!is_unsafe(name[i]));
    }
    assert(replaced(name) =~= name);
    lemma_collapsed(name);
}

/// The end of a search from candidate `number` on, where `taken[i]` says whether
/// there is a file of candidate `i + 1`'s name.
pub open spec fn search_result(number: u32, taken: Seq<bool>) -> NameSearch
    recommends
        taken.len() == CANDIDATES,
        1 <= number <= CANDIDATES,
    decreases CANDIDATES - number,
{
    match search_after(NameSearch::Probe(number), taken[number - 1]) {
        NameSearch::Probe(next) => if next > number {
            search_result(next, taken)
        } else {
            NameSearch::Exhausted
        },
        end => end,
    }
}

/// The search finds the first name that is not taken, and gives up exactly if all
/// of them are.
pub proof fn the_first_free_name_is_found(taken: Seq<bool>)
    requires
        taken.len() == CANDIDATES,
    ensures
        match search_result(1, taken) {
            NameSearch::Found(number) => 1 <= number <= CANDIDATES && !taken[number - 1]
                && forall|i: int| 0 <= i < number - 1 ==> taken[i],
            NameSearch::Exhausted => forall|i: int| 0 <= i < CANDIDATES ==> taken[i],
            NameSearch::Probe(_) => false,
        },
{
    lemma_search(1, taken);
}

proof fn lemma_search(number: u32, taken: Seq<bool>)
    requires
        taken.len() == CANDIDATES,
        1 <= number <= CANDIDATES,
        forall|i: int| 0 <= i < number - 1 ==> taken[i],
    ensures
        match search_result(number, taken) {
            NameSearch::Found(found) => 1 <= found <= CANDIDATES && !taken[found - 1] && forall|
                i: int,
            |
                0 <= i < found - 1 ==> taken[i],
            NameSearch::Exhausted => forall|i: int| 0 <= i < CANDIDATES ==> taken[i],
            NameSearch::Probe(_) => false,
        },
    decreases CANDIDATES - number,
{
    if taken[number - 1] && number < CANDIDATES {
        lemma_search((number + 1) as u32, taken);
    }
}

/// No two candidates have the same name.
pub proof fn candidates_differ(base: Seq<char>, a: u32, b: u32)
    requires
        a != b,
    ensures
        candidate(base, a) != candidate(base, b),
{
    reveal_strlit("_");
    reveal_strlit(".log");
    let ca = candidate(base, a);
    let cb = candidate(base, b);
    let n = base.len() as int;
    if ca == cb {
        if a == 1 {
            assert(ca[n] == '.');
            assert(cb[n] == '_');
        } else if b == 1 {
            assert(cb[n] == '.');
            assert(ca[n] == '_');
        } else {
            let da = decimal(a as nat);
            let db = decimal(b as nat);
            assert(da =~= ca.subrange(n + 1, ca.len() - 4));
            assert(db =~= cb.subrange(n + 1, cb.len() - 4));
            crate::text::decimal_reads_back(a as nat, u32::MAX as nat);
            crate::text::decimal_reads_back(b as nat, u32::MAX as nat);
        }
    }
}

} // verus!
