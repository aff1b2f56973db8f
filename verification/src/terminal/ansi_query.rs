//! Side-channel scanner for ANSI/VT control queries that expect a response
//! (DSR, primary DA). The scanner observes the inbound byte stream without
//! modifying it: the caller still feeds the full buffer to the emulator, which
//! silently consumes these queries. Detected queries are returned so the caller
//! can write the appropriate reply back to the server.
//!
//! Without this responder, BBSes and login flows that probe the terminal with
//! `ESC[6n` (cursor position) hit a timeout and fall through to a visible "press
//! a key" prompt.

use crate::text::{decimal, digit_char};
use vstd::prelude::*;

verus! {

#[derive(Debug, PartialEq, Eq, Clone, Copy, Structural)]
pub enum AnsiQuery {
    /// `ESC[6n`: Cursor Position Report request. Reply: `ESC[<row>;<col>R`.
    CursorPositionReport,
    /// `ESC[5n`: Device Status Report. Reply: `ESC[0n` (OK).
    DeviceStatusOk,
    /// `ESC[c` / `ESC[0c`: Primary Device Attributes. Reply: `ESC[?1;2c`.
    PrimaryDeviceAttributes,
}

/// A query and the place where it ends.
#[derive(Debug, PartialEq, Eq, Clone, Copy, Structural)]
pub struct DetectedQuery {
    pub query: AnsiQuery,
    /// The number of bytes of the scanned chunk up to and with the query's last.
    pub end: usize,
}

pub const ESC: u8 = 0x1b;

enum State {
    Normal,
    AfterEsc,
    InCsi { params: Vec<u8> },
}

pub struct AnsiQueryScanner {
    state: State,
}

/// Whether a byte can stand between `ESC [` and the final byte of a query.
pub open spec fn is_param(b: u8) -> bool {
    0x30 <= b <= 0x39 || b == 0x3b
}

/// The query that `final_byte` completes after `ESC [` and `params`, if any.
pub open spec fn query_of(params: Seq<u8>, final_byte: u8) -> Option<AnsiQuery> {
    if final_byte == 0x6e && params == seq![0x36u8] {
        Some(AnsiQuery::CursorPositionReport)
    } else if final_byte == 0x6e && params == seq![0x35u8] {
        Some(AnsiQuery::DeviceStatusOk)
    } else if final_byte == 0x63 && (params == Seq::<u8>::empty() || params == seq![0x30u8]) {
        Some(AnsiQuery::PrimaryDeviceAttributes)
    } else {
        None
    }
}

/// The unfinished sequence that remains after `b`, where `pending` remained
/// before it: nothing, `ESC`, or `ESC [` and parameters.
pub open spec fn pending_after(pending: Seq<u8>, b: u8) -> Seq<u8> {
    if b == ESC {
        seq![ESC]
    } else if pending.len() == 1 && b == 0x5b {
        seq![ESC, 0x5b]
    } else if pending.len() >= 2 && is_param(b) {
        pending.push(b)
    } else {
        seq![]
    }
}

/// The query that `b` completes, if any.
pub open spec fn completed_by(pending: Seq<u8>, b: u8) -> Option<AnsiQuery> {
    if pending.len() >= 2 {
        query_of(pending.skip(2), b)
    } else {
        None
    }
}

/// The unfinished sequence that remains after `data`.
pub open spec fn pending_after_all(pending: Seq<u8>, data: Seq<u8>) -> Seq<u8>
    decreases data.len(),
{
    if data.len() == 0 {
        pending
    } else {
        pending_after(pending_after_all(pending, data.drop_last()), data.last())
    }
}

/// The queries that `data` completes, in order, each with the number of bytes of
/// `data` up to its end.
pub open spec fn queries_of(pending: Seq<u8>, data: Seq<u8>) -> Seq<(AnsiQuery, int)>
    decreases data.len(),
{
    if data.len() == 0 {
        seq![]
    } else {
        let before = queries_of(pending, data.drop_last());
        match completed_by(pending_after_all(pending, data.drop_last()), data.last()) {
            Some(q) => before.push((q, data.len() as int)),
            None => before,
        }
    }
}

/// What a list of detected queries says.
pub open spec fn found(list: Seq<DetectedQuery>) -> Seq<(AnsiQuery, int)> {
    Seq::new(list.len(), |i: int| (list[i].query, list[i].end as int))
}

impl AnsiQueryScanner {
    /// The unfinished sequence seen so far.
    pub closed spec fn pending(&self) -> Seq<u8> {
        match self.state {
            State::Normal => seq![],
            State::AfterEsc => seq![ESC],
            State::InCsi { params } => seq![ESC, 0x5b] + params@,
        }
    }

    pub fn new() -> (scanner: Self)
        ensures
            scanner.pending() == Seq::<u8>::empty(),
    {
        AnsiQueryScanner { state: State::Normal }
    }

    /// Feed bytes through the scanner. State persists across calls so sequences
    /// split across two reads still match.
    pub fn scan(&mut self, data: &[u8]) -> (out: Vec<AnsiQuery>)
        ensures
            final(self).pending() == pending_after_all(old(self).pending(), data@),
            out@ == queries_of(old(self).pending(), data@).map_values(
                |found: (AnsiQuery, int)| found.0,
            ),
    {
        let detected = self.detect(data);
        let mut out: Vec<AnsiQuery> = Vec::new();
        let mut i: usize = 0;
        while i < detected.len()
            invariant
                i <= detected@.len(),
                out@.len() == i,
                forall|j: int| 0 <= j < i ==> out@[j] == detected@[j].query,
            decreases detected@.len() - i,
        {
            out.push(detected[i].query);
            i = i + 1;
        }
        proof {
            let all = queries_of(old(self).pending(), data@);
            assert forall|j: int| 0 <= j < out@.len() implies out@[j] == all[j].0 by {
                assert(found(detected@)[j] == all[j]);
            }
            assert(out@ =~= all.map_values(|found: (AnsiQuery, int)| found.0));
        }
        out
    }

    /// Like `scan`, with the place where each query ends, so that the caller can
    /// answer as of that place.
    pub fn detect(&mut self, data: &[u8]) -> (out: Vec<DetectedQuery>)
        ensures
            final(self).pending() == pending_after_all(old(self).pending(), data@),
            found(out@) == queries_of(old(self).pending(), data@),
    {
        let mut out: Vec<DetectedQuery> = Vec::new();
        let mut i: usize = 0;
        assert(data@.take(0) =~= seq![]);
        while i < data.len()
            invariant
                i <= data@.len(),
                self.pending() == pending_after_all(old(self).pending(), data@.take(i as int)),
                found(out@) == queries_of(old(self).pending(), data@.take(i as int)),
            decreases data@.len() - i,
        {
            let ghost so_far = data@.take(i as int);
            let ghost listed = out@;
            assert(data@.take(i + 1).drop_last() =~= so_far);
            let completed = self.accept(data[i]);
            i = i + 1;
            match completed {
                Some(query) => {
                    out.push(DetectedQuery { query, end: i });
                    assert(found(out@) =~= found(listed).push((query, i as int)));
                },
                None => {},
            }
        }
        assert(data@.take(i as int) =~= data@);
        out
    }

    /// Takes one byte and tells the query that it completes, if any.
    fn accept(&mut self, b: u8) -> (completed: Option<AnsiQuery>)
        ensures
            final(self).pending() == pending_after(old(self).pending(), b),
            completed == completed_by(old(self).pending(), b),
    {
        let mut state = State::Normal;
        std::mem::swap(&mut state, &mut self.state);
        match state {
            State::Normal => {
                if b == ESC {
                    self.state = State::AfterEsc;
                }
                None
            },
            State::AfterEsc => {
                if b == 0x5b {
                    self.state = State::InCsi { params: Vec::new() };
                    assert(self.pending() =~= seq![ESC, 0x5b]);
                } else if b == ESC {
                    self.state = State::AfterEsc;
                }
                None
            },
            State::InCsi { mut params } => {
                assert(old(self).pending().skip(2) =~= params@);
                if b == ESC {
                    // A fresh ESC mid-sequence aborts the current one.
                    self.state = State::AfterEsc;
                    None
                } else if (0x30 <= b && b <= 0x39) || b == 0x3b {
                    params.push(b);
                    self.state = State::InCsi { params };
                    assert(self.pending() =~= old(self).pending().push(b));
                    None
                } else {
                    // A final byte, or an intermediate or private marker, which
                    // none of the queries has.
                    match_query(&params, b)
                }
            },
        }
    }
}

impl Default for AnsiQueryScanner {
    fn default() -> (scanner: Self)
        ensures
            scanner.pending() == Seq::<u8>::empty(),
    {
        Self::new()
    }
}

/// The query that `final_byte` completes after `params`, if any.
fn match_query(params: &Vec<u8>, final_byte: u8) -> (query: Option<AnsiQuery>)
    ensures
        query == query_of(params@, final_byte),
{
    let n: usize = params.len();
    if n == 0 {
        assert(params@ =~= Seq::<u8>::empty());
        if final_byte == 0x63 {
            Some(AnsiQuery::PrimaryDeviceAttributes)
        } else {
            None
        }
    } else if n == 1 {
        let p: u8 = params[0];
        assert(params@ =~= seq![p]);
        assert(seq![p][0] == p && seq![0x36u8][0] == 0x36 && seq![0x35u8][0] == 0x35
            && seq![0x30u8][0] == 0x30);
        if final_byte == 0x6e && p == 0x36 {
            Some(AnsiQuery::CursorPositionReport)
        } else if final_byte == 0x6e && p == 0x35 {
            Some(AnsiQuery::DeviceStatusOk)
        } else if final_byte == 0x63 && p == 0x30 {
            Some(AnsiQuery::PrimaryDeviceAttributes)
        } else {
            None
        }
    } else {
        None
    }
}

/// `n` in decimal, in ASCII.
pub open spec fn decimal_bytes(n: nat) -> Seq<u8> {
    decimal(n).map_values(|c: char| c as u8)
}

fn push_decimal_bytes(out: &mut Vec<u8>, n: u32)
    ensures
        final(out)@ == old(out)@ + decimal_bytes(n as nat),
    decreases n,
{
    if n >= 10 {
        push_decimal_bytes(out, n / 10);
    }
    out.push(0x30u8 + (n % 10) as u8);
    assert(digit_char((n % 10) as nat) as u8 == 0x30u8 + n % 10);
    assert(out@ =~= old(out)@ + decimal_bytes(n as nat));
}

/// `n + 1`, or the largest 16-bit number where that does not fit.
pub open spec fn one_based(n: u16) -> nat {
    if n == u16::MAX {
        u16::MAX as nat
    } else {
        (n + 1) as nat
    }
}

/// The report of a cursor position.
pub open spec fn cursor_report(row: u16, col: u16) -> Seq<u8> {
    seq![ESC, 0x5b] + decimal_bytes(one_based(row)) + seq![0x3bu8] + decimal_bytes(one_based(col))
        + seq![0x52u8]
}

/// Build a CPR response. `row` and `col` are 0-based; the wire format is 1-based.
pub fn cpr_response(row: u16, col: u16) -> (out: Vec<u8>)
    ensures
        out@ == cursor_report(row, col),
{
    let mut out: Vec<u8> = vec![ESC, 0x5b];
    push_decimal_bytes(&mut out, row.saturating_add(1) as u32);
    out.push(0x3b);
    push_decimal_bytes(&mut out, col.saturating_add(1) as u32);
    out.push(0x52);
    assert(out@ =~= cursor_report(row, col));
    out
}

/// `ESC[0n`.
pub open spec fn status_report() -> Seq<u8> {
    seq![ESC, 0x5b, 0x30, 0x6e]
}

pub fn dsr_ok_response() -> (out: Vec<u8>)
    ensures
        out@ == status_report(),
{
    vec![ESC, 0x5b, 0x30, 0x6e]
}

/// `ESC[?1;2c`: VT102 / xterm primary DA, "advanced video terminal".
pub open spec fn attributes_report() -> Seq<u8> {
    seq![ESC, 0x5b, 0x3f, 0x31, 0x3b, 0x32, 0x63]
}

pub fn da_response() -> (out: Vec<u8>)
    ensures
        out@ == attributes_report(),
{
    vec![ESC, 0x5b, 0x3f, 0x31, 0x3b, 0x32, 0x63]
}

/// The stream may arrive in pieces: a query split across two chunks is found as
/// if they had come at once.
pub proof fn pieces_of_a_stream_add_up(pending: Seq<u8>, a: Seq<u8>, b: Seq<u8>)
    ensures
        pending_after_all(pending, a + b) == pending_after_all(pending_after_all(pending, a), b),
        queries_of(pending, a + b) == queries_of(pending, a) + queries_of(
            pending_after_all(pending, a),
            b,
        ).map_values(|found: (AnsiQuery, int)| (found.0, found.1 + a.len())),
    decreases b.len(),
{
    if b.len() == 0 {
        assert(a + b =~= a);
    } else {
        pieces_of_a_stream_add_up(pending, a, b.drop_last());
        assert((a + b).drop_last() =~= a + b.drop_last());
    }
}

/// The queries of a chunk end in order, within it.
pub proof fn queries_end_in_order(pending: Seq<u8>, data: Seq<u8>)
    ensures
        forall|i: int|
            0 <= i < queries_of(pending, data).len() ==> 0 < (#[trigger] queries_of(
                pending,
                data,
            )[i]).1 <= data.len(),
        forall|i: int, j: int|
            0 <= i < j < queries_of(pending, data).len() ==> (#[trigger] queries_of(
                pending,
                data,
            )[i]).1 < (#[trigger] queries_of(pending, data)[j]).1,
    decreases data.len(),
{
    if data.len() > 0 {
        let before = queries_of(pending, data.drop_last());
        let all = queries_of(pending, data);
        queries_end_in_order(pending, data.drop_last());
        assert forall|i: int| 0 <= i < all.len() implies 0 < (#[trigger] all[i]).1
            <= data.len() by {
            if i < before.len() {
                assert(all[i] == before[i]);
            }
        }
        assert forall|i: int, j: int| 0 <= i < j < all.len() implies (#[trigger] all[i]).1 < (
        #[trigger] all[j]).1 by {
            assert(all[i] == before[i]);
            if j < before.len() {
                assert(all[j] == before[j]);
            }
        }
    }
}

/// Whether `stream` ends with `text`.
pub open spec fn ends_with(stream: Seq<u8>, text: Seq<u8>) -> bool {
    stream.len() >= text.len() && stream.skip(stream.len() - text.len()) == text
}

/// The query that a stream ends with, if any: `ESC[6n`, `ESC[5n`, `ESC[c` or
/// `ESC[0c`.
pub open spec fn query_at_end(stream: Seq<u8>) -> Option<AnsiQuery> {
    if ends_with(stream, seq![ESC, 0x5b, 0x36, 0x6e]) {
        Some(AnsiQuery::CursorPositionReport)
    } else if ends_with(stream, seq![ESC, 0x5b, 0x35, 0x6e]) {
        Some(AnsiQuery::DeviceStatusOk)
    } else if ends_with(stream, seq![ESC, 0x5b, 0x63]) || ends_with(
        stream,
        seq![ESC, 0x5b, 0x30, 0x63],
    ) {
        Some(AnsiQuery::PrimaryDeviceAttributes)
    } else {
        None
    }
}

/// Ending with `text` and one more byte.
proof fn lemma_ends_with_push(stream: Seq<u8>, text: Seq<u8>, b: u8)
    requires
        stream.len() > 0,
    ensures
        ends_with(stream, text.push(b)) <==> ends_with(stream.drop_last(), text) && stream.last()
            == b,
{
    let shorter = stream.drop_last();
    if ends_with(stream, text.push(b)) {
        assert(stream.skip(stream.len() - text.len() - 1) == text.push(b));
        assert(stream.last() == text.push(b).last());
        assert(shorter.skip(shorter.len() - text.len()) =~= text.push(b).drop_last());
        assert(text.push(b).drop_last() =~= text);
    }
    if ends_with(shorter, text) && stream.last() == b {
        assert(stream.skip(stream.len() - text.len() - 1) =~= shorter.skip(
            shorter.len() - text.len(),
        ).push(b));
    }
}

/// What remains unfinished after a whole stream, for the sequences that can lead
/// to a query.
proof fn lemma_pending_is_the_end(stream: Seq<u8>)
    ensures
        ends_with(stream, seq![ESC]) <==> pending_after_all(seq![], stream) == seq![ESC],
        ends_with(stream, seq![ESC, 0x5b]) <==> pending_after_all(seq![], stream) == seq![
            ESC,
            0x5bu8,
        ],
        forall|d: u8|
            is_param(d) ==> (ends_with(stream, #[trigger] seq![ESC, 0x5b, d])
                <==> pending_after_all(seq![], stream) == seq![ESC, 0x5b, d]),
        pending_after_all(seq![], stream).len() == 1 ==> pending_after_all(seq![], stream)
            == seq![ESC],
        pending_after_all(seq![], stream).len() == 2 ==> pending_after_all(seq![], stream)
            == seq![ESC, 0x5bu8],
        pending_after_all(seq![], stream).len() >= 2 ==> pending_after_all(
            seq![],
            stream,
        ).take(2) == seq![ESC, 0x5bu8],
    decreases stream.len(),
{
    let p = pending_after_all(seq![], stream);
    if stream.len() == 0 {
        assert(p.len() == 0);
    } else {
        let shorter = stream.drop_last();
        let b = stream.last();
        let q = pending_after_all(seq![], shorter);
        lemma_pending_is_the_end(shorter);
        lemma_ends_with_push(stream, seq![], ESC);
        lemma_ends_with_push(stream, seq![ESC], 0x5b);
        assert(Seq::<u8>::empty().push(ESC) =~= seq![ESC]);
        assert(seq![ESC].push(0x5bu8) =~= seq![ESC, 0x5b]);
        assert(shorter.skip(shorter.len() as int) =~= Seq::<u8>::empty());
        assert(ends_with(shorter, seq![]));
        assert(seq![ESC].len() == 1 && seq![ESC, 0x5bu8].len() == 2);
        assert forall|d: u8| is_param(d) implies (ends_with(stream, #[trigger] seq![ESC, 0x5b, d])
            <==> p == seq![ESC, 0x5b, d]) by {
            lemma_ends_with_push(stream, seq![ESC, 0x5b], d);
            assert(seq![ESC, 0x5bu8].push(d) =~= seq![ESC, 0x5b, d]);
            if p == seq![ESC, 0x5b, d] {
                assert(p.len() == 3);
                assert(p == q.push(b));
                assert(q =~= p.drop_last());
                assert(q =~= seq![ESC, 0x5bu8]);
                assert(b == p[2] && p[2] == d);
            }
        }
        if q.len() >= 2 && b != ESC && is_param(b) {
            assert(p.take(2) =~= q.take(2));
        }
        if p == seq![ESC, 0x5bu8] {
            assert(p.len() == 2);
            if q.len() >= 2 && is_param(b) {
                assert(p.len() == q.len() + 1);
            }
        }
        if p.len() == 2 {
            assert(p.take(2) =~= p);
        }
    }
}

/// From a fresh scanner, a query is found exactly where the stream so far ends
/// with one of the four query strings: nowhere else, and none is missed.
pub proof fn queries_are_found_where_they_end(stream: Seq<u8>)
    ensures
        stream.len() > 0 ==> completed_by(
            pending_after_all(seq![], stream.drop_last()),
            stream.last(),
        ) == query_at_end(stream),
        forall|i: int|
            0 <= i < queries_of(seq![], stream).len() ==> {
                let (query, end) = #[trigger] queries_of(seq![], stream)[i];
                0 < end <= stream.len() && query_at_end(stream.take(end)) == Some(query)
            },
        forall|end: int|
            0 < end <= stream.len() && (#[trigger] query_at_end(stream.take(end))) is Some
                ==> queries_of(seq![], stream).contains(
                (query_at_end(stream.take(end))->0, end),
            ),
    decreases stream.len(),
{
    let all = queries_of(seq![], stream);
    if stream.len() > 0 {
        let shorter = stream.drop_last();
        let b = stream.last();
        let p = pending_after_all(seq![], shorter);
        queries_are_found_where_they_end(shorter);
        lemma_pending_is_the_end(shorter);
        lemma_ends_with_push(stream, seq![ESC, 0x5b, 0x36], 0x6e);
        lemma_ends_with_push(stream, seq![ESC, 0x5b, 0x35], 0x6e);
        lemma_ends_with_push(stream, seq![ESC, 0x5b], 0x63);
        lemma_ends_with_push(stream, seq![ESC, 0x5b, 0x30], 0x63);
        assert(seq![ESC, 0x5b, 0x36].push(0x6eu8) =~= seq![ESC, 0x5b, 0x36, 0x6e]);
        assert(seq![ESC, 0x5b, 0x35].push(0x6eu8) =~= seq![ESC, 0x5b, 0x35, 0x6e]);
        assert(seq![ESC, 0x5b].push(0x63u8) =~= seq![ESC, 0x5b, 0x63]);
        assert(seq![ESC, 0x5b, 0x30].push(0x63u8) =~= seq![ESC, 0x5b, 0x30, 0x63]);
        lemma_query_of_pending(p, b);
        assert(is_param(0x36) && is_param(0x35) && is_param(0x30));
        assert(ends_with(shorter, seq![ESC, 0x5b, 0x36]) <==> p == seq![ESC, 0x5bu8, 0x36]);
        assert(ends_with(shorter, seq![ESC, 0x5b, 0x35]) <==> p == seq![ESC, 0x5bu8, 0x35]);
        assert(ends_with(shorter, seq![ESC, 0x5b, 0x30]) <==> p == seq![ESC, 0x5bu8, 0x30]);
        assert(completed_by(p, b) == query_at_end(stream));
        let before = queries_of(seq![], shorter);
        assert forall|i: int| 0 <= i < all.len() implies {
            let (query, end) = #[trigger] all[i];
            0 < end <= stream.len() && query_at_end(stream.take(end)) == Some(query)
        } by {
            if i < before.len() {
                assert(all[i] == before[i]);
                let end = before[i].1;
                assert(stream.take(end) =~= shorter.take(end));
            } else {
                assert(stream.take(stream.len() as int) =~= stream);
            }
        }
        assert forall|end: int|
            0 < end <= stream.len() && (#[trigger] query_at_end(stream.take(end))) is Some implies
            all.contains((query_at_end(stream.take(end))->0, end)) by {
            if end < stream.len() {
                assert(stream.take(end) =~= shorter.take(end));
                let item = (query_at_end(shorter.take(end))->0, end);
                assert(before.contains(item));
                let j = choose|j: int| 0 <= j < before.len() && before[j] == item;
                assert(all[j] == item);
            } else {
                assert(stream.take(end) =~= stream);
                assert(all.last() == (query_at_end(stream)->0, end));
                assert(all[all.len() - 1] == (query_at_end(stream)->0, end));
            }
        }
    }
}

/// The query that a byte completes, by what stood before it.
proof fn lemma_query_of_pending(p: Seq<u8>, b: u8)
    requires
        p.len() == 1 ==> p == seq![ESC],
        p.len() >= 2 ==> p.take(2) == seq![ESC, 0x5bu8],
    ensures
        completed_by(p, b) == (if b == 0x6e && p == seq![ESC, 0x5b, 0x36] {
            Some(AnsiQuery::CursorPositionReport)
        } else if b == 0x6e && p == seq![ESC, 0x5b, 0x35] {
            Some(AnsiQuery::DeviceStatusOk)
        } else if b == 0x63 && (p == seq![ESC, 0x5b] || p == seq![ESC, 0x5b, 0x30]) {
            Some(AnsiQuery::PrimaryDeviceAttributes)
        } else {
            None
        }),
{
    if p.len() >= 2 {
        let params = p.skip(2);
        assert(p[0] == p.take(2)[0] && p[1] == p.take(2)[1]);
        assert(seq![ESC, 0x5bu8][0] == ESC && seq![ESC, 0x5bu8][1] == 0x5b);
        assert(params.len() == p.len() - 2);
        assert(params == Seq::<u8>::empty() <==> p == seq![ESC, 0x5bu8]) by {
            if params == Seq::<u8>::empty() {
                assert(params.len() == 0);
                assert(p =~= seq![ESC, 0x5bu8]);
            }
            if p == seq![ESC, 0x5bu8] {
                assert(params =~= Seq::<u8>::empty());
            }
        }
        assert forall|d: u8| #[trigger]
            seq![d] == params <==> p == seq![ESC, 0x5b, d] by {
            if params == seq![d] {
                assert(params[0] == d);
                assert(p[2] == params[0]);
                assert(p =~= seq![ESC, 0x5b, d]);
            }
            if p == seq![ESC, 0x5b, d] {
                assert(params =~= seq![d]);
            }
        }
        assert(seq![0x36u8] == params <==> p == seq![ESC, 0x5b, 0x36]);
        assert(seq![0x35u8] == params <==> p == seq![ESC, 0x5b, 0x35]);
        assert(seq![0x30u8] == params <==> p == seq![ESC, 0x5b, 0x30]);
    } else {
        assert(p.len() <= 1);
        assert(seq![ESC, 0x5b, 0x36u8].len() == 3 && seq![ESC, 0x5b, 0x35u8].len() == 3
            && seq![ESC, 0x5b, 0x30u8].len() == 3 && seq![ESC, 0x5bu8].len() == 2);
    }
}

} // verus!
