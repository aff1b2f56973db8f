//! Output of the peer is drawn, and the queries in it are answered.

use super::ansi_query::{
    attributes_report, cpr_response, cursor_report, da_response, dsr_ok_response, found,
    pending_after_all, queries_end_in_order, queries_of, status_report, AnsiQuery,
    AnsiQueryScanner,
};
use super::emulator::{fed, EmulatorModel, TerminalEmulator};
use super::vt::{same_screen, vt_cursor, vt_draws, vt_draws_on, VtOp};
use vstd::prelude::*;
use vstd::slice::*;

verus! {

/// The reply to a query, given the cursor.
pub open spec fn reply(query: AnsiQuery, cursor: (u16, u16)) -> Seq<u8> {
    match query {
        AnsiQuery::CursorPositionReport => cursor_report(cursor.0, cursor.1),
        AnsiQuery::DeviceStatusOk => status_report(),
        AnsiQuery::PrimaryDeviceAttributes => attributes_report(),
    }
}

/// The emulator after output was drawn up to a place, and the replies to the queries
/// up to there.
#[verifier::ext_equal]
pub ghost struct Drawn {
    pub emulator: EmulatorModel,
    pub upto: int,
    pub replies: Seq<Seq<u8>>,
}

/// The emulator with output drawn from `from` up to `end`, if that lies ahead.
pub open spec fn drawn_upto(
    emulator: EmulatorModel,
    data: Seq<u8>,
    from: int,
    end: int,
) -> EmulatorModel {
    if from < end {
        fed(emulator, data.subrange(from, end))
    } else {
        emulator
    }
}

/// Output is drawn up to the end of each query before the query is answered: a
/// reply reports the cursor as of the query, not as of later output.
pub open spec fn drawn(
    emulator: EmulatorModel,
    data: Seq<u8>,
    queries: Seq<(AnsiQuery, int)>,
) -> Drawn
    decreases queries.len(),
{
    if queries.len() == 0 {
        Drawn { emulator, upto: 0, replies: seq![] }
    } else {
        let before = drawn(emulator, data, queries.drop_last());
        let (query, end) = queries.last();
        let here = drawn_upto(before.emulator, data, before.upto, end);
        Drawn {
            emulator: here,
            upto: if before.upto < end {
                end
            } else {
                before.upto
            },
            replies: before.replies.push(reply(query, vt_cursor(here.screen))),
        }
    }
}

/// The emulator after all of the output.
pub open spec fn all_drawn(
    emulator: EmulatorModel,
    data: Seq<u8>,
    queries: Seq<(AnsiQuery, int)>,
) -> EmulatorModel {
    let d = drawn(emulator, data, queries);
    drawn_upto(d.emulator, data, d.upto, data.len() as int)
}

/// Whether output can be drawn from `from` up to `end`, if that lies ahead.
pub open spec fn draws_upto(emulator: EmulatorModel, data: Seq<u8>, from: int, end: int) -> bool {
    from < end ==> vt_draws(emulator.screen, data.subrange(from, end))
}

/// Whether the output up to the last of these queries can be drawn.
pub open spec fn draws(
    emulator: EmulatorModel,
    data: Seq<u8>,
    queries: Seq<(AnsiQuery, int)>,
) -> bool
    decreases queries.len(),
{
    queries.len() == 0 || {
        let before = drawn(emulator, data, queries.drop_last());
        &&& draws(emulator, data, queries.drop_last())
        &&& draws_upto(before.emulator, data, before.upto, queries.last().1)
    }
}

/// Whether all of the output can be drawn.
pub open spec fn draws_all(
    emulator: EmulatorModel,
    data: Seq<u8>,
    queries: Seq<(AnsiQuery, int)>,
) -> bool {
    let d = drawn(emulator, data, queries);
    draws(emulator, data, queries) && draws_upto(d.emulator, data, d.upto, data.len() as int)
}

/// Replies as byte strings.
pub open spec fn byte_strings(list: Seq<Vec<u8>>) -> Seq<Seq<u8>> {
    Seq::new(list.len(), |i: int| list[i]@)
}

/// The reply to a query, given the cursor.
pub fn answer(query: AnsiQuery, cursor: (u16, u16)) -> (bytes: Vec<u8>)
    ensures
        bytes@ == reply(query, cursor),
{
    match query {
        AnsiQuery::CursorPositionReport => cpr_response(cursor.0, cursor.1),
        AnsiQuery::DeviceStatusOk => dsr_ok_response(),
        AnsiQuery::PrimaryDeviceAttributes => da_response(),
    }
}

/// Draws output and returns the replies to the queries in it, in order. The cursor
/// is sampled at each query, not after later output of the same chunk.
pub fn receive(
    emulator: &mut TerminalEmulator,
    scanner: &mut AnsiQueryScanner,
    data: &[u8],
) -> (replies: Vec<Vec<u8>>)
    requires
        old(emulator).wf(),
        draws_all(old(emulator)@, data@, queries_of(old(scanner).pending(), data@)),
    ensures
        final(emulator)@ == all_drawn(
            old(emulator)@,
            data@,
            queries_of(old(scanner).pending(), data@),
        ),
        final(scanner).pending() == pending_after_all(old(scanner).pending(), data@),
        byte_strings(replies@) == drawn(
            old(emulator)@,
            data@,
            queries_of(old(scanner).pending(), data@),
        ).replies,
        final(emulator).wf(),
{
    let ghost queries = queries_of(scanner.pending(), data@);
    let ghost start = emulator@;
    proof {
        queries_end_in_order(scanner.pending(), data@);
    }
    let detected = scanner.detect(data);
    let mut replies: Vec<Vec<u8>> = Vec::new();
    let mut upto: usize = 0;
    let mut i: usize = 0;
    assert(queries.take(0) =~= seq![]);
    while i < detected.len()
        invariant
            i <= detected@.len(),
            found(detected@) == queries,
            forall|k: int| 0 <= k < queries.len() ==> 0 < (#[trigger] queries[k]).1 <= data@.len(),
            upto <= data@.len(),
            upto == drawn(start, data@, queries.take(i as int)).upto,
            emulator@ == drawn(start, data@, queries.take(i as int)).emulator,
            byte_strings(replies@) == drawn(start, data@, queries.take(i as int)).replies,
            emulator.wf(),
            draws(start, data@, queries),
        decreases detected@.len() - i,
    {
        let query = detected[i].query;
        let end: usize = detected[i].end;
        let ghost given = replies@;
        proof {
            lemma_draws_take(start, data@, queries, i + 1);
        }
        assert(queries[i as int] == (query, end as int));
        assert(queries.take(i + 1).drop_last() =~= queries.take(i as int));
        assert(queries.take(i + 1).last() == (query, end as int));
        if upto < end {
            emulator.process(slice_subrange(data, upto, end));
            upto = end;
        }
        let cursor = emulator.cursor_position();
        let bytes = answer(query, cursor);
        replies.push(bytes);
        assert(byte_strings(replies@) =~= byte_strings(given).push(bytes@));
        i = i + 1;
    }
    assert(queries.take(i as int) =~= queries);
    if upto < data.len() {
        emulator.process(slice_subrange(data, upto, data.len()));
    }
    replies
}

/// What can be drawn can be drawn up to each query on the way.
proof fn lemma_draws_take(
    emulator: EmulatorModel,
    data: Seq<u8>,
    queries: Seq<(AnsiQuery, int)>,
    n: int,
)
    requires
        draws(emulator, data, queries),
        0 <= n <= queries.len(),
    ensures
        draws(emulator, data, queries.take(n)),
    decreases queries.len(),
{
    if n == queries.len() {
        assert(queries.take(n) =~= queries);
    } else {
        lemma_draws_take(emulator, data, queries.drop_last(), n);
        assert(queries.drop_last().take(n) =~= queries.take(n));
    }
}

/// While output is drawn, the screen stays the same one.
proof fn lemma_same_screen(
    emulator: EmulatorModel,
    data: Seq<u8>,
    queries: Seq<(AnsiQuery, int)>,
)
    ensures
        same_screen(emulator.screen, drawn(emulator, data, queries).emulator.screen),
    decreases queries.len(),
{
    let start = emulator.screen;
    if queries.len() == 0 {
        assert(start.take(start.len() as int) =~= start);
    } else {
        lemma_same_screen(emulator, data, queries.drop_last());
        let before = drawn(emulator, data, queries.drop_last()).emulator.screen;
        let after = drawn(emulator, data, queries).emulator.screen;
        assert(after.take(start.len() as int) =~= before.take(start.len() as int));
    }
}

/// A screen that takes whatever comes takes this output, wherever the queries are.
pub proof fn any_output_can_be_drawn(
    emulator: EmulatorModel,
    data: Seq<u8>,
    queries: Seq<(AnsiQuery, int)>,
)
    requires
        vt_draws_on(emulator.screen),
    ensures
        draws_all(emulator, data, queries),
    decreases queries.len(),
{
    if queries.len() > 0 {
        any_output_can_be_drawn(emulator, data, queries.drop_last());
        lemma_same_screen(emulator, data, queries.drop_last());
    }
    lemma_same_screen(emulator, data, queries);
}

/// All output that a screen with this history has been handed.
pub open spec fn output(history: Seq<VtOp>) -> Seq<u8>
    decreases history.len(),
{
    if history.len() == 0 {
        seq![]
    } else {
        match history.last() {
            VtOp::Feed(data) => output(history.drop_last()) + data,
            _ => output(history.drop_last()),
        }
    }
}

proof fn lemma_fed_output(m: EmulatorModel, data: Seq<u8>)
    ensures
        output(fed(m, data).screen) == output(m.screen) + data,
{
    assert(fed(m, data).screen.drop_last() =~= m.screen);
}

/// Whether places lie within `data`, one after another.
pub open spec fn in_order(data: Seq<u8>, queries: Seq<(AnsiQuery, int)>) -> bool {
    &&& forall|i: int|
        0 <= i < queries.len() ==> 0 < (#[trigger] queries[i]).1 <= data.len()
    &&& forall|i: int, j: int|
        0 <= i < j < queries.len() ==> (#[trigger] queries[i]).1 < (#[trigger] queries[j]).1
}

/// There is a reply for each query, and it reports the cursor of a screen that has
/// been handed exactly the output up to the end of that query.
pub proof fn replies_are_as_of_their_queries(
    emulator: EmulatorModel,
    data: Seq<u8>,
    queries: Seq<(AnsiQuery, int)>,
    i: int,
)
    requires
        in_order(data, queries),
        0 <= i < queries.len(),
    ensures
        drawn(emulator, data, queries).replies.len() == queries.len(),
        ({
            let then = drawn(emulator, data, queries.take(i + 1)).emulator;
            &&& drawn(emulator, data, queries).replies[i] == reply(
                queries[i].0,
                vt_cursor(then.screen),
            )
            &&& output(then.screen) == output(emulator.screen) + data.take(queries[i].1)
        }),
    decreases queries.len(),
{
    let before = queries.drop_last();
    assert(in_order(data, before)) by {
        assert forall|j: int| 0 <= j < before.len() implies 0 < (#[trigger] before[j]).1
            <= data.len() by {
            assert(before[j] == queries[j]);
        }
        assert forall|j: int, k: int| 0 <= j < k < before.len() implies (#[trigger] before[j]).1
            < (#[trigger] before[k]).1 by {
            assert(before[j] == queries[j] && before[k] == queries[k]);
        }
    }
    lemma_drawn(emulator, data, before);
    if i == queries.len() - 1 {
        assert(queries.take(i + 1) =~= queries);
        lemma_drawn(emulator, data, queries);
    } else {
        replies_are_as_of_their_queries(emulator, data, before, i);
        assert(before.take(i + 1) =~= queries.take(i + 1));
        assert(before[i] == queries[i]);
    }
}

proof fn lemma_drawn(emulator: EmulatorModel, data: Seq<u8>, queries: Seq<(AnsiQuery, int)>)
    requires
        in_order(data, queries),
    ensures
        ({
            let d = drawn(emulator, data, queries);
            &&& d.replies.len() == queries.len()
            &&& d.upto == (if queries.len() == 0 {
                0
            } else {
                queries.last().1
            })
            &&& output(d.emulator.screen) == output(emulator.screen) + data.take(d.upto)
        }),
    decreases queries.len(),
{
    if queries.len() == 0 {
        assert(output(emulator.screen) + data.take(0) =~= output(emulator.screen));
    } else {
        let before = queries.drop_last();
        assert forall|j: int| 0 <= j < before.len() implies 0 < (#[trigger] before[j]).1
            <= data.len() by {
            assert(before[j] == queries[j]);
        }
        assert forall|j: int, k: int| 0 <= j < k < before.len() implies (#[trigger] before[j]).1
            < (#[trigger] before[k]).1 by {
            assert(before[j] == queries[j] && before[k] == queries[k]);
        }
        lemma_drawn(emulator, data, before);
        let d = drawn(emulator, data, before);
        let end = queries[queries.len() - 1].1;
        if before.len() > 0 {
            assert(before.last() == queries[queries.len() - 2]);
        }
        assert(d.upto < end <= data.len());
        lemma_fed_output(d.emulator, data.subrange(d.upto, end));
        assert(data.take(d.upto) + data.subrange(d.upto, end) =~= data.take(end));
        assert(output(emulator.screen) + data.take(d.upto) + data.subrange(d.upto, end)
            =~= output(emulator.screen) + data.take(end));
    }
}

/// All output is drawn, in order and once, wherever the queries are.
pub proof fn all_output_is_drawn(
    emulator: EmulatorModel,
    data: Seq<u8>,
    queries: Seq<(AnsiQuery, int)>,
)
    requires
        in_order(data, queries),
    ensures
        output(all_drawn(emulator, data, queries).screen) == output(emulator.screen) + data,
        all_drawn(emulator, data, queries).scroll_offset == emulator.scroll_offset,
{
    lemma_drawn(emulator, data, queries);
    lemma_offset_kept(emulator, data, queries);
    let d = drawn(emulator, data, queries);
    if d.upto < data.len() {
        lemma_fed_output(d.emulator, data.subrange(d.upto, data.len() as int));
        assert(data.take(d.upto) + data.subrange(d.upto, data.len() as int) =~= data);
        assert(output(emulator.screen) + data.take(d.upto) + data.subrange(
            d.upto,
            data.len() as int,
        ) =~= output(emulator.screen) + data);
    } else {
        if queries.len() > 0 {
            assert(queries[queries.len() - 1].1 <= data.len());
        }
        assert(data.take(d.upto) =~= data);
    }
}

proof fn lemma_offset_kept(emulator: EmulatorModel, data: Seq<u8>, queries: Seq<(AnsiQuery, int)>)
    ensures
        drawn(emulator, data, queries).emulator.scroll_offset == emulator.scroll_offset,
    decreases queries.len(),
{
    if queries.len() > 0 {
        lemma_offset_kept(emulator, data, queries.drop_last());
    }
}

} // verus!
