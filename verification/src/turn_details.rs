//! One turn of a timeline, and what a thread answered.

use vstd::prelude::*;

use crate::domain::DomainEvent;
use crate::json::{member, object, opt_tree, trees, Fields, Json, Tree};
use crate::reply::{
    coded_error, debug_quoted, error_response_with_code, ok, ok_view, parse_query_sequence,
    query_number, quoted, refuses, Reply, ReplyView,
};
use crate::text::{decimal, decimal_text, joined3, opt_view, same_text};
use crate::thread_timeline::{newest, newest_rows};
use crate::timeline::{
    member_or_null, member_text, own_row, run_of, text_member, timeline_row_for_event, ThreadEntry,
};

verus! {

/// How many rows of a turn one read answers.
pub const TURN_DETAILS_SEGMENT_LIMIT: u64 = 100;

/// The query of a read of one turn.
pub struct TurnSummaryDetailsQuery {
    /// The turn.
    pub turn_id: Option<String>,
    /// Where it begins in the log.
    pub source_seq_start: Option<String>,
    /// Where it ends in the log.
    pub source_seq_end: Option<String>,
    /// The oldest row that the caller already has.
    pub before_cursor: Option<String>,
}

/// The rows of a stretch of the log.
pub open spec fn range_rows(
    thread_id: Seq<char>,
    entries: Seq<ThreadEntry>,
    start: u64,
    end: u64,
) -> Seq<Tree>
    decreases entries.len(),
{
    if entries.len() == 0 {
        Seq::empty()
    } else {
        let rest = range_rows(thread_id, entries.drop_last(), start, end);
        let last = entries.last();
        match own_row(thread_id, last.sequence, last.event) {
            Some(row) => if start <= last.sequence <= end {
                rest.push(row)
            } else {
                rest
            },
            None => rest,
        }
    }
}

/// The place of the first row of an id.
pub open spec fn row_position(rows: Seq<Tree>, id: Seq<char>) -> Option<nat>
    decreases rows.len(),
{
    if rows.len() == 0 {
        None
    } else if member(rows[0], "id"@) == Some(Tree::Str(id)) {
        Some(0)
    } else {
        match row_position(rows.drop_first(), id) {
            Some(place) => Some(place + 1),
            None => None,
        }
    }
}

/// The rows of a turn before the one that the caller already has, where it has one.
pub open spec fn cut_rows(
    rows: Seq<Tree>,
    cursor: Option<Seq<char>>,
    start: u64,
    end: u64,
) -> Result<Seq<Tree>, ReplyView> {
    match cursor {
        None => Ok(rows),
        Some(id) => if id.len() == 0 {
            Ok(rows)
        } else {
            match row_position(rows, id) {
                Some(place) => Ok(rows.take(place as int)),
                None => Err(
                    coded_error(
                        400,
                        "invalid_request"@,
                        "beforeCursor "@ + debug_quoted(id) + " is not a row of turn range "@
                            + decimal(start as nat) + ".."@ + decimal(end as nat),
                    ),
                ),
            }
        },
    }
}

/// A number that a query has to name.
pub open spec fn required_number(
    raw: Option<Seq<char>>,
    field: Seq<char>,
    missing: Seq<char>,
) -> Result<u64, ReplyView> {
    match query_number(raw, field) {
        Ok(Some(n)) => Ok(n),
        Ok(None) => Err(coded_error(400, "invalid_request"@, missing)),
        Err(refusal) => Err(refusal),
    }
}

/// The answer to a read of one turn: the newest of its rows, and where the older ones are to be
/// asked for.
pub open spec fn turn_reply(
    thread_id: Seq<char>,
    query: TurnSummaryDetailsQuery,
    entries: Seq<ThreadEntry>,
) -> ReplyView {
    match required_number(
        opt_view(query.source_seq_start),
        "sourceSeqStart"@,
        "sourceSeqStart is required"@,
    ) {
        Err(refusal) => refusal,
        Ok(start) => match required_number(
            opt_view(query.source_seq_end),
            "sourceSeqEnd"@,
            "sourceSeqEnd is required"@,
        ) {
            Err(refusal) => refusal,
            Ok(end) => if query.turn_id is None || query.turn_id->0@.len() == 0 {
                coded_error(400, "invalid_request"@, "turnId is required"@)
            } else {
                match cut_rows(
                    range_rows(thread_id, entries, start, end),
                    opt_view(query.before_cursor),
                    start,
                    end,
                ) {
                    Err(refusal) => refusal,
                    Ok(rows) => {
                        let page = newest(rows, TURN_DETAILS_SEGMENT_LIMIT);
                        ok_view(
                            object().field("rows"@, Tree::Array(page)).field(
                                "historySnapshot"@,
                                Tree::Null,
                            ).field(
                                "olderCursor"@,
                                if rows.len() > TURN_DETAILS_SEGMENT_LIMIT {
                                    member_or_null(page[0], "id"@)
                                } else {
                                    Tree::Null
                                },
                            ),
                        )
                    },
                }
            },
        },
    }
}

/// A number that a query has to name.
fn require_number(raw: &Option<String>, field: &str, missing: &str) -> (result: Result<u64, Reply>)
    ensures
        match required_number(opt_view(*raw), field@, missing@) {
            Ok(n) => result == Ok::<u64, Reply>(n),
            Err(refusal) => result matches Err(reply) && reply@ == refusal,
        },
{
    match parse_query_sequence(raw, field) {
        Ok(Some(n)) => Ok(n),
        Ok(None) => Err(error_response_with_code(400, "invalid_request", missing.to_owned())),
        Err(reply) => Err(reply),
    }
}

/// The rows of a stretch of the log.
fn rows_in_range(thread_id: &str, entries: &Vec<ThreadEntry>, start: u64, end: u64) -> (result: Vec<
    Json,
>)
    ensures
        trees(result@) == range_rows(thread_id@, entries@, start, end),
{
    let mut rows: Vec<Json> = Vec::new();
    assert(entries@.take(0) =~= Seq::<ThreadEntry>::empty());
    assert(trees(rows@) =~= range_rows(thread_id@, entries@.take(0), start, end));
    for i in 0..entries.len()
        invariant
            trees(rows@) == range_rows(thread_id@, entries@.take(i as int), start, end),
    {
        let entry: &ThreadEntry = &entries[i];
        let ghost before = trees(rows@);
        assert(entries@.take(i + 1).drop_last() =~= entries@.take(i as int));
        assert(entries@.take(i + 1).last() == *entry);
        if start <= entry.sequence && entry.sequence <= end {
            if let Some(row) = timeline_row_for_event(thread_id, entry.sequence, &entry.event) {
                rows.push(row);
                assert(trees(rows@) =~= before.push(row@));
            }
        }
    }
    assert(entries@.take(entries@.len() as int) =~= entries@);
    rows
}

/// The place of the first row of an id.
fn position_of(rows: &Vec<Json>, id: &str) -> (result: Option<usize>)
    ensures
        match result {
            Some(place) => row_position(trees(rows@), id@) == Some(place as nat) && place
                < rows@.len(),
            None => row_position(trees(rows@), id@) is None,
        },
{
    let ghost all = trees(rows@);
    assert(all.skip(0) =~= all);
    for i in 0..rows.len()
        invariant
            all == trees(rows@),
            row_position(all, id@) == (match row_position(all.skip(i as int), id@) {
                Some(place) => Some(place + i as nat),
                None => None,
            }),
    {
        assert(all.skip(i as int)[0] == rows@[i as int]@);
        assert(all.skip(i as int).drop_first() =~= all.skip(i + 1));
        let named: bool = match rows[i].get("id") {
            Some(found) => match found.as_str() {
                Some(text) => same_text(text.as_str(), id),
                None => false,
            },
            None => false,
        };
        if named {
            return Some(i);
        }
    }
    assert(all.skip(all.len() as int).len() == 0);
    None
}

/// The answer to a read of one turn: a stretch of the timeline's own rows, walked backwards from
/// the newest.
pub fn thread_turn_summary_details(
    thread_id: &str,
    query: &TurnSummaryDetailsQuery,
    entries: &Vec<ThreadEntry>,
) -> (result: Reply)
    ensures
        result@ == turn_reply(thread_id@, *query, entries@),
{
    let start: u64 = match require_number(
        &query.source_seq_start,
        "sourceSeqStart",
        "sourceSeqStart is required",
    ) {
        Ok(n) => n,
        Err(reply) => {
            return reply;
        },
    };
    let end: u64 = match require_number(
        &query.source_seq_end,
        "sourceSeqEnd",
        "sourceSeqEnd is required",
    ) {
        Ok(n) => n,
        Err(reply) => {
            return reply;
        },
    };
    let named: bool = match &query.turn_id {
        Some(turn_id) => !turn_id.as_str().is_empty(),
        None => false,
    };
    if !named {
        return error_response_with_code(400, "invalid_request", "turnId is required".to_owned());
    }
    let mut rows: Vec<Json> = rows_in_range(thread_id, entries, start, end);
    let ghost all = trees(rows@);
    if let Some(cursor) = &query.before_cursor {
        if !cursor.as_str().is_empty() {
            match position_of(&rows, cursor.as_str()) {
                Some(place) => {
                    rows.truncate(place);
                    assert(trees(rows@) =~= all.take(place as int));
                },
                None => {
                    let mut message: String = joined3(
                        "beforeCursor ",
                        quoted(cursor.as_str()).as_str(),
                        " is not a row of turn range ",
                    );
                    message.append(decimal_text(start).as_str());
                    message.append("..");
                    message.append(decimal_text(end).as_str());
                    return error_response_with_code(400, "invalid_request", message);
                },
            }
        }
    }
    let ghost cut = trees(rows@);
    let has_older: bool = rows.len() as u64 > TURN_DETAILS_SEGMENT_LIMIT;
    let page: Vec<Json> = newest_rows(rows, TURN_DETAILS_SEGMENT_LIMIT);
    let cursor: Json = if has_older {
        assert(newest(cut, TURN_DETAILS_SEGMENT_LIMIT).len() == TURN_DETAILS_SEGMENT_LIMIT);
        assert(trees(page@).len() == page@.len());
        assert(trees(page@)[0] == page@[0]@);
        match page[0].get("id") {
            Some(id) => id.copy(),
            None => Json::Null,
        }
    } else {
        Json::Null
    };
    ok(
        Fields::new().with("rows", Json::array(page)).with("historySnapshot", Json::Null).with(
            "olderCursor",
            cursor,
        ).object(),
    )
}

/// Whether an event is a completed answer.
pub open spec fn completes_answer(kind: Seq<char>, value: Tree) -> bool {
    kind == "item/completed"@ && (member(value, "item"@) matches Some(item) && member_text(
        item,
        "type"@,
    ) == Some("agentMessage"@))
}

/// The text of the last completed answer of a log; none where the last one carries no text.
pub open spec fn completed_output(entries: Seq<ThreadEntry>) -> Option<Seq<char>>
    decreases entries.len(),
{
    if entries.len() == 0 {
        None
    } else {
        match run_of(entries.last()) {
            Some(run) => if completes_answer(run.kind@, run.value@) {
                member_text(member(run.value@, "item"@)->0, "text"@)
            } else {
                completed_output(entries.drop_last())
            },
            None => completed_output(entries.drop_last()),
        }
    }
}

/// The answer to a read of a thread's output: the answers that were folded from its log, or, where
/// none was, the last that was reported whole.
pub fn thread_output(entries: &Vec<ThreadEntry>, folded: &Option<String>) -> (result: Reply)
    ensures
        result@ == ok_view(
            object().field(
                "output"@,
                opt_tree(
                    match opt_view(*folded) {
                        Some(text) => Some(text),
                        None => completed_output(entries@),
                    },
                ),
            ),
        ),
{
    let mut output: Option<String> = None;
    assert(entries@.take(0) =~= Seq::<ThreadEntry>::empty());
    for i in 0..entries.len()
        invariant
            opt_view(output) == completed_output(entries@.take(i as int)),
    {
        assert(entries@.take(i + 1).drop_last() =~= entries@.take(i as int));
        assert(entries@.take(i + 1).last() == entries@[i as int]);
        if let DomainEvent::ThreadRunEvent { run } = &entries[i].event {
            if same_text(run.kind.as_str(), "item/completed") {
                if let Some(item) = run.value.get("item") {
                    let is_answer: bool = match text_member(item, "type") {
                        Some(word) => same_text(word.as_str(), "agentMessage"),
                        None => false,
                    };
                    if is_answer {
                        output = text_member(item, "text");
                    }
                }
            }
        }
    }
    assert(entries@.take(entries@.len() as int) =~= entries@);
    let shown: Json = match folded {
        Some(text) => Json::text(text.as_str()),
        None => Json::opt_text(&output),
    };
    ok(Fields::new().with("output", shown).object())
}

/// A turn's rows are the timeline's own: whatever a read of one turn selects is the row that the
/// same entry has in the timeline, and it lies inside the stretch that was named.
pub proof fn turn_rows_are_timeline_rows(
    thread_id: Seq<char>,
    entries: Seq<ThreadEntry>,
    start: u64,
    end: u64,
    row: Tree,
)
    requires
        range_rows(thread_id, entries, start, end).contains(row),
    ensures
        exists|i: int|
            0 <= i < entries.len() && start <= (#[trigger] entries[i]).sequence <= end && own_row(
                thread_id,
                entries[i].sequence,
                entries[i].event,
            ) == Some(row),
    decreases entries.len(),
{
    let rows = range_rows(thread_id, entries, start, end);
    if entries.len() > 0 {
        let rest = range_rows(thread_id, entries.drop_last(), start, end);
        let last = entries[entries.len() - 1];
        if rest.contains(row) {
            turn_rows_are_timeline_rows(thread_id, entries.drop_last(), start, end, row);
            let i = choose|i: int|
                0 <= i < entries.drop_last().len() && start <= (
                #[trigger] entries.drop_last()[i]).sequence <= end && own_row(
                    thread_id,
                    entries.drop_last()[i].sequence,
                    entries.drop_last()[i].event,
                ) == Some(row);
            assert(entries[i] == entries.drop_last()[i]);
        } else {
            let k = choose|k: int| 0 <= k < rows.len() && rows[k] == row;
            if k < rest.len() {
                assert(rest[k] == row);
            }
            assert(own_row(thread_id, last.sequence, last.event) == Some(row));
        }
    }
}

/// Each row has an id of its own.
pub open spec fn rows_have_ids(rows: Seq<Tree>) -> bool {
    &&& forall|i: int|
        0 <= i < rows.len() ==> (member_text(#[trigger] rows[i], "id"@) matches Some(id) && id.len()
            > 0)
    &&& forall|i: int, j: int|
        0 <= i < j < rows.len() ==> member_text(#[trigger] rows[i], "id"@) != member_text(
            #[trigger] rows[j],
            "id"@,
        )
}

/// The place of a row is where its id leads.
proof fn ids_lead_to_their_rows(rows: Seq<Tree>, k: int)
    requires
        rows_have_ids(rows),
        0 <= k < rows.len(),
    ensures
        row_position(rows, member_text(rows[k], "id"@)->0) == Some(k as nat),
    decreases rows.len(),
{
    if k > 0 {
        let rest = rows.drop_first();
        assert(member_text(rows[0], "id"@) != member_text(rows[k], "id"@));
        assert forall|i: int| 0 <= i < rest.len() implies (member_text(
            #[trigger] rest[i],
            "id"@,
        ) matches Some(id) && id.len() > 0) by {
            assert(rest[i] == rows[i + 1]);
        }
        assert forall|i: int, j: int| 0 <= i < j < rest.len() implies member_text(
            #[trigger] rest[i],
            "id"@,
        ) != member_text(#[trigger] rest[j], "id"@) by {
            assert(rest[i] == rows[i + 1] && rest[j] == rows[j + 1]);
        }
        assert(rest[k - 1] == rows[k]);
        ids_lead_to_their_rows(rest, k - 1);
    }
}

/// Reading on from a page's cursor loses no row of a turn and repeats none: where there are more
/// rows than a page holds, the cursor cuts them right before the page.
pub proof fn turn_pages_follow_one_another(rows: Seq<Tree>, start: u64, end: u64)
    requires
        rows_have_ids(rows),
        rows.len() > TURN_DETAILS_SEGMENT_LIMIT,
    ensures
        ({
            let page = newest(rows, TURN_DETAILS_SEGMENT_LIMIT);
            let cursor = member_text(page[0], "id"@);
            cut_rows(rows, cursor, start, end) matches Ok(older) && older + page == rows
        }),
{
    let page = newest(rows, TURN_DETAILS_SEGMENT_LIMIT);
    let k = rows.len() - TURN_DETAILS_SEGMENT_LIMIT;
    assert(page[0] == rows[k]);
    assert(member_text(rows[k], "id"@) is Some);
    ids_lead_to_their_rows(rows, k);
    assert(rows.take(k) + page =~= rows);
}

// What a turn's details promise.

/// The rows of a turn are those of the entries between its first and its last place that have one,
/// in the log's order.
pub proof fn turns_show_the_rows_of_their_range(
    thread_id: Seq<char>,
    entries: Seq<ThreadEntry>,
    start: u64,
    end: u64,
)
    ensures
        range_rows(thread_id, entries, start, end) == entries.filter(|entry: ThreadEntry| start <= entry.sequence <= end && own_row(thread_id, entry.sequence, entry.event) is Some).map_values(|entry: ThreadEntry| own_row(thread_id, entry.sequence, entry.event)->0),
    decreases entries.len(),
{
    let kept = |entry: ThreadEntry| start <= entry.sequence <= end && own_row(thread_id, entry.sequence, entry.event) is Some;
    let row = |entry: ThreadEntry| own_row(thread_id, entry.sequence, entry.event)->0;
    reveal(Seq::filter);
    if entries.len() == 0 {
        assert(entries.filter(kept).map_values(row) =~= Seq::<Tree>::empty());
    } else {
        let rest = entries.drop_last();
        turns_show_the_rows_of_their_range(thread_id, rest, start, end);
        if kept(entries.last()) {
            assert(rest.filter(kept).push(entries.last()).map_values(row) =~= rest.filter(kept).map_values(row).push(row(entries.last())));
        }
    }
}

/// A turn is read by its id and the places it begins and ends at; each that is missing is asked
/// for.
pub proof fn turns_need_their_range(
    thread_id: &str,
    query: TurnSummaryDetailsQuery,
    entries: Vec<ThreadEntry>,
    answer: Reply,
    start: Result<Option<u64>, Reply>,
    end: Result<Option<u64>, Reply>,
)
    requires
        call_ensures(thread_turn_summary_details, (thread_id, &query, &entries), answer),
        call_ensures(parse_query_sequence, (&query.source_seq_start, "sourceSeqStart"), start),
        call_ensures(parse_query_sequence, (&query.source_seq_end, "sourceSeqEnd"), end),
    ensures
        start is Err ==> answer@ == start->Err_0@,
        start is Ok && start->Ok_0 is None ==> refuses(answer@, 400, "invalid_request"@, "sourceSeqStart is required"@),
        start is Ok && start->Ok_0 is Some && end is Err ==> answer@ == end->Err_0@,
        start is Ok && start->Ok_0 is Some && end is Ok && end->Ok_0 is None ==> refuses(answer@, 400, "invalid_request"@, "sourceSeqEnd is required"@),
        (start is Ok && start->Ok_0 is Some && end is Ok && end->Ok_0 is Some) ==> {
            let rows = range_rows(thread_id@, entries@, start->Ok_0->0, end->Ok_0->0);
            let named = query.turn_id is Some && query.turn_id->0@.len() > 0;
            &&& !named ==> refuses(answer@, 400, "invalid_request"@, "turnId is required"@)
            &&& (named && (query.before_cursor is None || query.before_cursor->0@.len() == 0)) ==> {
                &&& answer@.status == 200
                &&& member(answer@.body, "historySnapshot"@) == Some(Tree::Null)
                &&& rows.len() <= 100 ==> member(answer@.body, "rows"@) == Some(Tree::Array(rows)) && member(answer@.body, "olderCursor"@) == Some(Tree::Null)
                &&& rows.len() > 100 ==> member(answer@.body, "rows"@) == Some(Tree::Array(rows.skip(rows.len() - 100)))
            }
        },
{
    broadcast use {crate::json::member_of_field, crate::reply::errors_say_what_is_wrong};

    reveal_strlit("rows");
    reveal_strlit("olderCursor");
    reveal_strlit("historySnapshot");
    assert("rows"@.len() == 4);
    assert("olderCursor"@.len() == 11);
    assert("historySnapshot"@.len() == 15);
}

/// A cursor cuts the rows before the first that has its id; where none has, it is refused.
pub proof fn cursors_cut_before_their_row(rows: Seq<Tree>, id: Seq<char>, start: u64, end: u64)
    requires
        id.len() > 0,
    ensures
        cut_rows(rows, Some(id), start, end) is Ok <==> exists|i: int|
            0 <= i < rows.len() && member(#[trigger] rows[i], "id"@) == Some(Tree::Str(id)),
        cut_rows(rows, Some(id), start, end) is Ok ==> exists|i: int| #[trigger]
            is_row_of(rows, id, i) && cut_rows(rows, Some(id), start, end)->Ok_0 == rows.take(i),
        cut_rows(rows, Some(id), start, end) is Err ==> refuses(
            cut_rows(rows, Some(id), start, end)->Err_0,
            400,
            "invalid_request"@,
            "beforeCursor "@ + debug_quoted(id) + " is not a row of turn range "@ + decimal(
                start as nat,
            ) + ".."@ + decimal(end as nat),
        ),
        cut_rows(rows, None, start, end) == Ok::<Seq<Tree>, ReplyView>(rows),
{
    broadcast use crate::reply::errors_say_what_is_wrong;

    positions_are_of_the_first(rows, id);
}

/// Whether a row is the first that has an id.
pub open spec fn is_row_of(rows: Seq<Tree>, id: Seq<char>, i: int) -> bool {
    &&& 0 <= i < rows.len()
    &&& member(rows[i], "id"@) == Some(Tree::Str(id))
    &&& forall|j: int| 0 <= j < i ==> member(#[trigger] rows[j], "id"@) != Some(Tree::Str(id))
}

/// A position is that of the first row that has the id.
proof fn positions_are_of_the_first(rows: Seq<Tree>, id: Seq<char>)
    ensures
        row_position(rows, id) matches Some(place) ==> is_row_of(rows, id, place as int),
        row_position(rows, id) is None ==> forall|i: int|
            0 <= i < rows.len() ==> member(#[trigger] rows[i], "id"@) != Some(Tree::Str(id)),
    decreases rows.len(),
{
    if rows.len() > 0 && member(rows[0], "id"@) != Some(Tree::Str(id)) {
        let rest = rows.drop_first();
        positions_are_of_the_first(rest, id);
        match row_position(rest, id) {
            Some(place) => {
                assert(rest[place as int] == rows[place as int + 1]);
                assert forall|j: int| 0 <= j < place + 1 implies member(
                    #[trigger] rows[j],
                    "id"@,
                ) != Some(Tree::Str(id)) by {
                    if j > 0 {
                        assert(rest[j - 1] == rows[j]);
                    }
                }
            },
            None => {
                assert forall|i: int| 0 <= i < rows.len() implies member(
                    #[trigger] rows[i],
                    "id"@,
                ) != Some(Tree::Str(id)) by {
                    if i > 0 {
                        assert(rest[i - 1] == rows[i]);
                    }
                }
            },
        }
    }
}

/// Whether an entry is a completed answer of the agent.
pub open spec fn is_answer(entry: ThreadEntry) -> bool {
    &&& entry.event is ThreadRunEvent
    &&& entry.event->ThreadRunEvent_run.kind@ == "item/completed"@
    &&& member(entry.event->ThreadRunEvent_run.value@, "item"@) is Some
    &&& member(member(entry.event->ThreadRunEvent_run.value@, "item"@)->0, "type"@) == Some(
        Tree::Str("agentMessage"@),
    )
}

/// The output of a log is the text of the last answer that was completed.
pub proof fn outputs_are_the_last_answer(entries: Seq<ThreadEntry>, entry: ThreadEntry)
    ensures
        completed_output(Seq::empty()) is None,
        !is_answer(entry) ==> completed_output(entries.push(entry)) == completed_output(entries),
        is_answer(entry) ==> (member(
            member(entry.event->ThreadRunEvent_run.value@, "item"@)->0,
            "text"@,
        ) matches Some(Tree::Str(text)) ==> completed_output(entries.push(entry)) == Some(text)),
{
    assert(entries.push(entry).drop_last() =~= entries);
    assert(entries.push(entry).last() == entry);
}

/// A thread's output is what was folded of its last answer, else what that answer completed with.
pub proof fn outputs_prefer_what_was_folded(
    entries: Vec<ThreadEntry>,
    folded: Option<String>,
    answer: Reply,
)
    requires
        call_ensures(thread_output, (&entries, &folded), answer),
    ensures
        answer@.status == 200,
        folded matches Some(text) ==> member(answer@.body, "output"@) == Some(Tree::Str(text@)),
        folded is None && completed_output(entries@) is None ==> member(answer@.body, "output"@) == Some(Tree::Null),
        folded is None && completed_output(entries@) is Some ==> member(answer@.body, "output"@) == Some(Tree::Str(completed_output(entries@)->0)),
{
    broadcast use {crate::json::member_of_field, crate::reply::errors_say_what_is_wrong};

    reveal_strlit("output");
    assert("output"@.len() == 6);
}

} // verus!
