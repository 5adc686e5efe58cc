//! A thread's log as its readers see it: event rows, the timeline, one turn of it, goals.

use vstd::prelude::*;

use crate::domain::{DomainEvent, Message, MessageRole, ProviderEvent, RunEvent, ThreadEventItem};
use crate::json::{
    member, member_of_field, object, opt_tree, trees, with_member, without, Fields, Json, Tree,
};
use crate::reasoning_timeline::{absorbed, reasoning_tree, ItemKey, Thought};
use crate::reply::{
    debug_quoted, error_response, ok, ok_view, parse_query_sequence, parsed, plain_error,
    query_number, quoted, refuses, Reply, ReplyView,
};
use crate::text::{
    chars_of, decimal, decimal_text, joined, joined3, opt_view, same_text, texts, trim, trimmed,
};

verus! {

/// One entry of a thread's room, with its place in the log.
#[derive(Debug, PartialEq, Eq)]
pub struct ThreadEntry {
    /// Its identity in the log.
    pub event_id: String,
    /// Its place, counted from one.
    pub sequence: u64,
    /// When it was published.
    pub created_at_ms: u64,
    /// What it says.
    pub event: DomainEvent,
}

/// One record of a thread's room as the log keeps it.
#[derive(Debug, PartialEq, Eq)]
pub struct StoredEvent {
    /// Its identity in the log.
    pub event_id: String,
    /// When it was published.
    pub created_at_ms: u64,
    /// What it says, where it is a fact of the domain.
    pub event: Option<DomainEvent>,
}

/// The entries of a room: each fact with its place among all records, the others counted too.
pub open spec fn room_entries(stored: Seq<StoredEvent>) -> Seq<ThreadEntry>
    decreases stored.len(),
{
    if stored.len() == 0 {
        Seq::empty()
    } else {
        let before = room_entries(stored.drop_last());
        let last = stored.last();
        match last.event {
            Some(event) => before.push(
                ThreadEntry {
                    event_id: last.event_id,
                    sequence: stored.len() as u64,
                    created_at_ms: last.created_at_ms,
                    event,
                },
            ),
            None => before,
        }
    }
}

/// The entries of a room.
pub fn thread_domain_events(stored: Vec<StoredEvent>) -> (result: Vec<ThreadEntry>)
    ensures
        result@ == room_entries(stored@),
{
    let mut rest: Vec<StoredEvent> = stored;
    let mut reversed: Vec<ThreadEntry> = Vec::new();
    assert(room_entries(rest@) + reversed@.reverse() =~= room_entries(rest@));
    while rest.len() > 0
        invariant
            room_entries(rest@) + reversed@.reverse() == room_entries(stored@),
        decreases rest.len(),
    {
        let sequence: u64 = rest.len() as u64;
        let ghost whole = rest@;
        let ghost behind = reversed@;
        if let Some(last) = rest.pop() {
            assert(whole.drop_last() =~= rest@);
            if let Some(event) = last.event {
                let entry = ThreadEntry {
                    event_id: last.event_id,
                    sequence,
                    created_at_ms: last.created_at_ms,
                    event,
                };
                reversed.push(entry);
                assert(reversed@.reverse() =~= seq![entry] + behind.reverse());
                assert(room_entries(rest@).push(entry) + behind.reverse() =~= room_entries(rest@)
                    + reversed@.reverse());
            }
        }
    }
    assert(room_entries(rest@) + reversed@.reverse() =~= reversed@.reverse());
    let mut entries: Vec<ThreadEntry> = Vec::new();
    let ghost all = reversed@;
    while reversed.len() > 0
        invariant
            reversed@ =~= all.take(reversed@.len() as int),
            reversed@.len() <= all.len(),
            entries@ =~= all.reverse().take(all.len() - reversed@.len()),
        decreases reversed.len(),
    {
        let ghost left = reversed@.len();
        if let Some(entry) = reversed.pop() {
            assert(entry == all[left - 1]);
            entries.push(entry);
        }
    }
    assert(entries@ =~= all.reverse());
    entries
}

/// A room's entries are numbered in order, and what is published later renumbers none of them.
pub proof fn sequences_are_stable(stored: Seq<StoredEvent>, more: StoredEvent, i: int, j: int)
    requires
        stored.len() < u64::MAX,
        0 <= i < j < room_entries(stored).len(),
    ensures
        room_entries(stored)[i].sequence < room_entries(stored)[j].sequence <= stored.len(),
        room_entries(stored.push(more))[i] == room_entries(stored)[i],
        room_entries(stored.push(more))[j] == room_entries(stored)[j],
    decreases stored.len(),
{
    assert(stored.push(more).drop_last() =~= stored);
    places_are_counted(stored, i);
    places_are_counted(stored, j);
    let rest = stored.drop_last();
    if j < room_entries(rest).len() {
        sequences_are_stable(rest, more, i, j);
    } else {
        places_are_counted(rest, i);
    }
}

/// An entry's place lies within the room.
proof fn places_are_counted(stored: Seq<StoredEvent>, i: int)
    requires
        stored.len() < u64::MAX,
        0 <= i < room_entries(stored).len(),
    ensures
        1 <= room_entries(stored)[i].sequence <= stored.len(),
    decreases stored.len(),
{
    if i < room_entries(stored.drop_last()).len() {
        places_are_counted(stored.drop_last(), i);
    }
}

/// The run event of an entry, where it is one.
pub open spec fn run_of(entry: ThreadEntry) -> Option<RunEvent> {
    match entry.event {
        DomainEvent::ThreadRunEvent { run } => Some(run),
        _ => None,
    }
}

/// A value without its type member.
pub open spec fn untyped(data: Tree) -> Tree {
    match data {
        Tree::Object(fields) => Tree::Object(without(fields, "type"@)),
        _ => data,
    }
}

/// The row of a run event.
pub open spec fn event_row_tree(entry: ThreadEntry, run: RunEvent) -> Tree {
    object().field("id"@, Tree::Str(entry.event_id@))
        .field("scope"@, run.scope@)
        .field("threadId"@, Tree::Str(run.thread_id@))
        .field("seq"@, Tree::UInt(entry.sequence))
        .field("type"@, Tree::Str(run.kind@))
        .field("data"@, untyped(run.data@))
        .field("createdAt"@, Tree::UInt(entry.created_at_ms))
}

/// The row of a run event.
fn thread_event_row(entry: &ThreadEntry, run: &RunEvent) -> (result: Json)
    ensures
        result@ == event_row_tree(*entry, *run),
{
    let copied: Json = run.data.copy();
    let is_object: bool = copied.is_object();
    let data: Json = if is_object {
        match copied.into_fields() {
            Some(fields) => fields.without("type").object(),
            None => Json::Null,
        }
    } else {
        copied
    };
    Fields::new().with("id", Json::text(entry.event_id.as_str()))
        .with("scope", run.scope.copy())
        .with("threadId", Json::text(run.thread_id.as_str()))
        .with("seq", Json::UInt(entry.sequence))
        .with("type", Json::text(run.kind.as_str()))
        .with("data", data)
        .with("createdAt", Json::UInt(entry.created_at_ms))
        .object()
}

/// What a read of event rows selects.
pub struct EventSelection {
    /// Only events after this place.
    pub after: Option<u64>,
    /// Only events before this place.
    pub before: Option<u64>,
    /// Only events of these types.
    pub types: Option<Vec<String>>,
    /// The newest first.
    pub descending: bool,
    /// At most so many.
    pub limit: u64,
}

/// Whether a selection takes an event.
pub open spec fn selects(selection: EventSelection, sequence: u64, kind: Seq<char>) -> bool {
    &&& selection.after matches Some(after) ==> sequence > after
    &&& selection.before matches Some(before) ==> sequence < before
    &&& selection.types matches Some(types) ==> texts(types@).contains(kind)
}

/// The rows of the events that a selection takes, in the order of the log.
pub open spec fn taken_rows(entries: Seq<ThreadEntry>, selection: EventSelection) -> Seq<Tree>
    decreases entries.len(),
{
    if entries.len() == 0 {
        Seq::empty()
    } else {
        let rest = taken_rows(entries.drop_last(), selection);
        let last = entries.last();
        match run_of(last) {
            Some(run) => if selects(selection, last.sequence, run.kind@) {
                rest.push(event_row_tree(last, run))
            } else {
                rest
            },
            None => rest,
        }
    }
}

/// At most so many of the first rows.
pub open spec fn limited(rows: Seq<Tree>, limit: u64) -> Seq<Tree> {
    if rows.len() <= limit {
        rows
    } else {
        rows.take(limit as int)
    }
}

/// The rows that a selection answers.
pub open spec fn selected_rows(entries: Seq<ThreadEntry>, selection: EventSelection) -> Seq<Tree> {
    let rows = taken_rows(entries, selection);
    limited(
        if selection.descending {
            rows.reverse()
        } else {
            rows
        },
        selection.limit,
    )
}

/// The event rows that a selection answers: bb's contract events alone, in the order of the log or
/// against it, and no more than the limit.
pub fn thread_event_rows(entries: &Vec<ThreadEntry>, selection: &EventSelection) -> (result: Vec<
    Json,
>)
    ensures
        trees(result@) == selected_rows(entries@, *selection),
{
    let mut rows: Vec<Json> = Vec::new();
    assert(entries@.take(0) =~= Seq::<ThreadEntry>::empty());
    assert(trees(rows@) =~= taken_rows(entries@.take(0), *selection));
    for i in 0..entries.len()
        invariant
            trees(rows@) == taken_rows(entries@.take(i as int), *selection),
    {
        let entry: &ThreadEntry = &entries[i];
        let ghost before = trees(rows@);
        assert(entries@.take(i + 1).drop_last() =~= entries@.take(i as int));
        assert(entries@.take(i + 1).last() == *entry);
        if let DomainEvent::ThreadRunEvent { run } = &entry.event {
            let late_enough: bool = match selection.after {
                Some(after) => entry.sequence > after,
                None => true,
            };
            let early_enough: bool = match selection.before {
                Some(before) => entry.sequence < before,
                None => true,
            };
            let wanted: bool = match &selection.types {
                Some(types) => crate::text::list_holds(types, run.kind.as_str()),
                None => true,
            };
            if late_enough && early_enough && wanted {
                let row: Json = thread_event_row(entry, run);
                rows.push(row);
                assert(trees(rows@) =~= before.push(event_row_tree(*entry, *run)));
            }
        }
    }
    assert(entries@.take(entries@.len() as int) =~= entries@);
    let ordered: Vec<Json> = if selection.descending {
        reversed(rows)
    } else {
        rows
    };
    first_rows(ordered, selection.limit)
}

/// The rows against their order.
fn reversed(rows: Vec<Json>) -> (result: Vec<Json>)
    ensures
        trees(result@) == trees(rows@).reverse(),
{
    let ghost all = rows@;
    let mut rest: Vec<Json> = rows;
    let mut out: Vec<Json> = Vec::new();
    while rest.len() > 0
        invariant
            rest@.len() <= all.len(),
            rest@ =~= all.take(rest@.len() as int),
            out@ =~= all.skip(rest@.len() as int).reverse(),
        decreases rest.len(),
    {
        if let Some(last) = rest.pop() {
            out.push(last);
        }
    }
    assert(trees(out@) =~= trees(all).reverse());
    out
}

/// At most so many of the first rows.
fn first_rows(rows: Vec<Json>, limit: u64) -> (result: Vec<Json>)
    ensures
        trees(result@) == limited(trees(rows@), limit),
{
    let ghost all = trees(rows@);
    let mut kept: Vec<Json> = rows;
    if kept.len() as u64 > limit {
        kept.truncate(limit as usize);
        assert(trees(kept@) =~= all.take(limit as int));
    }
    kept
}

/// The pieces of a text between its commas.
pub open spec fn comma_pieces(s: Seq<char>) -> Seq<Seq<char>>
    decreases s.len(),
{
    if s.len() == 0 {
        seq![Seq::<char>::empty()]
    } else {
        let before = comma_pieces(s.drop_last());
        if s.last() == ',' {
            before.push(Seq::empty())
        } else {
            before.update(before.len() - 1, before.last().push(s.last()))
        }
    }
}

/// The pieces without the white space around them, and without the empty ones.
pub open spec fn tidy(pieces: Seq<Seq<char>>) -> Seq<Seq<char>>
    decreases pieces.len(),
{
    if pieces.len() == 0 {
        Seq::empty()
    } else {
        let rest = tidy(pieces.drop_last());
        if trimmed(pieces.last()).len() == 0 {
            rest
        } else {
            rest.push(trimmed(pieces.last()))
        }
    }
}

/// The items of a comma-separated list.
pub fn comma_list(s: &str) -> (result: Vec<String>)
    ensures
        texts(result@) == tidy(comma_pieces(s@)),
{
    let chars: Vec<char> = chars_of(s);
    let mut pieces: Vec<String> = Vec::new();
    pieces.push(String::new());
    assert(s@.take(0) =~= Seq::<char>::empty());
    assert(texts(pieces@) =~= comma_pieces(s@.take(0)));
    let mut i: usize = 0;
    while i < chars.len()
        invariant
            chars@ == s@,
            i <= chars@.len(),
            pieces@.len() > 0,
            texts(pieces@) == comma_pieces(s@.take(i as int)),
        decreases chars.len() - i,
    {
        let ghost before = texts(pieces@);
        assert(s@.take(i + 1).drop_last() =~= s@.take(i as int));
        assert(s@.take(i + 1).last() == s@[i as int]);
        let c: char = chars[i];
        if c == ',' {
            pieces.push(String::new());
            assert(texts(pieces@) =~= before.push(Seq::empty()));
        } else {
            if let Some(mut last) = pieces.pop() {
                last.push(c);
                pieces.push(last);
                assert(texts(pieces@) =~= before.update(before.len() - 1, before.last().push(c)));
            }
        }
        i += 1;
    }
    assert(s@.take(s@.len() as int) =~= s@);
    let mut out: Vec<String> = Vec::new();
    let ghost all = texts(pieces@);
    assert(all.take(0) =~= Seq::<Seq<char>>::empty());
    assert(texts(out@) =~= tidy(all.take(0)));
    for k in 0..pieces.len()
        invariant
            all == texts(pieces@),
            texts(out@) == tidy(all.take(k as int)),
    {
        let ghost before = texts(out@);
        assert(all.take(k + 1).drop_last() =~= all.take(k as int));
        let piece: String = trim(pieces[k].as_str());
        if !piece.as_str().is_empty() {
            let ghost text = piece@;
            out.push(piece);
            assert(texts(out@) =~= before.push(text));
        }
    }
    assert(all.take(all.len() as int) =~= all);
    out
}

/// The query of a read of event rows.
pub struct ThreadEventsQuery {
    /// Only events after this place.
    pub after_seq: Option<String>,
    /// Only events before this place.
    pub before_seq: Option<String>,
    /// At most so many.
    pub limit: Option<String>,
    /// `asc` or `desc`.
    pub order: Option<String>,
    /// Only events of these types, separated by commas.
    pub types: Option<String>,
}

/// A selection, as a query spells it.
pub ghost struct SelectionView {
    /// Only events after this place.
    pub after: Option<u64>,
    /// Only events before this place.
    pub before: Option<u64>,
    /// Only events of these types.
    pub types: Option<Seq<Seq<char>>>,
    /// The newest first.
    pub descending: bool,
    /// At most so many.
    pub limit: u64,
}

impl View for EventSelection {
    type V = SelectionView;

    open spec fn view(&self) -> SelectionView {
        SelectionView {
            after: self.after,
            before: self.before,
            types: match self.types {
                Some(types) => Some(texts(types@)),
                None => None,
            },
            descending: self.descending,
            limit: self.limit,
        }
    }
}

/// Whether the newest come first, as the `order` field says.
pub open spec fn order_of(order: Option<Seq<char>>) -> Result<bool, ReplyView> {
    match order {
        None => Ok(false),
        Some(word) => if word.len() == 0 || word == "asc"@ {
            Ok(false)
        } else if word == "desc"@ {
            Ok(true)
        } else {
            Err(plain_error(400, "order must be asc or desc, got "@ + debug_quoted(word)))
        },
    }
}

/// The selection that a query spells, or the first thing that is wrong with it.
pub open spec fn selection_of(query: ThreadEventsQuery) -> Result<SelectionView, ReplyView> {
    match query_number(opt_view(query.after_seq), "afterSeq"@) {
        Err(reply) => Err(reply),
        Ok(after) => match query_number(opt_view(query.before_seq), "beforeSeq"@) {
            Err(reply) => Err(reply),
            Ok(before) => match query_number(opt_view(query.limit), "limit"@) {
                Err(reply) => Err(reply),
                Ok(limit) => match order_of(opt_view(query.order)) {
                    Err(reply) => Err(reply),
                    Ok(descending) => Ok(
                        SelectionView {
                            after,
                            before,
                            types: match query.types {
                                Some(types) => Some(tidy(comma_pieces(types@))),
                                None => None,
                            },
                            descending,
                            limit: match limit {
                                Some(n) => if n > 10_000 {
                                    10_000
                                } else {
                                    n
                                },
                                None => 100,
                            },
                        },
                    ),
                },
            },
        },
    }
}

/// Whether the newest come first.
fn parse_order(order: &Option<String>) -> (result: Result<bool, Reply>)
    ensures
        parsed(result) == order_of(opt_view(*order)),
{
    match order {
        None => Ok(false),
        Some(word) => {
            if word.as_str().is_empty() || same_text(word.as_str(), "asc") {
                Ok(false)
            } else if same_text(word.as_str(), "desc") {
                Ok(true)
            } else {
                Err(
                    error_response(
                        400,
                        joined("order must be asc or desc, got ", quoted(word.as_str()).as_str()),
                    ),
                )
            }
        },
    }
}

/// The selection that a query spells.
pub fn parse_events_query(query: &ThreadEventsQuery) -> (result: Result<EventSelection, Reply>)
    ensures
        match selection_of(*query) {
            Ok(selection) => result matches Ok(found) && found@ == selection,
            Err(refusal) => result matches Err(reply) && reply@ == refusal,
        },
{
    let after: Option<u64> = match parse_query_sequence(&query.after_seq, "afterSeq") {
        Ok(value) => value,
        Err(reply) => {
            return Err(reply);
        },
    };
    let before: Option<u64> = match parse_query_sequence(&query.before_seq, "beforeSeq") {
        Ok(value) => value,
        Err(reply) => {
            return Err(reply);
        },
    };
    let limit: u64 = match parse_query_sequence(&query.limit, "limit") {
        Ok(Some(n)) => if n > 10_000 {
            10_000
        } else {
            n
        },
        Ok(None) => 100,
        Err(reply) => {
            return Err(reply);
        },
    };
    let descending: bool = match parse_order(&query.order) {
        Ok(value) => value,
        Err(reply) => {
            return Err(reply);
        },
    };
    let types: Option<Vec<String>> = match &query.types {
        Some(types) => Some(comma_list(types.as_str())),
        None => None,
    };
    Ok(EventSelection { after, before, types, descending, limit })
}

/// The answer to a read of event rows.
pub fn thread_events(query: &ThreadEventsQuery, entries: &Vec<ThreadEntry>) -> (result: Reply)
    ensures
        match selection_of(*query) {
            Ok(view) => exists|selection: EventSelection|
                #![trigger selected_rows(entries@, selection)]
                selection@ == view && result@ == ok_view(
                    Tree::Array(selected_rows(entries@, selection)),
                ),
            Err(refusal) => result@ == refusal,
        },
{
    match parse_events_query(query) {
        Ok(selection) => {
            let rows: Vec<Json> = thread_event_rows(entries, &selection);
            assert(selection@ == selection_of(*query)->Ok_0);
            ok(Json::array(rows))
        },
        Err(reply) => reply,
    }
}

/// The longest a wait for an event is by default.
pub const EVENT_WAIT_DEFAULT_MS: u64 = 30_000;

/// The longest a wait for an event may be.
pub const EVENT_WAIT_MAX_MS: u64 = 60_000;

/// How long a wait for an event may take, as its query says.
pub fn event_wait_ms(wait_ms: &Option<String>) -> (result: Result<u64, Reply>)
    ensures
        parsed(result) == (match query_number(opt_view(*wait_ms), "waitMs"@) {
            Ok(Some(n)) => Ok(
                if n > EVENT_WAIT_MAX_MS {
                    EVENT_WAIT_MAX_MS
                } else {
                    n
                },
            ),
            Ok(None) => Ok(EVENT_WAIT_DEFAULT_MS),
            Err(refusal) => Err(refusal),
        }),
{
    match parse_query_sequence(wait_ms, "waitMs") {
        Ok(Some(n)) => Ok(if n > EVENT_WAIT_MAX_MS {
            EVENT_WAIT_MAX_MS
        } else {
            n
        }),
        Ok(None) => Ok(EVENT_WAIT_DEFAULT_MS),
        Err(reply) => Err(reply),
    }
}

/// What a wait for an event does after it read the log.
#[derive(Debug, PartialEq, Eq)]
pub enum WaitStep {
    /// Answer with this.
    Answer(Json),
    /// Read again a little later.
    Again,
}

/// The row of the first run event after a place.
pub open spec fn first_row_after(entries: Seq<ThreadEntry>, after: Option<u64>) -> Option<Tree>
    decreases entries.len(),
{
    if entries.len() == 0 {
        None
    } else {
        let head = entries[0];
        match run_of(head) {
            Some(run) => if after is None || head.sequence > after->0 {
                Some(event_row_tree(head, run))
            } else {
                first_row_after(entries.drop_first(), after)
            },
            None => first_row_after(entries.drop_first(), after),
        }
    }
}

/// What a wait does after it read the log: it answers the first event after the cursor, and `null`
/// once its time is over.
pub fn event_wait_step(entries: &Vec<ThreadEntry>, after: Option<u64>, expired: bool) -> (result:
    WaitStep)
    ensures
        match first_row_after(entries@, after) {
            Some(row) => result matches WaitStep::Answer(answer) && answer@ == row,
            None => if expired {
                result matches WaitStep::Answer(answer) && answer@ == Tree::Null
            } else {
                result is Again
            },
        },
{
    assert(entries@.skip(0) =~= entries@);
    for i in 0..entries.len()
        invariant
            first_row_after(entries@, after) == first_row_after(entries@.skip(i as int), after),
    {
        let entry: &ThreadEntry = &entries[i];
        let ghost rest = entries@.skip(i as int);
        assert(rest[0] == *entry);
        assert(rest.drop_first() =~= entries@.skip(i + 1));
        if let DomainEvent::ThreadRunEvent { run } = &entry.event {
            let late_enough: bool = match after {
                Some(cursor) => entry.sequence > cursor,
                None => true,
            };
            if late_enough {
                return WaitStep::Answer(thread_event_row(entry, run));
            }
        }
    }
    assert(entries@.skip(entries@.len() as int).len() == 0);
    if expired {
        WaitStep::Answer(Json::Null)
    } else {
        WaitStep::Again
    }
}

/// What every timeline row has.
pub open spec fn row_base(
    id: Seq<char>,
    thread_id: Seq<char>,
    turn_id: Option<Seq<char>>,
    sequence: u64,
    created_at_ms: u64,
) -> Tree {
    object().field("id"@, Tree::Str(id))
        .field("threadId"@, Tree::Str(thread_id))
        .field("turnId"@, opt_tree(turn_id))
        .field("sourceSeqStart"@, Tree::UInt(sequence))
        .field("sourceSeqEnd"@, Tree::UInt(sequence))
        .field("startedAt"@, Tree::UInt(created_at_ms))
        .field("createdAt"@, Tree::UInt(created_at_ms))
}

/// What every timeline row has.
fn timeline_row_base(
    id: &str,
    thread_id: &str,
    turn_id: &Option<String>,
    sequence: u64,
    created_at_ms: u64,
) -> (result: Fields)
    ensures
        Tree::Object(result@) == row_base(
            id@,
            thread_id@,
            opt_view(*turn_id),
            sequence,
            created_at_ms,
        ),
{
    Fields::new().with("id", Json::text(id))
        .with("threadId", Json::text(thread_id))
        .with("turnId", Json::opt_text(turn_id))
        .with("sourceSeqStart", Json::UInt(sequence))
        .with("sourceSeqEnd", Json::UInt(sequence))
        .with("startedAt", Json::UInt(created_at_ms))
        .with("createdAt", Json::UInt(created_at_ms))
}

/// The row of a message.
pub open spec fn message_row(thread_id: Seq<char>, sequence: u64, message: Message) -> Tree {
    let base = row_base(message.id@, thread_id, None, sequence, message.created_at_ms);
    match message.role {
        MessageRole::User => base.field("kind"@, Tree::Str("conversation"@))
            .field("text"@, Tree::Str(message.content@))
            .field("attachments"@, Tree::Null)
            .field("role"@, Tree::Str("user"@))
            .field("initiator"@, Tree::Str("user"@))
            .field("senderThreadId"@, Tree::Null)
            .field("systemMessageKind"@, Tree::Str("unlabeled"@))
            .field("systemMessageSubject"@, Tree::Null)
            .field(
                "turnRequest"@,
                object().field("isGrouped"@, Tree::Bool(false))
                    .field("kind"@, Tree::Str("message"@))
                    .field("status"@, Tree::Str("accepted"@)),
            )
            .field("mentions"@, Tree::Array(Seq::empty())),
        MessageRole::Assistant => base.field("kind"@, Tree::Str("conversation"@))
            .field("text"@, Tree::Str(message.content@))
            .field("attachments"@, Tree::Null)
            .field("role"@, Tree::Str("assistant"@))
            .field("turnRequest"@, Tree::Null),
        MessageRole::System => base.field("kind"@, Tree::Str("system"@))
            .field("title"@, Tree::Str("System message"@))
            .field("detail"@, Tree::Str(message.content@))
            .field("status"@, Tree::Null)
            .field("systemKind"@, Tree::Str("debug"@)),
    }
}

/// The text of a member, where it is a text.
pub open spec fn member_text(value: Tree, key: Seq<char>) -> Option<Seq<char>> {
    match member(value, key) {
        Some(Tree::Str(text)) => Some(text),
        _ => None,
    }
}

/// The row of a provider error.
pub open spec fn error_row(thread_id: Seq<char>, sequence: u64, run: RunEvent) -> Tree {
    row_base(
        run.run_id@ + "-"@ + decimal(sequence as nat),
        thread_id,
        Some(run.run_id@),
        sequence,
        run.at_ms,
    ).field("kind"@, Tree::Str("system"@))
        .field(
            "title"@,
            Tree::Str(
                match member_text(run.value@, "message"@) {
                    Some(text) => text,
                    None => "Provider error"@,
                },
            ),
        )
        .field("detail"@, opt_tree(member_text(run.value@, "detail"@)))
        .field("status"@, Tree::Str("error"@))
        .field("systemKind"@, Tree::Str("error"@))
}

/// The row that one event has of its own: messages and provider errors have one, everything else
/// is either folded with others or has none.
pub open spec fn own_row(thread_id: Seq<char>, sequence: u64, event: DomainEvent) -> Option<Tree> {
    match event {
        DomainEvent::ThreadMessageAdded { message, .. } => Some(
            message_row(thread_id, sequence, message),
        ),
        DomainEvent::ThreadRunEvent { run } => if run.kind@ == "provider/error"@ {
            Some(error_row(thread_id, sequence, run))
        } else {
            None
        },
        _ => None,
    }
}

/// The text of a member, where it is a text.
pub fn text_member(value: &Json, key: &str) -> (result: Option<String>)
    ensures
        opt_view(result) == member_text(value@, key@),
{
    match value.get(key) {
        Some(found) => match found.as_str() {
            Some(text) => Some(text.clone()),
            None => None,
        },
        None => None,
    }
}

/// An empty array.
pub fn empty_array() -> (result: Json)
    ensures
        result@ == Tree::Array(Seq::empty()),
{
    let items: Vec<Json> = Vec::new();
    assert(trees(items@) =~= Seq::<Tree>::empty());
    Json::array(items)
}

/// The row of a message.
fn message_row_json(thread_id: &str, sequence: u64, message: &Message) -> (result: Json)
    ensures
        result@ == message_row(thread_id@, sequence, *message),
{
    let base: Fields = timeline_row_base(
        message.id.as_str(),
        thread_id,
        &None,
        sequence,
        message.created_at_ms,
    );
    match message.role {
        MessageRole::User => {
            let request: Json = Fields::new().with("isGrouped", Json::Bool(false))
                .with("kind", Json::text("message"))
                .with("status", Json::text("accepted"))
                .object();
            base.with("kind", Json::text("conversation"))
                .with("text", Json::text(message.content.as_str()))
                .with("attachments", Json::Null)
                .with("role", Json::text("user"))
                .with("initiator", Json::text("user"))
                .with("senderThreadId", Json::Null)
                .with("systemMessageKind", Json::text("unlabeled"))
                .with("systemMessageSubject", Json::Null)
                .with("turnRequest", request)
                .with("mentions", empty_array())
                .object()
        },
        MessageRole::Assistant => base.with("kind", Json::text("conversation"))
            .with("text", Json::text(message.content.as_str()))
            .with("attachments", Json::Null)
            .with("role", Json::text("assistant"))
            .with("turnRequest", Json::Null)
            .object(),
        MessageRole::System => base.with("kind", Json::text("system"))
            .with("title", Json::text("System message"))
            .with("detail", Json::text(message.content.as_str()))
            .with("status", Json::Null)
            .with("systemKind", Json::text("debug"))
            .object(),
    }
}

/// The row that one event has of its own.
pub fn timeline_row_for_event(thread_id: &str, sequence: u64, event: &DomainEvent) -> (result:
    Option<Json>)
    ensures
        crate::json::opt_value(result) == own_row(thread_id@, sequence, *event),
{
    match event {
        DomainEvent::ThreadMessageAdded { message, .. } => Some(
            message_row_json(thread_id, sequence, message),
        ),
        DomainEvent::ThreadRunEvent { run } => {
            if !same_text(run.kind.as_str(), "provider/error") {
                return None;
            }
            let title: String = match text_member(&run.value, "message") {
                Some(text) => text,
                None => "Provider error".to_owned(),
            };
            let id: String = joined3(run.run_id.as_str(), "-", decimal_text(sequence).as_str());
            let base: Fields = timeline_row_base(
                id.as_str(),
                thread_id,
                &Some(run.run_id.clone()),
                sequence,
                run.at_ms,
            );
            Some(
                base.with("kind", Json::text("system"))
                    .with("title", Json::Str(title))
                    .with("detail", Json::opt_text(&text_member(&run.value, "detail")))
                    .with("status", Json::text("error"))
                    .with("systemKind", Json::text("error"))
                    .object(),
            )
        },
        _ => None,
    }
}

/// Whether a row begins and ends at one place of a thread's log and bears one time.
pub open spec fn stands_at(row: Tree, thread_id: Seq<char>, sequence: u64, at_ms: u64) -> bool {
    &&& member(row, "threadId"@) == Some(Tree::Str(thread_id))
    &&& member(row, "sourceSeqStart"@) == Some(Tree::UInt(sequence))
    &&& member(row, "sourceSeqEnd"@) == Some(Tree::UInt(sequence))
    &&& member(row, "startedAt"@) == Some(Tree::UInt(at_ms))
    &&& member(row, "createdAt"@) == Some(Tree::UInt(at_ms))
}

/// The row of a message has the message's id, stands at the message's place and says what the
/// message says: as its text where the user or the assistant wrote it, as its detail where the
/// system did.
pub proof fn message_rows_say_what_was_said(
    thread_id: Seq<char>,
    sequence: u64,
    event: DomainEvent,
)
    requires
        event is ThreadMessageAdded,
    ensures
        ({
            let message = event->ThreadMessageAdded_message;
            let row = own_row(thread_id, sequence, event)->0;
            &&& own_row(thread_id, sequence, event) is Some
            &&& stands_at(row, thread_id, sequence, message.created_at_ms)
            &&& member(row, "id"@) == Some(Tree::Str(message.id@))
            &&& member(row, "turnId"@) == Some(Tree::Null)
            &&& message.role != MessageRole::System ==> {
                &&& member(row, "kind"@) == Some(Tree::Str("conversation"@))
                &&& member(row, "text"@) == Some(Tree::Str(message.content@))
                &&& member(row, "attachments"@) == Some(Tree::Null)
                &&& member(row, "detail"@) is None
            }
            &&& message.role == MessageRole::User ==> {
                &&& member(row, "role"@) == Some(Tree::Str("user"@))
                &&& member(row, "initiator"@) == Some(Tree::Str("user"@))
                &&& member(row, "senderThreadId"@) == Some(Tree::Null)
                &&& member(row, "systemMessageKind"@) == Some(Tree::Str("unlabeled"@))
                &&& member(row, "systemMessageSubject"@) == Some(Tree::Null)
                &&& member(row, "mentions"@) == Some(Tree::Array(Seq::empty()))
                &&& member(row, "turnRequest"@) is Some
                &&& member(member(row, "turnRequest"@)->0, "isGrouped"@) == Some(Tree::Bool(false))
                &&& member(member(row, "turnRequest"@)->0, "kind"@) == Some(Tree::Str("message"@))
                &&& member(member(row, "turnRequest"@)->0, "status"@) == Some(
                    Tree::Str("accepted"@),
                )
            }
            &&& message.role == MessageRole::Assistant ==> {
                &&& member(row, "role"@) == Some(Tree::Str("assistant"@))
                &&& member(row, "turnRequest"@) == Some(Tree::Null)
            }
            &&& message.role == MessageRole::System ==> {
                &&& member(row, "kind"@) == Some(Tree::Str("system"@))
                &&& member(row, "title"@) == Some(Tree::Str("System message"@))
                &&& member(row, "detail"@) == Some(Tree::Str(message.content@))
                &&& member(row, "status"@) == Some(Tree::Null)
                &&& member(row, "systemKind"@) == Some(Tree::Str("debug"@))
                &&& member(row, "text"@) is None
            }
        }),
{
    broadcast use member_of_field;

    reveal_strlit("id");
    reveal_strlit("kind");
    reveal_strlit("role");
    reveal_strlit("text");
    reveal_strlit("title");
    reveal_strlit("detail");
    reveal_strlit("status");
    reveal_strlit("turnId");
    reveal_strlit("mentions");
    reveal_strlit("threadId");
    reveal_strlit("createdAt");
    reveal_strlit("initiator");
    reveal_strlit("isGrouped");
    reveal_strlit("startedAt");
    reveal_strlit("systemKind");
    reveal_strlit("attachments");
    reveal_strlit("turnRequest");
    reveal_strlit("sourceSeqEnd");
    reveal_strlit("senderThreadId");
    reveal_strlit("sourceSeqStart");
    reveal_strlit("systemMessageKind");
    reveal_strlit("systemMessageSubject");
    assert("id"@.len() == 2);
    assert("kind"@.len() == 4 && "kind"@[0] == 'k');
    assert("role"@.len() == 4 && "role"@[0] == 'r');
    assert("text"@.len() == 4 && "text"@[0] == 't');
    assert("title"@.len() == 5);
    assert("detail"@.len() == 6 && "detail"@[0] == 'd');
    assert("status"@.len() == 6 && "status"@[0] == 's');
    assert("turnId"@.len() == 6 && "turnId"@[0] == 't');
    assert("mentions"@.len() == 8 && "mentions"@[0] == 'm');
    assert("threadId"@.len() == 8 && "threadId"@[0] == 't');
    assert("createdAt"@.len() == 9 && "createdAt"@[1] == 'r');
    assert("initiator"@.len() == 9 && "initiator"@[1] == 'n');
    assert("isGrouped"@.len() == 9 && "isGrouped"@[1] == 's');
    assert("startedAt"@.len() == 9 && "startedAt"@[1] == 't');
    assert("systemKind"@.len() == 10);
    assert("attachments"@.len() == 11 && "attachments"@[0] == 'a');
    assert("turnRequest"@.len() == 11 && "turnRequest"@[0] == 't');
    assert("sourceSeqEnd"@.len() == 12);
    assert("senderThreadId"@.len() == 14 && "senderThreadId"@[1] == 'e');
    assert("sourceSeqStart"@.len() == 14 && "sourceSeqStart"@[1] == 'o');
    assert("systemMessageKind"@.len() == 17);
    assert("systemMessageSubject"@.len() == 20);
}

/// The row of a provider's error stands at the error's place, belongs to its run and says what went
/// wrong: the provider's message where it gave one, and its detail.
pub proof fn error_rows_say_what_went_wrong(thread_id: Seq<char>, sequence: u64, run: RunEvent)
    requires
        run.kind@ == "provider/error"@,
    ensures
        ({
            let event = DomainEvent::ThreadRunEvent { run };
            let row = own_row(thread_id, sequence, event)->0;
            &&& own_row(thread_id, sequence, event) is Some
            &&& stands_at(row, thread_id, sequence, run.at_ms)
            &&& member(row, "id"@) == Some(Tree::Str(run.run_id@ + "-"@ + decimal(sequence as nat)))
            &&& member(row, "turnId"@) == Some(Tree::Str(run.run_id@))
            &&& member(row, "kind"@) == Some(Tree::Str("system"@))
            &&& (member(run.value@, "message"@) matches Some(Tree::Str(text)) ==> member(
                row,
                "title"@,
            ) == Some(Tree::Str(text)))
            &&& !(member(run.value@, "message"@) matches Some(Tree::Str(_))) ==> member(
                row,
                "title"@,
            ) == Some(Tree::Str("Provider error"@))
            &&& (member(run.value@, "detail"@) matches Some(Tree::Str(text)) ==> member(
                row,
                "detail"@,
            ) == Some(Tree::Str(text)))
            &&& !(member(run.value@, "detail"@) matches Some(Tree::Str(_))) ==> member(
                row,
                "detail"@,
            ) == Some(Tree::Null)
            &&& member(row, "status"@) == Some(Tree::Str("error"@))
            &&& member(row, "systemKind"@) == Some(Tree::Str("error"@))
        }),
{
    broadcast use member_of_field;

    reveal_strlit("id");
    reveal_strlit("kind");
    reveal_strlit("title");
    reveal_strlit("detail");
    reveal_strlit("status");
    reveal_strlit("turnId");
    reveal_strlit("threadId");
    reveal_strlit("createdAt");
    reveal_strlit("startedAt");
    reveal_strlit("systemKind");
    reveal_strlit("sourceSeqEnd");
    reveal_strlit("sourceSeqStart");
    assert("id"@.len() == 2);
    assert("kind"@.len() == 4);
    assert("title"@.len() == 5);
    assert("detail"@.len() == 6 && "detail"@[0] == 'd');
    assert("status"@.len() == 6 && "status"@[0] == 's');
    assert("turnId"@.len() == 6 && "turnId"@[0] == 't');
    assert("threadId"@.len() == 8);
    assert("createdAt"@.len() == 9 && "createdAt"@[0] == 'c');
    assert("startedAt"@.len() == 9 && "startedAt"@[0] == 's');
    assert("systemKind"@.len() == 10);
    assert("sourceSeqEnd"@.len() == 12);
    assert("sourceSeqStart"@.len() == 14);
}

/// Messages and provider errors alone have a row of their own.
pub proof fn nothing_else_has_a_row_of_its_own(
    thread_id: Seq<char>,
    sequence: u64,
    event: DomainEvent,
)
    ensures
        own_row(thread_id, sequence, event) is Some <==> event is ThreadMessageAdded || (
        event is ThreadRunEvent && event->ThreadRunEvent_run.kind@ == "provider/error"@),
{
}

/// The projections that fold several frames into one row.
#[derive(Clone, Copy, Debug, PartialEq, Eq, Structural)]
pub enum FrameClass {
    /// Thinking.
    Reasoning,
    /// Tool calls.
    Tool,
    /// Answers.
    Assistant,
}

/// The id of a tool item.
pub open spec fn tool_id(item: ThreadEventItem) -> Option<Seq<char>> {
    match item {
        ThreadEventItem::ToolCall { id } => Some(id@),
        ThreadEventItem::CommandExecution { id } => Some(id@),
        ThreadEventItem::FileChange { id } => Some(id@),
        ThreadEventItem::FileRead { id } => Some(id@),
        ThreadEventItem::Search { id } => Some(id@),
        ThreadEventItem::WebFetch { id } => Some(id@),
        _ => None,
    }
}

/// A frame of a folded row: the projection and the item that it belongs to.
pub ghost struct Frame {
    /// The projection.
    pub class: FrameClass,
    /// The run.
    pub run: Seq<char>,
    /// The item of the run.
    pub item: Seq<char>,
}

/// The projection and the item that an event belongs to, where it belongs to one.
pub open spec fn frame_item(body: ProviderEvent) -> Option<(FrameClass, Seq<char>)> {
    match body {
        ProviderEvent::ItemReasoningTextDelta { item_id, .. } => Some(
            (FrameClass::Reasoning, item_id@),
        ),
        ProviderEvent::ItemReasoningSummaryTextDelta { item_id, .. } => Some(
            (FrameClass::Reasoning, item_id@),
        ),
        ProviderEvent::ItemStarted { item } => match tool_id(item) {
            Some(id) => Some((FrameClass::Tool, id)),
            None => None,
        },
        ProviderEvent::ItemToolCallProgress { item_id } => Some((FrameClass::Tool, item_id@)),
        ProviderEvent::ItemCompleted { item } => match tool_id(item) {
            Some(id) => Some((FrameClass::Tool, id)),
            None => match item {
                ThreadEventItem::Reasoning { id, .. } => Some((FrameClass::Reasoning, id@)),
                ThreadEventItem::AgentMessage { id } => Some((FrameClass::Assistant, id@)),
                _ => None,
            },
        },
        ProviderEvent::ItemAgentMessageDelta { item_id, .. } => Some(
            (FrameClass::Assistant, item_id@),
        ),
        _ => None,
    }
}

/// The frame that an entry is, where it is one.
pub open spec fn entry_frame(entry: ThreadEntry) -> Option<Frame> {
    match entry.event {
        DomainEvent::ThreadRunEvent { run } => match frame_item(run.body) {
            Some((class, item)) => Some(Frame { class, run: run.run_id@, item }),
            None => None,
        },
        _ => None,
    }
}

/// Whether a frame occurs among the first entries.
pub open spec fn seen_before(entries: Seq<ThreadEntry>, n: int, frame: Frame) -> bool {
    exists|j: int| 0 <= j < n && entry_frame(#[trigger] entries[j]) == Some(frame)
}

/// An answer that was folded from its frames.
#[derive(Debug, PartialEq, Eq)]
pub struct AssistantMessage {
    /// The run it streamed in.
    pub run_id: String,
    /// The provider's id for it.
    pub item_id: String,
    /// The place of its first frame.
    pub start_sequence: u64,
    /// The place of its last frame.
    pub end_sequence: u64,
    /// What its row says.
    pub fields: Vec<(String, Json)>,
}

/// A tool call that was folded from its frames.
#[derive(Debug, PartialEq, Eq)]
pub struct ToolActivity {
    /// The run it was made in.
    pub run_id: String,
    /// The provider's id for it.
    pub item_id: String,
    /// Its rows.
    pub rows: Vec<Json>,
}

/// The members set one after the other.
pub open spec fn set_all(
    fields: Seq<(Seq<char>, Tree)>,
    extra: Seq<(Seq<char>, Tree)>,
) -> Seq<(Seq<char>, Tree)>
    decreases extra.len(),
{
    if extra.len() == 0 {
        fields
    } else {
        with_member(set_all(fields, extra.drop_last()), extra.last().0, extra.last().1)
    }
}

/// The row of an answer: it spans its first and its last frame.
pub open spec fn assistant_tree(
    thread_id: Seq<char>,
    created_at_ms: u64,
    message: AssistantMessage,
) -> Tree {
    let base = row_base(
        thread_id + ":"@ + message.run_id@ + ":"@ + message.item_id@,
        thread_id,
        Some(message.run_id@),
        message.start_sequence,
        created_at_ms,
    );
    let end = if message.end_sequence > message.start_sequence {
        message.end_sequence
    } else {
        message.start_sequence
    };
    Tree::Object(
        set_all(
            with_member(base->Object_0, "sourceSeqEnd"@, Tree::UInt(end)),
            crate::json::members(message.fields@),
        ),
    )
}

/// The first answer of a run and an item.
pub open spec fn find_message(messages: Seq<AssistantMessage>, run: Seq<char>, item: Seq<char>) -> Option<
    AssistantMessage,
>
    decreases messages.len(),
{
    if messages.len() == 0 {
        None
    } else if messages[0].run_id@ == run && messages[0].item_id@ == item {
        Some(messages[0])
    } else {
        find_message(messages.drop_first(), run, item)
    }
}

/// The first tool call of a run and an item.
pub open spec fn find_tool(tools: Seq<ToolActivity>, run: Seq<char>, item: Seq<char>) -> Option<
    ToolActivity,
>
    decreases tools.len(),
{
    if tools.len() == 0 {
        None
    } else if tools[0].run_id@ == run && tools[0].item_id@ == item {
        Some(tools[0])
    } else {
        find_tool(tools.drop_first(), run, item)
    }
}

/// The thinking of a thread, folded from its log.
pub open spec fn folded_thinking(entries: Seq<ThreadEntry>) -> Map<ItemKey, Thought>
    decreases entries.len(),
{
    if entries.len() == 0 {
        Map::empty()
    } else {
        let rest = folded_thinking(entries.drop_last());
        let last = entries.last();
        match run_of(last) {
            Some(run) => absorbed(rest, run.run_id@, run.body, last.sequence, last.created_at_ms),
            None => rest,
        }
    }
}

/// What was folded out of a log.
pub ghost struct Folds {
    /// The thinking.
    pub thinking: Map<ItemKey, Thought>,
    /// The answers.
    pub messages: Seq<AssistantMessage>,
    /// The tool calls.
    pub tools: Seq<ToolActivity>,
}

/// The rows that the first frame of an item stands for.
pub open spec fn folded_rows(
    thread_id: Seq<char>,
    folds: Folds,
    frame: Frame,
    created_at_ms: u64,
) -> Seq<Tree> {
    match frame.class {
        FrameClass::Reasoning => {
            let key = (frame.run, frame.item);
            if folds.thinking.dom().contains(key) && folds.thinking[key].reportable() {
                seq![reasoning_tree(thread_id, key, folds.thinking[key])]
            } else {
                Seq::empty()
            }
        },
        FrameClass::Assistant => match find_message(folds.messages, frame.run, frame.item) {
            Some(message) => seq![assistant_tree(thread_id, created_at_ms, message)],
            None => Seq::empty(),
        },
        FrameClass::Tool => match find_tool(folds.tools, frame.run, frame.item) {
            Some(tool) => trees(tool.rows@),
            None => Seq::empty(),
        },
    }
}

/// The rows of one projection, each item's at the first of its frames.
pub open spec fn class_rows(
    thread_id: Seq<char>,
    entries: Seq<ThreadEntry>,
    folds: Folds,
    class: FrameClass,
) -> Seq<Tree>
    decreases entries.len(),
{
    if entries.len() == 0 {
        Seq::empty()
    } else {
        let rest = class_rows(thread_id, entries.drop_last(), folds, class);
        match entry_frame(entries.last()) {
            Some(frame) => if frame.class == class && !seen_before(
                entries,
                entries.len() - 1,
                frame,
            ) {
                rest + folded_rows(thread_id, folds, frame, entries.last().created_at_ms)
            } else {
                rest
            },
            None => rest,
        }
    }
}

/// The rows of the entries that belong to no projection.
pub open spec fn own_rows(thread_id: Seq<char>, entries: Seq<ThreadEntry>) -> Seq<Tree>
    decreases entries.len(),
{
    if entries.len() == 0 {
        Seq::empty()
    } else {
        let rest = own_rows(thread_id, entries.drop_last());
        let last = entries.last();
        match (entry_frame(last), own_row(thread_id, last.sequence, last.event)) {
            (None, Some(row)) => rest.push(row),
            _ => rest,
        }
    }
}

/// Every row of a timeline, projection by projection.
pub open spec fn unsorted_rows(
    thread_id: Seq<char>,
    entries: Seq<ThreadEntry>,
    folds: Folds,
) -> Seq<Tree> {
    own_rows(thread_id, entries) + class_rows(thread_id, entries, folds, FrameClass::Assistant)
        + class_rows(thread_id, entries, folds, FrameClass::Reasoning) + class_rows(
        thread_id,
        entries,
        folds,
        FrameClass::Tool,
    )
}

/// A whole number under a name, or zero.
pub open spec fn member_uint(row: Tree, key: Seq<char>) -> u64 {
    match member(row, key) {
        Some(Tree::UInt(n)) => n,
        _ => 0,
    }
}

/// Where a row begins in the log.
pub open spec fn row_start(row: Tree) -> u64 {
    member_uint(row, "sourceSeqStart"@)
}

/// A row put in behind all that do not begin after it.
pub open spec fn inserted_row(sorted: Seq<Tree>, row: Tree) -> Seq<Tree>
    decreases sorted.len(),
{
    if sorted.len() == 0 || row_start(sorted.last()) <= row_start(row) {
        sorted.push(row)
    } else {
        inserted_row(sorted.drop_last(), row).push(sorted.last())
    }
}

/// The rows in the order in which they begin; those that begin together stay in order.
pub open spec fn sorted_rows(rows: Seq<Tree>) -> Seq<Tree>
    decreases rows.len(),
{
    if rows.len() == 0 {
        rows
    } else {
        inserted_row(sorted_rows(rows.drop_last()), rows.last())
    }
}

/// Whether rows stand in the order in which they begin.
pub open spec fn in_start_order(rows: Seq<Tree>) -> bool {
    forall|i: int, j: int|
        0 <= i < j < rows.len() ==> row_start(#[trigger] rows[i]) <= row_start(#[trigger] rows[j])
}

/// The last model fallback of a log.
pub open spec fn last_fallback(entries: Seq<ThreadEntry>) -> Option<Tree>
    decreases entries.len(),
{
    if entries.len() == 0 {
        None
    } else {
        match run_of(entries.last()) {
            Some(run) => match run.body {
                ProviderEvent::ProviderModelFallback { original_model, fallback_model } => Some(
                    object().field("originalModel"@, Tree::Str(original_model@))
                        .field("fallbackModel"@, Tree::Str(fallback_model@))
                        .field("detectedAt"@, Tree::UInt(entries.last().created_at_ms)),
                ),
                _ => last_fallback(entries.drop_last()),
            },
            None => last_fallback(entries.drop_last()),
        }
    }
}

/// A member, or `null` where there is none.
pub open spec fn member_or_null(value: Tree, key: Seq<char>) -> Tree {
    match member(value, key) {
        Some(found) => found,
        None => Tree::Null,
    }
}

/// The goal that a log shows: the last one that was set and not cleared since.
pub open spec fn current_goal(entries: Seq<ThreadEntry>) -> Option<Tree>
    decreases entries.len(),
{
    if entries.len() == 0 {
        None
    } else {
        let last = entries.last();
        match run_of(last) {
            Some(run) => if run.kind@ == "thread/goal/updated"@ {
                Some(
                    object().field("sourceSeq"@, Tree::UInt(last.sequence))
                        .field("updatedAt"@, Tree::UInt(last.created_at_ms))
                        .field("objective"@, member_or_null(run.value@, "objective"@))
                        .field("status"@, member_or_null(run.value@, "status"@))
                        .field("tokenBudget"@, member_or_null(run.value@, "tokenBudget"@))
                        .field("tokensUsed"@, member_or_null(run.value@, "tokensUsed"@))
                        .field("timeUsedSeconds"@, member_or_null(run.value@, "timeUsedSeconds"@)),
                )
            } else if run.kind@ == "thread/goal/cleared"@ {
                None
            } else {
                current_goal(entries.drop_last())
            },
            None => current_goal(entries.drop_last()),
        }
    }
}

/// Whether a log's last event of two kinds is of the first of them.
pub open spec fn switched_on(
    entries: Seq<ThreadEntry>,
    on_kind: Seq<char>,
    off_kind: Seq<char>,
) -> bool
    decreases entries.len(),
{
    if entries.len() == 0 {
        false
    } else {
        match run_of(entries.last()) {
            Some(run) => if run.kind@ == on_kind {
                true
            } else if run.kind@ == off_kind {
                false
            } else {
                switched_on(entries.drop_last(), on_kind, off_kind)
            },
            None => switched_on(entries.drop_last(), on_kind, off_kind),
        }
    }
}

/// Whether a log's last event of two kinds is of the first of them.
fn is_switched_on(entries: &Vec<ThreadEntry>, on_kind: &str, off_kind: &str) -> (result: bool)
    ensures
        result == switched_on(entries@, on_kind@, off_kind@),
{
    let mut active: bool = false;
    assert(entries@.take(0) =~= Seq::<ThreadEntry>::empty());
    for i in 0..entries.len()
        invariant
            active == switched_on(entries@.take(i as int), on_kind@, off_kind@),
    {
        assert(entries@.take(i + 1).drop_last() =~= entries@.take(i as int));
        assert(entries@.take(i + 1).last() == entries@[i as int]);
        if let DomainEvent::ThreadRunEvent { run } = &entries[i].event {
            if same_text(run.kind.as_str(), on_kind) {
                active = true;
            } else if same_text(run.kind.as_str(), off_kind) {
                active = false;
            }
        }
    }
    assert(entries@.take(entries@.len() as int) =~= entries@);
    active
}

/// Whether a thread's log currently shows a goal.
pub fn thread_has_goal(entries: &Vec<ThreadEntry>) -> (result: bool)
    ensures
        result == switched_on(entries@, "thread/goal/updated"@, "thread/goal/cleared"@),
{
    is_switched_on(entries, "thread/goal/updated", "thread/goal/cleared")
}

/// Whether a log shows a plan that was neither removed nor of a turn that is over.
pub open spec fn plan_shown(entries: Seq<ThreadEntry>) -> bool
    decreases entries.len(),
{
    if entries.len() == 0 {
        false
    } else {
        match run_of(entries.last()) {
            Some(run) => if run.kind@ == "turn/plan/updated"@ {
                true
            } else if run.kind@ == "plan/removed"@ || run.kind@ == "turn/completed"@ {
                false
            } else {
                plan_shown(entries.drop_last())
            },
            None => plan_shown(entries.drop_last()),
        }
    }
}

/// Whether a thread's log shows a plan that was neither removed nor of a turn that is over.
pub fn thread_has_active_plan(entries: &Vec<ThreadEntry>) -> (result: bool)
    ensures
        result == plan_shown(entries@),
{
    let mut active: bool = false;
    assert(entries@.take(0) =~= Seq::<ThreadEntry>::empty());
    for i in 0..entries.len()
        invariant
            active == plan_shown(entries@.take(i as int)),
    {
        assert(entries@.take(i + 1).drop_last() =~= entries@.take(i as int));
        assert(entries@.take(i + 1).last() == entries@[i as int]);
        if let DomainEvent::ThreadRunEvent { run } = &entries[i].event {
            if same_text(run.kind.as_str(), "turn/plan/updated") {
                active = true;
            } else if same_text(run.kind.as_str(), "plan/removed") || same_text(
                run.kind.as_str(),
                "turn/completed",
            ) {
                active = false;
            }
        }
    }
    assert(entries@.take(entries@.len() as int) =~= entries@);
    active
}

/// A thread has a goal exactly where its timeline shows one.
pub proof fn goals_are_shown(entries: Seq<ThreadEntry>)
    ensures
        switched_on(entries, "thread/goal/updated"@, "thread/goal/cleared"@) == (current_goal(
            entries,
        ) is Some),
    decreases entries.len(),
{
    if entries.len() > 0 {
        goals_are_shown(entries.drop_last());
    }
}

/// A member, or `null` where there is none.
pub fn member_or_null_json(value: &Json, key: &str) -> (result: Json)
    ensures
        result@ == member_or_null(value@, key@),
{
    match value.get(key) {
        Some(found) => found.copy(),
        None => Json::Null,
    }
}

/// The goal that a log shows, or `null`.
pub fn goal_value(entries: &Vec<ThreadEntry>) -> (result: Json)
    ensures
        result@ == (match current_goal(entries@) {
            Some(goal) => goal,
            None => Tree::Null,
        }),
{
    let mut goal: Option<Json> = None;
    assert(entries@.take(0) =~= Seq::<ThreadEntry>::empty());
    for i in 0..entries.len()
        invariant
            crate::json::opt_value(goal) == current_goal(entries@.take(i as int)),
    {
        assert(entries@.take(i + 1).drop_last() =~= entries@.take(i as int));
        assert(entries@.take(i + 1).last() == entries@[i as int]);
        let entry: &ThreadEntry = &entries[i];
        if let DomainEvent::ThreadRunEvent { run } = &entry.event {
            if same_text(run.kind.as_str(), "thread/goal/updated") {
                goal = Some(
                    Fields::new().with("sourceSeq", Json::UInt(entry.sequence))
                        .with("updatedAt", Json::UInt(entry.created_at_ms))
                        .with("objective", member_or_null_json(&run.value, "objective"))
                        .with("status", member_or_null_json(&run.value, "status"))
                        .with("tokenBudget", member_or_null_json(&run.value, "tokenBudget"))
                        .with("tokensUsed", member_or_null_json(&run.value, "tokensUsed"))
                        .with("timeUsedSeconds", member_or_null_json(&run.value, "timeUsedSeconds"))
                        .object(),
                );
            } else if same_text(run.kind.as_str(), "thread/goal/cleared") {
                goal = None;
            }
        }
    }
    assert(entries@.take(entries@.len() as int) =~= entries@);
    match goal {
        Some(goal) => goal,
        None => Json::Null,
    }
}

// What a log shows.

/// A room's records are counted from one, whatever they are: every record that is a fact has its
/// entry, with its own identity and time, at its place among all records, and nothing else has.
pub proof fn rooms_count_every_record(stored: Seq<StoredEvent>)
    ensures
        forall|i: int|
            0 <= i < stored.len() && (#[trigger] stored[i]).event is Some ==> room_entries(
                stored,
            ).contains(
                ThreadEntry {
                    event_id: stored[i].event_id,
                    sequence: (i + 1) as u64,
                    created_at_ms: stored[i].created_at_ms,
                    event: stored[i].event->0,
                },
            ),
        room_entries(stored).len() == stored.filter(|record: StoredEvent| record.event is Some).len(),
    decreases stored.len(),
{
    reveal(Seq::filter);
    if stored.len() > 0 {
        let rest = stored.drop_last();
        let entries = room_entries(stored);
        let before = room_entries(rest);
        rooms_count_every_record(rest);
        assert forall|i: int|
            0 <= i < stored.len() && (#[trigger] stored[i]).event is Some implies entries.contains(
            ThreadEntry {
                event_id: stored[i].event_id,
                sequence: (i + 1) as u64,
                created_at_ms: stored[i].created_at_ms,
                event: stored[i].event->0,
            },
        ) by {
            let entry = ThreadEntry {
                event_id: stored[i].event_id,
                sequence: (i + 1) as u64,
                created_at_ms: stored[i].created_at_ms,
                event: stored[i].event->0,
            };
            if i < rest.len() {
                assert(rest[i] == stored[i]);
                let k = choose|k: int| 0 <= k < before.len() && before[k] == entry;
                assert(entries[k] == entry);
            } else {
                assert(entries[before.len() as int] == entry);
            }
        }
    }
}

/// The rows of a selection are those of the run events behind its first place, before its last and
/// of its types, in the log's order.
pub proof fn event_rows_are_of_the_selected_events(
    entries: Seq<ThreadEntry>,
    selection: EventSelection,
)
    ensures
        taken_rows(entries, selection) == entries.filter(|entry: ThreadEntry| entry.event is ThreadRunEvent && (selection.after is None || entry.sequence > selection.after->0) && (selection.before is None || entry.sequence < selection.before->0) && (selection.types is None || texts(selection.types->0@).contains(entry.event->ThreadRunEvent_run.kind@))).map_values(|entry: ThreadEntry| event_row_tree(entry, entry.event->ThreadRunEvent_run)),
    decreases entries.len(),
{
    let kept = |entry: ThreadEntry| entry.event is ThreadRunEvent && (selection.after is None || entry.sequence > selection.after->0) && (selection.before is None || entry.sequence < selection.before->0) && (selection.types is None || texts(selection.types->0@).contains(entry.event->ThreadRunEvent_run.kind@));
    let row = |entry: ThreadEntry| event_row_tree(entry, entry.event->ThreadRunEvent_run);
    reveal(Seq::filter);
    if entries.len() == 0 {
        assert(entries.filter(kept).map_values(row) =~= Seq::<Tree>::empty());
    } else {
        let rest = entries.drop_last();
        event_rows_are_of_the_selected_events(rest, selection);
        if kept(entries.last()) {
            assert(rest.filter(kept).push(entries.last()).map_values(row) =~= rest.filter(kept).map_values(row).push(row(entries.last())));
        }
    }
}

/// The row of an event shows its identity, its thread, its place, its type, its time, and what it
/// says beside its type.
pub proof fn event_rows_show_their_event(
    entry: ThreadEntry,
    run: RunEvent,
    key: Seq<char>,
)
    ensures
        member(event_row_tree(entry, run), "id"@) == Some(Tree::Str(entry.event_id@)),
        member(event_row_tree(entry, run), "scope"@) == Some(run.scope@),
        member(event_row_tree(entry, run), "threadId"@) == Some(Tree::Str(run.thread_id@)),
        member(event_row_tree(entry, run), "seq"@) == Some(Tree::UInt(entry.sequence)),
        member(event_row_tree(entry, run), "type"@) == Some(Tree::Str(run.kind@)),
        member(event_row_tree(entry, run), "createdAt"@) == Some(Tree::UInt(entry.created_at_ms)),
        member(event_row_tree(entry, run), "data"@) is Some,
        run.data@ is Object && key != "type"@ ==> member(member(event_row_tree(entry, run), "data"@)->0, key) == member(run.data@, key),
        run.data@ is Object ==> member(member(event_row_tree(entry, run), "data"@)->0, "type"@) is None,
        !(run.data@ is Object) ==> member(event_row_tree(entry, run), "data"@) == Some(run.data@),
{
    broadcast use {crate::json::member_of_field, crate::reply::errors_say_what_is_wrong};

    reveal_strlit("id");
    reveal_strlit("seq");
    reveal_strlit("data");
    reveal_strlit("type");
    reveal_strlit("scope");
    reveal_strlit("threadId");
    reveal_strlit("createdAt");
    assert("id"@.len() == 2);
    assert("seq"@.len() == 3);
    assert("data"@.len() == 4 && "data"@[0] == 'd');
    assert("type"@.len() == 4 && "type"@[0] == 't');
    assert("scope"@.len() == 5);
    assert("threadId"@.len() == 8);
    assert("createdAt"@.len() == 9);
    if run.data@ is Object {
        let fields = run.data@->Object_0;
        if key != "type"@ {
            crate::json::lookup_without(fields, "type"@, key);
        }
        nothing_is_left_of(fields, "type"@);
    }
}

/// Of what was taken out nothing is left.
proof fn nothing_is_left_of(fields: Seq<(Seq<char>, Tree)>, key: Seq<char>)
    ensures
        crate::json::lookup(without(fields, key), key) is None,
    decreases fields.len(),
{
    if fields.len() > 0 {
        let rest = without(fields.drop_last(), key);
        nothing_is_left_of(fields.drop_last(), key);
        if fields.last().0 != key {
            assert(rest.push(fields.last()).drop_last() =~= rest);
        }
    }
}

/// A selection shows its rows oldest first, or newest first where that is asked for, and as many as
/// it may.
pub proof fn selections_are_ordered_and_cut(
    entries: Vec<ThreadEntry>,
    selection: EventSelection,
    shown: Vec<Json>,
)
    requires
        call_ensures(thread_event_rows, (&entries, &selection), shown),
    ensures
        ({
            let all = taken_rows(entries@, selection);
            let ordered = if selection.descending { all.reverse() } else { all };
            &&& ordered.len() <= selection.limit ==> trees(shown@) == ordered
            &&& ordered.len() > selection.limit ==> trees(shown@) == ordered.take(selection.limit as int)
        }),
{
}

/// A query selects by the places, the types and the order it names: a hundred rows where it names
/// no limit and never more than ten thousand, oldest first unless it says otherwise. What cannot be
/// read is refused, the first such part first.
pub proof fn event_queries_are_read(
    query: ThreadEventsQuery,
    after: Result<Option<u64>, Reply>,
    before: Result<Option<u64>, Reply>,
    limit: Result<Option<u64>, Reply>,
    answer: Result<EventSelection, Reply>,
)
    requires
        call_ensures(parse_events_query, (&query,), answer),
        call_ensures(parse_query_sequence, (&query.after_seq, "afterSeq"), after),
        call_ensures(parse_query_sequence, (&query.before_seq, "beforeSeq"), before),
        call_ensures(parse_query_sequence, (&query.limit, "limit"), limit),
    ensures
        ({
            let word = query.order;
            let ordered = word is None || word->0@.len() == 0 || word->0@ == "asc"@ || word->0@ == "desc"@;
            &&& answer is Ok <==> after is Ok && before is Ok && limit is Ok && ordered
            &&& after is Err ==> answer->Err_0@ == after->Err_0@
            &&& after is Ok && before is Err ==> answer->Err_0@ == before->Err_0@
            &&& after is Ok && before is Ok && limit is Err ==> answer->Err_0@ == limit->Err_0@
            &&& after is Ok && before is Ok && limit is Ok && !ordered ==> refuses(answer->Err_0@, 400, "invalid_request"@, "order must be asc or desc, got "@ + debug_quoted(word->0@))
            &&& answer matches Ok(selection) ==> {
                &&& selection.after == after->Ok_0
                &&& selection.before == before->Ok_0
                &&& selection.descending <==> word is Some && word->0@ == "desc"@
                &&& limit->Ok_0 is None ==> selection.limit == 100
                &&& limit->Ok_0 is Some && limit->Ok_0->0 <= 10_000 ==> selection.limit == limit->Ok_0->0
                &&& limit->Ok_0 is Some && limit->Ok_0->0 > 10_000 ==> selection.limit == 10_000
                &&& query.types is None ==> selection.types is None
                &&& query.types is Some ==> selection.types is Some && texts(selection.types->0@) == tidy(comma_pieces(query.types->0@))
            }
        }),
{
    broadcast use {crate::json::member_of_field, crate::reply::errors_say_what_is_wrong};

    reveal_strlit("asc");
    reveal_strlit("desc");
    assert("asc"@.len() == 3);
    assert("desc"@.len() == 4);
}

/// What is selected depends on what a selection says alone.
proof fn like_selections_select_alike(entries: Seq<ThreadEntry>, a: EventSelection, b: EventSelection)
    requires
        a@ == b@,
    ensures
        taken_rows(entries, a) == taken_rows(entries, b),
        selected_rows(entries, a) == selected_rows(entries, b),
    decreases entries.len(),
{
    if entries.len() > 0 {
        like_selections_select_alike(entries.drop_last(), a, b);
    }
}

/// A query for events is answered with the rows of its selection, or with its refusal.
pub proof fn event_queries_are_answered_by_their_selection(
    query: ThreadEventsQuery,
    entries: Vec<ThreadEntry>,
    answer: Reply,
    selected: Result<EventSelection, Reply>,
)
    requires
        call_ensures(thread_events, (&query, &entries), answer),
        call_ensures(parse_events_query, (&query,), selected),
    ensures
        selected matches Err(refusal) ==> answer@ == refusal@,
        selected matches Ok(selection) ==> answer@.status == 200 && answer@.body == Tree::Array(selected_rows(entries@, selection)),
{
    if selected is Ok {
        let mine = selected->Ok_0;
        let view = selection_of(query)->Ok_0;
        let used = choose|selection: EventSelection|
            #![trigger selected_rows(entries@, selection)]
            selection@ == view && answer@ == ok_view(
                Tree::Array(selected_rows(entries@, selection)),
            );
        like_selections_select_alike(entries@, used, mine);
    }
}

/// A reader waits as long as it asks, half a minute where it does not say, and never longer than a
/// minute.
pub proof fn waits_are_bounded(
    wait_ms: Option<String>,
    number: Result<Option<u64>, Reply>,
    answer: Result<u64, Reply>,
)
    requires
        call_ensures(event_wait_ms, (&wait_ms,), answer),
        call_ensures(parse_query_sequence, (&wait_ms, "waitMs"), number),
    ensures
        number matches Err(refusal) ==> answer is Err && answer->Err_0@ == refusal@,
        number is Ok && number->Ok_0 is None ==> answer is Ok && answer->Ok_0 == 30_000,
        number is Ok && number->Ok_0 is Some && number->Ok_0->0 <= 60_000 ==> answer is Ok && answer->Ok_0 == number->Ok_0->0,
        number is Ok && number->Ok_0 is Some && number->Ok_0->0 > 60_000 ==> answer is Ok && answer->Ok_0 == 60_000,
{
}

/// Whether an entry is the first run event behind a place.
pub open spec fn is_next_event(entries: Seq<ThreadEntry>, after: Option<u64>, i: int) -> bool {
    &&& 0 <= i < entries.len()
    &&& is_event_after(entries[i], after)
    &&& forall|j: int| 0 <= j < i ==> !is_event_after(#[trigger] entries[j], after)
}

/// Whether an entry is a run event behind a place.
pub open spec fn is_event_after(entry: ThreadEntry, after: Option<u64>) -> bool {
    entry.event is ThreadRunEvent && (after is None || entry.sequence > after->0)
}

/// The first row behind a place is that of the first run event behind it.
proof fn first_rows_are_of_the_next_event(entries: Seq<ThreadEntry>, after: Option<u64>)
    ensures
        first_row_after(entries, after) is None ==> forall|i: int|
            0 <= i < entries.len() ==> !is_event_after(#[trigger] entries[i], after),
        first_row_after(entries, after) is Some ==> exists|i: int| #[trigger]
            is_next_event(entries, after, i) && first_row_after(entries, after) == Some(
                event_row_tree(entries[i], entries[i].event->ThreadRunEvent_run),
            ),
    decreases entries.len(),
{
    if entries.len() > 0 {
        if is_event_after(entries[0], after) {
            assert(is_next_event(entries, after, 0));
        } else {
            let rest = entries.drop_first();
            first_rows_are_of_the_next_event(rest, after);
            if first_row_after(rest, after) is Some {
                let i = choose|i: int| #[trigger]
                    is_next_event(rest, after, i) && first_row_after(rest, after) == Some(
                        event_row_tree(rest[i], rest[i].event->ThreadRunEvent_run),
                    );
                assert(entries[i + 1] == rest[i]);
                assert forall|j: int| 0 <= j < i + 1 implies !is_event_after(
                    #[trigger] entries[j],
                    after,
                ) by {
                    if j > 0 {
                        assert(rest[j - 1] == entries[j]);
                    }
                }
                assert(is_next_event(entries, after, i + 1));
            } else {
                assert forall|i: int| 0 <= i < entries.len() implies !is_event_after(
                    #[trigger] entries[i],
                    after,
                ) by {
                    if i > 0 {
                        assert(rest[i - 1] == entries[i]);
                    }
                }
            }
        }
    }
}

/// A wait ends with the first run event behind its place; where there is none it goes on until it
/// expires, and then ends with nothing.
pub proof fn waits_end_with_the_next_event(
    entries: Vec<ThreadEntry>,
    after: Option<u64>,
    expired: bool,
    step: WaitStep,
)
    requires
        call_ensures(event_wait_step, (&entries, after, expired), step),
    ensures
        (exists|i: int| 0 <= i < entries@.len() && is_event_after(#[trigger] entries@[i], after)) ==> step is Answer && exists|i: int| #[trigger] is_next_event(entries@, after, i) && step->Answer_0@ == event_row_tree(entries@[i], entries@[i].event->ThreadRunEvent_run),
        (forall|i: int| 0 <= i < entries@.len() ==> !is_event_after(#[trigger] entries@[i], after)) && expired ==> step is Answer && step->Answer_0@ == Tree::Null,
        (forall|i: int| 0 <= i < entries@.len() ==> !is_event_after(#[trigger] entries@[i], after)) && !expired ==> step is Again,
{
    first_rows_are_of_the_next_event(entries@, after);
}

/// A list is cut at its commas: what has none is one piece, and what stands on the two sides of a
/// comma is cut on its own.
pub proof fn lists_are_cut_at_commas(a: Seq<char>, b: Seq<char>)
    ensures
        comma_pieces(a + seq![','] + b) == comma_pieces(a) + comma_pieces(b),
        (forall|i: int| 0 <= i < a.len() ==> #[trigger] a[i] != ',') ==> comma_pieces(a) == seq![a],
    decreases b.len(), a.len(),
{
    pieces_are_some(a);
    if forall|i: int| 0 <= i < a.len() ==> #[trigger] a[i] != ',' {
        if a.len() == 0 {
            assert(a =~= Seq::<char>::empty());
        } else {
            let rest = a.drop_last();
            assert forall|i: int| 0 <= i < rest.len() implies #[trigger] rest[i] != ',' by {
                assert(rest[i] == a[i]);
            }
            lists_are_cut_at_commas(rest, b.take(0));
            assert(a[a.len() - 1] != ',');
            assert(comma_pieces(a) =~= seq![rest.push(a.last())]);
            assert(rest.push(a.last()) =~= a);
        }
    }
    let whole = a + seq![','] + b;
    if b.len() == 0 {
        assert(whole.drop_last() =~= a);
        assert(whole.last() == ',');
        assert(b =~= Seq::<char>::empty());
        assert(comma_pieces(whole) =~= comma_pieces(a) + comma_pieces(b));
    } else {
        let less = b.drop_last();
        lists_are_cut_at_commas(a, less);
        pieces_are_some(less);
        assert(whole.drop_last() =~= a + seq![','] + less);
        assert(whole.last() == b.last());
        assert(comma_pieces(whole) =~= comma_pieces(a) + comma_pieces(b));
    }
}

/// There is always a piece.
proof fn pieces_are_some(s: Seq<char>)
    ensures
        comma_pieces(s).len() > 0,
    decreases s.len(),
{
    if s.len() > 0 {
        pieces_are_some(s.drop_last());
    }
}

/// The items of a list are its pieces without the white space around them, and without the empty
/// ones.
pub proof fn list_items_are_tidied(
    pieces: Seq<Seq<char>>,
)
    ensures
        tidy(pieces) == pieces.filter(|piece: Seq<char>| trimmed(piece).len() > 0).map_values(|piece: Seq<char>| trimmed(piece)),
    decreases pieces.len(),
{
    let kept = |piece: Seq<char>| trimmed(piece).len() > 0;
    let row = |piece: Seq<char>| trimmed(piece);
    reveal(Seq::filter);
    if pieces.len() == 0 {
        assert(pieces.filter(kept).map_values(row) =~= Seq::<Seq<char>>::empty());
    } else {
        let rest = pieces.drop_last();
        list_items_are_tidied(rest);
        if kept(pieces.last()) {
            assert(rest.filter(kept).push(pieces.last()).map_values(row) =~= rest.filter(kept).map_values(row).push(row(pieces.last())));
        }
    }
}

/// The type of a run event, where an entry is one.
pub open spec fn typed(entry: ThreadEntry, kind: Seq<char>) -> bool {
    entry.event is ThreadRunEvent && entry.event->ThreadRunEvent_run.kind@ == kind
}

/// A thread's goal is what its log last set it to: an update sets it, a clearing clears it, and
/// nothing else touches it.
pub proof fn goals_follow_the_log(entries: Seq<ThreadEntry>, entry: ThreadEntry)
    ensures
        current_goal(Seq::empty()) is None,
        typed(entry, "thread/goal/cleared"@) ==> current_goal(entries.push(entry)) is None,
        !typed(entry, "thread/goal/cleared"@) && !typed(entry, "thread/goal/updated"@) ==> current_goal(entries.push(entry)) == current_goal(entries),
        typed(entry, "thread/goal/updated"@) ==> {
            let goal = current_goal(entries.push(entry));
            let said = entry.event->ThreadRunEvent_run.value@;
            &&& goal is Some
            &&& member(goal->0, "sourceSeq"@) == Some(Tree::UInt(entry.sequence))
            &&& member(goal->0, "updatedAt"@) == Some(Tree::UInt(entry.created_at_ms))
            &&& member(said, "objective"@) is Some ==> member(goal->0, "objective"@) == member(said, "objective"@)
            &&& member(said, "objective"@) is None ==> member(goal->0, "objective"@) == Some(Tree::Null)
            &&& member(said, "status"@) is Some ==> member(goal->0, "status"@) == member(said, "status"@)
            &&& member(said, "status"@) is None ==> member(goal->0, "status"@) == Some(Tree::Null)
            &&& member(said, "tokenBudget"@) is Some ==> member(goal->0, "tokenBudget"@) == member(said, "tokenBudget"@)
            &&& member(said, "tokenBudget"@) is None ==> member(goal->0, "tokenBudget"@) == Some(Tree::Null)
            &&& member(said, "tokensUsed"@) is Some ==> member(goal->0, "tokensUsed"@) == member(said, "tokensUsed"@)
            &&& member(said, "tokensUsed"@) is None ==> member(goal->0, "tokensUsed"@) == Some(Tree::Null)
            &&& member(said, "timeUsedSeconds"@) is Some ==> member(goal->0, "timeUsedSeconds"@) == member(said, "timeUsedSeconds"@)
            &&& member(said, "timeUsedSeconds"@) is None ==> member(goal->0, "timeUsedSeconds"@) == Some(Tree::Null)
        },
        switched_on(Seq::empty(), "thread/goal/updated"@, "thread/goal/cleared"@) == false,
        typed(entry, "thread/goal/updated"@) ==> switched_on(entries.push(entry), "thread/goal/updated"@, "thread/goal/cleared"@),
        typed(entry, "thread/goal/cleared"@) ==> !switched_on(entries.push(entry), "thread/goal/updated"@, "thread/goal/cleared"@),
        !typed(entry, "thread/goal/cleared"@) && !typed(entry, "thread/goal/updated"@) ==> switched_on(entries.push(entry), "thread/goal/updated"@, "thread/goal/cleared"@) == switched_on(entries, "thread/goal/updated"@, "thread/goal/cleared"@),
{
    broadcast use {crate::json::member_of_field, crate::reply::errors_say_what_is_wrong};

    reveal_strlit("status");
    reveal_strlit("objective");
    reveal_strlit("sourceSeq");
    reveal_strlit("updatedAt");
    reveal_strlit("tokensUsed");
    reveal_strlit("tokenBudget");
    reveal_strlit("timeUsedSeconds");
    assert("status"@.len() == 6);
    assert("objective"@.len() == 9 && "objective"@[0] == 'o');
    assert("sourceSeq"@.len() == 9 && "sourceSeq"@[0] == 's');
    assert("updatedAt"@.len() == 9 && "updatedAt"@[0] == 'u');
    assert("tokensUsed"@.len() == 10);
    assert("tokenBudget"@.len() == 11);
    assert("timeUsedSeconds"@.len() == 15);
    reveal_strlit("thread/goal/updated");
    reveal_strlit("thread/goal/cleared");
    assert("thread/goal/updated"@[12] == 'u');
    assert("thread/goal/cleared"@[12] == 'c');
    assert(entries.push(entry).drop_last() =~= entries);
    assert(entries.push(entry).last() == entry);
}

/// A plan is active from its update on until it is removed or a turn ends.
pub proof fn plans_follow_the_log(entries: Seq<ThreadEntry>, entry: ThreadEntry)
    ensures
        !plan_shown(Seq::empty()),
        typed(entry, "turn/plan/updated"@) ==> plan_shown(entries.push(entry)),
        typed(entry, "plan/removed"@) || typed(entry, "turn/completed"@) ==> !plan_shown(entries.push(entry)),
        !typed(entry, "turn/plan/updated"@) && !typed(entry, "plan/removed"@) && !typed(entry, "turn/completed"@) ==> plan_shown(entries.push(entry)) == plan_shown(entries),
{
    reveal_strlit("plan/removed");
    reveal_strlit("turn/completed");
    reveal_strlit("turn/plan/updated");
    assert("plan/removed"@.len() == 12);
    assert("turn/completed"@.len() == 14);
    assert("turn/plan/updated"@.len() == 17);
    assert(entries.push(entry).drop_last() =~= entries);
    assert(entries.push(entry).last() == entry);
}

/// Whether a thread has a goal or a plan is what its log says, and the goal that is shown is the
/// current one.
pub proof fn goals_and_plans_are_read_from_the_log(
    entries: Vec<ThreadEntry>,
    goal: bool,
    plan: bool,
    value: Json,
)
    requires
        call_ensures(thread_has_goal, (&entries,), goal),
        call_ensures(thread_has_active_plan, (&entries,), plan),
        call_ensures(goal_value, (&entries,), value),
    ensures
        goal == switched_on(entries@, "thread/goal/updated"@, "thread/goal/cleared"@),
        plan == plan_shown(entries@),
        current_goal(entries@) is None ==> value@ == Tree::Null,
        current_goal(entries@) matches Some(current) ==> value@ == current,
        goal <==> current_goal(entries@) is Some,
{
    goals_are_shown(entries@);
}

/// The model that a thread fell back to is the last that its log tells of, with the time it was
/// found out.
pub proof fn fallbacks_follow_the_log(entries: Seq<ThreadEntry>, entry: ThreadEntry)
    ensures
        last_fallback(Seq::empty()) is None,
        (entry.event is ThreadRunEvent && entry.event->ThreadRunEvent_run.body is ProviderModelFallback) ==> {
            let told = last_fallback(entries.push(entry));
            let body = entry.event->ThreadRunEvent_run.body;
            &&& told is Some
            &&& member(told->0, "originalModel"@) == Some(Tree::Str(body->original_model@))
            &&& member(told->0, "fallbackModel"@) == Some(Tree::Str(body->fallback_model@))
            &&& member(told->0, "detectedAt"@) == Some(Tree::UInt(entry.created_at_ms))
        },
        !(entry.event is ThreadRunEvent && entry.event->ThreadRunEvent_run.body is ProviderModelFallback) ==> last_fallback(entries.push(entry)) == last_fallback(entries),
{
    broadcast use {crate::json::member_of_field, crate::reply::errors_say_what_is_wrong};

    reveal_strlit("detectedAt");
    reveal_strlit("fallbackModel");
    reveal_strlit("originalModel");
    assert("detectedAt"@.len() == 10);
    assert("fallbackModel"@.len() == 13 && "fallbackModel"@[0] == 'f');
    assert("originalModel"@.len() == 13 && "originalModel"@[0] == 'o');
    assert(entries.push(entry).drop_last() =~= entries);
    assert(entries.push(entry).last() == entry);
}

/// What a provider reports belongs to the item that it names: thinking to its thought, text to its
/// answer, and work to its tool call. Everything else belongs to none.
pub proof fn frames_belong_to_their_item(body: ProviderEvent)
    ensures
        body matches ProviderEvent::ItemReasoningTextDelta { item_id, .. } ==> frame_item(body) == Some((FrameClass::Reasoning, item_id@)),
        body matches ProviderEvent::ItemReasoningSummaryTextDelta { item_id, .. } ==> frame_item(body) == Some((FrameClass::Reasoning, item_id@)),
        body matches ProviderEvent::ItemAgentMessageDelta { item_id, .. } ==> frame_item(body) == Some((FrameClass::Assistant, item_id@)),
        body matches ProviderEvent::ItemToolCallProgress { item_id } ==> frame_item(body) == Some((FrameClass::Tool, item_id@)),
        body matches ProviderEvent::ItemStarted { item: ThreadEventItem::ToolCall { id } } ==> frame_item(body) == Some((FrameClass::Tool, id@)),
        body matches ProviderEvent::ItemStarted { item: ThreadEventItem::CommandExecution { id } } ==> frame_item(body) == Some((FrameClass::Tool, id@)),
        body matches ProviderEvent::ItemStarted { item: ThreadEventItem::FileChange { id } } ==> frame_item(body) == Some((FrameClass::Tool, id@)),
        body matches ProviderEvent::ItemStarted { item: ThreadEventItem::FileRead { id } } ==> frame_item(body) == Some((FrameClass::Tool, id@)),
        body matches ProviderEvent::ItemStarted { item: ThreadEventItem::Search { id } } ==> frame_item(body) == Some((FrameClass::Tool, id@)),
        body matches ProviderEvent::ItemStarted { item: ThreadEventItem::WebFetch { id } } ==> frame_item(body) == Some((FrameClass::Tool, id@)),
        body matches ProviderEvent::ItemCompleted { item: ThreadEventItem::ToolCall { id } } ==> frame_item(body) == Some((FrameClass::Tool, id@)),
        body matches ProviderEvent::ItemCompleted { item: ThreadEventItem::CommandExecution { id } } ==> frame_item(body) == Some((FrameClass::Tool, id@)),
        body matches ProviderEvent::ItemCompleted { item: ThreadEventItem::FileChange { id } } ==> frame_item(body) == Some((FrameClass::Tool, id@)),
        body matches ProviderEvent::ItemCompleted { item: ThreadEventItem::FileRead { id } } ==> frame_item(body) == Some((FrameClass::Tool, id@)),
        body matches ProviderEvent::ItemCompleted { item: ThreadEventItem::Search { id } } ==> frame_item(body) == Some((FrameClass::Tool, id@)),
        body matches ProviderEvent::ItemCompleted { item: ThreadEventItem::WebFetch { id } } ==> frame_item(body) == Some((FrameClass::Tool, id@)),
        body matches ProviderEvent::ItemCompleted { item: ThreadEventItem::Reasoning { id, .. } } ==> frame_item(body) == Some((FrameClass::Reasoning, id@)),
        body matches ProviderEvent::ItemCompleted { item: ThreadEventItem::AgentMessage { id } } ==> frame_item(body) == Some((FrameClass::Assistant, id@)),
        body matches ProviderEvent::ItemStarted { item: ThreadEventItem::Reasoning { id, .. } } ==> frame_item(body) is None,
        body matches ProviderEvent::ItemStarted { item: ThreadEventItem::AgentMessage { id } } ==> frame_item(body) is None,
        body matches ProviderEvent::ItemStarted { item: ThreadEventItem::Other } ==> frame_item(body) is None,
        body matches ProviderEvent::ItemCompleted { item: ThreadEventItem::Other } ==> frame_item(body) is None,
        body is ProviderModelFallback || body is Other ==> frame_item(body) is None,
{
}

/// What is found under a name among members that were set one after the other: the last that was set
/// under it, else what was there before.
proof fn set_members_are_found(
    fields: Seq<(Seq<char>, Tree)>,
    extra: Seq<(Seq<char>, Tree)>,
    key: Seq<char>,
)
    ensures
        crate::json::lookup(set_all(fields, extra), key) == (match crate::json::lookup(extra, key) {
            Some(value) => Some(value),
            None => crate::json::lookup(fields, key),
        }),
    decreases extra.len(),
{
    if extra.len() > 0 {
        let rest = extra.drop_last();
        set_members_are_found(fields, rest, key);
        crate::json::member_of_replaced(set_all(fields, rest), extra.last().0, extra.last().1, key);
    }
}

/// The row of an answer says what was folded of it, and beside that which thread and run it is of,
/// where it begins and ends, and when it came.
pub proof fn answers_show_what_was_folded(
    thread_id: Seq<char>,
    created_at_ms: u64,
    message: AssistantMessage,
    key: Seq<char>,
)
    ensures
        ({
            let row = assistant_tree(thread_id, created_at_ms, message);
            let told = crate::json::lookup(crate::json::members(message.fields@), key);
            &&& told is Some ==> member(row, key) == told
            &&& told is None && key == "id"@ ==> member(row, key) == Some(Tree::Str(thread_id + ":"@ + message.run_id@ + ":"@ + message.item_id@))
            &&& told is None && key == "threadId"@ ==> member(row, key) == Some(Tree::Str(thread_id))
            &&& told is None && key == "turnId"@ ==> member(row, key) == Some(Tree::Str(message.run_id@))
            &&& told is None && key == "sourceSeqStart"@ ==> member(row, key) == Some(Tree::UInt(message.start_sequence))
            &&& told is None && key == "sourceSeqEnd"@ && message.end_sequence >= message.start_sequence ==> member(row, key) == Some(Tree::UInt(message.end_sequence))
            &&& told is None && key == "sourceSeqEnd"@ && message.end_sequence < message.start_sequence ==> member(row, key) == Some(Tree::UInt(message.start_sequence))
            &&& told is None && key == "startedAt"@ ==> member(row, key) == Some(Tree::UInt(created_at_ms))
            &&& told is None && key == "createdAt"@ ==> member(row, key) == Some(Tree::UInt(created_at_ms))
        }),
{
    broadcast use {crate::json::member_of_field, crate::reply::errors_say_what_is_wrong};

    reveal_strlit("id");
    reveal_strlit("turnId");
    reveal_strlit("threadId");
    reveal_strlit("createdAt");
    reveal_strlit("startedAt");
    reveal_strlit("sourceSeqEnd");
    reveal_strlit("sourceSeqStart");
    assert("id"@.len() == 2);
    assert("turnId"@.len() == 6);
    assert("threadId"@.len() == 8);
    assert("createdAt"@.len() == 9 && "createdAt"@[0] == 'c');
    assert("startedAt"@.len() == 9 && "startedAt"@[0] == 's');
    assert("sourceSeqEnd"@.len() == 12);
    assert("sourceSeqStart"@.len() == 14);
    let base = row_base(
        thread_id + ":"@ + message.run_id@ + ":"@ + message.item_id@,
        thread_id,
        Some(message.run_id@),
        message.start_sequence,
        created_at_ms,
    );
    let end = if message.end_sequence > message.start_sequence {
        message.end_sequence
    } else {
        message.start_sequence
    };
    set_members_are_found(
        with_member(base->Object_0, "sourceSeqEnd"@, Tree::UInt(end)),
        crate::json::members(message.fields@),
        key,
    );
    crate::json::member_of_replaced(base->Object_0, "sourceSeqEnd"@, Tree::UInt(end), key);
    assert(crate::json::lookup(base->Object_0, key) == member(base, key));
}

/// What was folded is found by its run and its item, the first of them.
pub proof fn answers_are_found_by_run_and_item(
    messages: Seq<AssistantMessage>,
    run: Seq<char>,
    item: Seq<char>,
    i: int,
)
    requires
        0 <= i < messages.len(),
        messages[i].run_id@ == run && messages[i].item_id@ == item,
        forall|j: int| 0 <= j < i ==> !((#[trigger] messages[j]).run_id@ == run && messages[j].item_id@ == item),
    ensures
        find_message(messages, run, item) == Some(messages[i]),
    decreases messages.len(),
{
    if i > 0 {
        let rest = messages.drop_first();
        assert(rest[i - 1] == messages[i]);
        assert forall|j: int| 0 <= j < i - 1 implies !((#[trigger] rest[j]).run_id@ == run
            && rest[j].item_id@ == item) by {
            assert(rest[j] == messages[j + 1]);
        }
        assert(!(messages[0].run_id@ == run && messages[0].item_id@ == item));
        answers_are_found_by_run_and_item(rest, run, item, i - 1);
    }
}

/// What was folded is found by its run and its item, the first of them.
pub proof fn calls_are_found_by_run_and_item(
    tools: Seq<ToolActivity>,
    run: Seq<char>,
    item: Seq<char>,
    i: int,
)
    requires
        0 <= i < tools.len(),
        tools[i].run_id@ == run && tools[i].item_id@ == item,
        forall|j: int| 0 <= j < i ==> !((#[trigger] tools[j]).run_id@ == run && tools[j].item_id@ == item),
    ensures
        find_tool(tools, run, item) == Some(tools[i]),
    decreases tools.len(),
{
    if i > 0 {
        let rest = tools.drop_first();
        assert(rest[i - 1] == tools[i]);
        assert forall|j: int| 0 <= j < i - 1 implies !((#[trigger] rest[j]).run_id@ == run
            && rest[j].item_id@ == item) by {
            assert(rest[j] == tools[j + 1]);
        }
        assert(!(tools[0].run_id@ == run && tools[0].item_id@ == item));
        calls_are_found_by_run_and_item(rest, run, item, i - 1);
    }
}

/// The first frame of an item brings the item's rows into the timeline.
pub proof fn items_have_their_rows(
    thread_id: Seq<char>,
    entries: Seq<ThreadEntry>,
    folds: Folds,
    class: FrameClass,
    i: int,
    row: Tree,
)
    requires
        0 <= i < entries.len(),
        entry_frame(entries[i]) is Some,
        entry_frame(entries[i])->0.class == class,
        !seen_before(entries, i, entry_frame(entries[i])->0),
        folded_rows(thread_id, folds, entry_frame(entries[i])->0, entries[i].created_at_ms).contains(
            row,
        ),
    ensures
        class_rows(thread_id, entries, folds, class).contains(row),
    decreases entries.len(),
{
    let n = entries.len() - 1;
    let rest = entries.drop_last();
    let before = class_rows(thread_id, rest, folds, class);
    let all = class_rows(thread_id, entries, folds, class);
    if i < n {
        assert(rest[i] == entries[i]);
        let frame = entry_frame(entries[i])->0;
        if seen_before(rest, i, frame) {
            let j = choose|j: int| 0 <= j < i && entry_frame(#[trigger] rest[j]) == Some(frame);
            assert(entries[j] == rest[j]);
        }
        items_have_their_rows(thread_id, rest, folds, class, i, row);
        let k = choose|k: int| 0 <= k < before.len() && before[k] == row;
        assert(all[k] == row);
    } else {
        assert(entries.last() == entries[i]);
        let added = folded_rows(
            thread_id,
            folds,
            entry_frame(entries[i])->0,
            entries[i].created_at_ms,
        );
        let k = choose|k: int| 0 <= k < added.len() && added[k] == row;
        assert(all[before.len() + k] == row);
    }
}

} // verus!
