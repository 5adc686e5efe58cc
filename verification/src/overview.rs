//! Short reads over the log and the run table: outlines, prompt histories, running threads, tabs
//! and probes.

use vstd::prelude::*;

use crate::domain::{DomainEvent, Message, MessageRole};
use crate::json::{member, object, trees, Fields, Json, Tree};
use crate::projections::{HealthResponse, VersionResponse};
use crate::protocol::PROTOCOL_VERSION;
use crate::reply::{
    coded_error, command_error_response, error_response_with_code, ok, ok_view,
    parse_query_sequence, plain_error, query_number, refuses, CommandError, Reply, ReplyView,
};
use crate::runs::{selected, RunRecord, RunRegistry};
use crate::search::{preview, preview_text};
use crate::strmap::{ordered, StrMap};
use crate::text::opt_view;
use crate::timeline::{empty_array, ThreadEntry};

verus! {

/// How much of a message an outline shows, in characters.
pub const OUTLINE_PREVIEW_CHARS: usize = 120;

/// How many prompts a history returns when the client names no limit.
pub const PROMPT_HISTORY_DEFAULT_LIMIT: u64 = 50;

/// The most prompts a history returns.
pub const PROMPT_HISTORY_MAX_LIMIT: u64 = 200;

/// The message that an event adds, where it adds one.
pub open spec fn added_message(entry: ThreadEntry) -> Option<Message> {
    match entry.event {
        DomainEvent::ThreadMessageAdded { message, .. } => Some(message),
        _ => None,
    }
}

/// The outline row of a message.
pub open spec fn outline_tree(message: Message) -> Tree {
    object().field("id"@, Tree::Str(message.id@))
        .field(
            "role"@,
            Tree::Str(
                match message.role {
                    MessageRole::User => "user"@,
                    _ => "assistant"@,
                },
            ),
        )
        .field("preview"@, Tree::Str(preview(message.content@, OUTLINE_PREVIEW_CHARS as nat)))
        .field("attachmentSummary"@, Tree::Null)
}

/// The outline of a log: one row per user and assistant message, in log order.
pub open spec fn outline_rows(entries: Seq<ThreadEntry>) -> Seq<Tree>
    decreases entries.len(),
{
    if entries.len() == 0 {
        Seq::empty()
    } else {
        let before = outline_rows(entries.drop_last());
        match added_message(entries.last()) {
            Some(message) => if message.role is System {
                before
            } else {
                before.push(outline_tree(message))
            },
            None => before,
        }
    }
}

/// The last sequence of a log, so that a client can tell whether its outline is current.
pub open spec fn last_sequence(entries: Seq<ThreadEntry>) -> u64 {
    if entries.len() == 0 {
        0
    } else {
        entries.last().sequence
    }
}

/// The outline of a thread's conversation.
pub fn thread_conversation_outline(entries: &Vec<ThreadEntry>) -> (result: Reply)
    ensures
        result@ == ok_view(
            object().field("items"@, Tree::Array(outline_rows(entries@))).field(
                "maxSeq"@,
                Tree::UInt(last_sequence(entries@)),
            ),
        ),
{
    let mut rows: Vec<Json> = Vec::new();
    assert(entries@.take(0) =~= Seq::<ThreadEntry>::empty());
    assert(trees(rows@) =~= Seq::<Tree>::empty());
    for i in 0..entries.len()
        invariant
            trees(rows@) == outline_rows(entries@.take(i as int)),
    {
        let ghost before = trees(rows@);
        assert(entries@.take(i + 1).drop_last() =~= entries@.take(i as int));
        assert(entries@.take(i + 1).last() == entries@[i as int]);
        if let DomainEvent::ThreadMessageAdded { message, .. } = &entries[i].event {
            let role: Option<&str> = match message.role {
                MessageRole::User => Some("user"),
                MessageRole::Assistant => Some("assistant"),
                MessageRole::System => None,
            };
            if let Some(role) = role {
                rows.push(
                    Fields::new().with("id", Json::text(message.id.as_str()))
                        .with("role", Json::text(role))
                        .with(
                            "preview",
                            Json::Str(preview_text(message.content.as_str(), OUTLINE_PREVIEW_CHARS)),
                        )
                        .with("attachmentSummary", Json::Null)
                        .object(),
                );
                assert(trees(rows@) =~= before.push(outline_tree(*message)));
            }
        }
    }
    assert(entries@.take(entries@.len() as int) =~= entries@);
    let last: u64 = if entries.len() == 0 {
        0
    } else {
        entries[entries.len() - 1].sequence
    };
    ok(Fields::new().with("items", Json::array(rows)).with("maxSeq", Json::UInt(last)).object())
}

/// A prompt as its history shows it.
pub open spec fn prompt_tree(message: Message) -> Tree {
    object().field("id"@, Tree::Str(message.id@))
        .field("createdAt"@, Tree::UInt(message.created_at_ms))
        .field(
            "input"@,
            Tree::Array(
                seq![
                    object().field("type"@, Tree::Str("text"@))
                        .field("text"@, Tree::Str(message.content@))
                        .field("mentions"@, Tree::Array(Seq::empty())),
                ],
            ),
        )
}

/// A prompt as its history shows it.
fn prompt_value(message: &Message) -> (result: Json)
    ensures
        result@ == prompt_tree(*message),
{
    let part: Json = Fields::new().with("type", Json::text("text"))
        .with("text", Json::text(message.content.as_str()))
        .with("mentions", empty_array())
        .object();
    let mut input: Vec<Json> = Vec::new();
    input.push(part);
    assert(trees(input@) =~= seq![part@]);
    Fields::new().with("id", Json::text(message.id.as_str()))
        .with("createdAt", Json::UInt(message.created_at_ms))
        .with("input", Json::array(input))
        .object()
}

/// The prompts of a log, newest first.
pub open spec fn prompts(entries: Seq<ThreadEntry>) -> Seq<Tree>
    decreases entries.len(),
{
    if entries.len() == 0 {
        Seq::empty()
    } else {
        let before = prompts(entries.drop_last());
        match added_message(entries.last()) {
            Some(message) => if message.role is User {
                seq![prompt_tree(message)] + before
            } else {
                before
            },
            None => before,
        }
    }
}

/// The most prompts that a query asks for.
pub open spec fn history_limit(raw: Option<Seq<char>>) -> Result<u64, ReplyView> {
    match query_number(raw, "limit"@) {
        Ok(None) => Ok(PROMPT_HISTORY_DEFAULT_LIMIT),
        Ok(Some(n)) => Ok(
            if n < 1 {
                1
            } else if n > PROMPT_HISTORY_MAX_LIMIT {
                PROMPT_HISTORY_MAX_LIMIT
            } else {
                n
            },
        ),
        Err(refusal) => Err(refusal),
    }
}

/// The first of some rows, at most so many.
pub open spec fn at_most(rows: Seq<Tree>, limit: u64) -> Seq<Tree> {
    if rows.len() > limit {
        rows.take(limit as int)
    } else {
        rows
    }
}

/// A thread's user prompts, newest first.
pub fn thread_prompt_history(limit: &Option<String>, entries: &Vec<ThreadEntry>) -> (result: Reply)
    ensures
        result@ == (match history_limit(opt_view(*limit)) {
            Err(refusal) => refusal,
            Ok(limit) => ok_view(Tree::Array(at_most(prompts(entries@), limit))),
        }),
{
    let limit: u64 = match parse_query_sequence(limit, "limit") {
        Ok(None) => PROMPT_HISTORY_DEFAULT_LIMIT,
        Ok(Some(n)) => if n < 1 {
            1
        } else if n > PROMPT_HISTORY_MAX_LIMIT {
            PROMPT_HISTORY_MAX_LIMIT
        } else {
            n
        },
        Err(reply) => {
            return reply;
        },
    };
    let mut rows: Vec<Json> = Vec::new();
    let mut i: usize = entries.len();
    assert(entries@.take(entries@.len() as int) =~= entries@);
    assert(trees(rows@) + prompts(entries@) =~= prompts(entries@));
    while i > 0 && (rows.len() as u64) < limit
        invariant
            i <= entries@.len(),
            rows@.len() <= limit,
            trees(rows@) + prompts(entries@.take(i as int)) == prompts(entries@),
        decreases i,
    {
        let ghost before = trees(rows@);
        let ghost upto = entries@.take(i as int);
        assert(upto.drop_last() =~= entries@.take(i - 1));
        assert(upto.last() == entries@[i - 1]);
        i -= 1;
        if let DomainEvent::ThreadMessageAdded { message, .. } = &entries[i].event {
            if matches!(message.role, MessageRole::User) {
                rows.push(prompt_value(message));
                assert(trees(rows@) =~= before.push(prompt_tree(*message)));
                assert(trees(rows@) + prompts(upto.drop_last()) =~= before + prompts(upto));
            }
        }
    }
    proof {
        let rest = prompts(entries@.take(i as int));
        assert(trees(rows@).len() == rows@.len());
        if rows@.len() < limit {
            assert(rest =~= Seq::<Tree>::empty());
            assert(trees(rows@) + rest =~= trees(rows@));
        } else {
            assert((trees(rows@) + rest).take(limit as int) =~= trees(rows@));
            if rest.len() == 0 {
                assert(trees(rows@) + rest =~= trees(rows@));
            }
        }
    }
    ok(Json::array(rows))
}

/// The machine that each thread with a run in flight runs on: that of its first run.
pub open spec fn in_flight(runs: Seq<RunRecord>) -> Map<Seq<char>, String>
    decreases runs.len(),
{
    if runs.len() == 0 {
        Map::empty()
    } else {
        let before = in_flight(runs.drop_last());
        if before.dom().contains(runs.last().thread_id@) {
            before
        } else {
            before.insert(runs.last().thread_id@, runs.last().host_id)
        }
    }
}

/// Whether rows list a map's threads and machines in the order of the threads' ids.
pub open spec fn lists(rows: Seq<Tree>, flights: Map<Seq<char>, String>) -> bool {
    exists|keys: Seq<Seq<char>>| #[trigger]
        in_key_order(keys) && keys.to_set() == flights.dom() && rows == Seq::new(
            keys.len(),
            |i: int| running_tree(keys[i], flights[keys[i]]@),
        )
}

/// Strictly ordered keys.
pub open spec fn in_key_order(keys: Seq<Seq<char>>) -> bool {
    forall|i: int, j: int|
        0 <= i < j < keys.len() ==> crate::text::precedes(#[trigger] keys[i], #[trigger] keys[j])
}

/// The row of a running thread.
pub open spec fn running_tree(thread: Seq<char>, host: Seq<char>) -> Tree {
    object().field("id"@, Tree::Str(thread)).field("hostId"@, Tree::Str(host))
}

/// The threads of in-flight runs, one row each.
pub fn running_rows(runs: &Vec<RunRecord>) -> (result: Vec<Json>)
    ensures
        lists(trees(result@), in_flight(runs@)),
{
    let mut flights: StrMap<String> = StrMap::new();
    assert(runs@.take(0) =~= Seq::<RunRecord>::empty());
    for i in 0..runs.len()
        invariant
            flights.wf(),
            flights@ == in_flight(runs@.take(i as int)),
    {
        assert(runs@.take(i + 1).drop_last() =~= runs@.take(i as int));
        assert(runs@.take(i + 1).last() == runs@[i as int]);
        if !flights.contains(runs[i].thread_id.as_str()) {
            flights.insert(runs[i].thread_id.clone(), runs[i].host_id.clone());
        }
    }
    assert(runs@.take(runs@.len() as int) =~= runs@);
    let ghost entries = flights.spec_entries();
    let ghost keys = Seq::new(entries.len(), |i: int| entries[i].0@);
    let mut rows: Vec<Json> = Vec::new();
    let count: usize = flights.len();
    for i in 0..count
        invariant
            flights.wf(),
            count == entries.len(),
            entries == flights.spec_entries(),
            rows@.len() == i,
            forall|k: int|
                0 <= k < i ==> (#[trigger] rows@[k])@ == running_tree(
                    entries[k].0@,
                    entries[k].1@,
                ),
    {
        rows.push(
            Fields::new().with("id", Json::text(flights.key(i).as_str())).with(
                "hostId",
                Json::text(flights.value(i).as_str()),
            ).object(),
        );
    }
    proof {
        flights.entries_are_the_map();
        assert(ordered(entries));
        assert(in_key_order(keys)) by {
            assert forall|i: int, j: int| 0 <= i < j < keys.len() implies crate::text::precedes(
                #[trigger] keys[i],
                #[trigger] keys[j],
            ) by {
                assert(crate::text::precedes(entries[i].0@, entries[j].0@));
            }
        }
        assert(keys.to_set() =~= flights@.dom()) by {
            assert forall|key: Seq<char>| keys.to_set().contains(key) == flights@.dom().contains(
                key,
            ) by {
                if keys.to_set().contains(key) {
                    let i = choose|i: int| 0 <= i < keys.len() && keys[i] == key;
                    assert(entries[i].0@ == key);
                }
                if flights@.dom().contains(key) {
                    let i = choose|i: int| crate::strmap::key_at(entries, key, i);
                    assert(keys[i] == key);
                }
            }
        }
        assert(trees(rows@) =~= Seq::new(
            keys.len(),
            |i: int| running_tree(keys[i], flights@[keys[i]]@),
        )) by {
            assert forall|i: int| 0 <= i < keys.len() implies trees(rows@)[i] == running_tree(
                keys[i],
                flights@[keys[i]]@,
            ) by {
                assert(entries[i].0@ == keys[i]);
                assert(rows@[i]@ == running_tree(entries[i].0@, entries[i].1@));
            }
        }
    }
    rows
}

/// The threads with a run in flight. The run table is the authority on what is executing: a
/// thread's status is the intent to run.
pub fn running_threads(registry: &RunRegistry) -> (result: Reply)
    requires
        registry.wf(),
    ensures
        exists|runs: Seq<RunRecord>, rows: Seq<Tree>|
            selected(registry@, |record: RunRecord| true, runs) && #[trigger] lists(
                rows,
                in_flight(runs),
            ) && result@ == ok_view(Tree::Array(rows)),
{
    let runs: Vec<RunRecord> = registry.all();
    let rows: Vec<Json> = running_rows(&runs);
    assert(lists(trees(rows@), in_flight(runs@)));
    ok(Json::array(rows))
}

/// A thread's tabs.
pub open spec fn tabs_tree(revision: u64, tabs: Seq<Tree>) -> Tree {
    object().field("revision"@, Tree::UInt(revision)).field("tabs"@, Tree::Array(tabs))
}

/// A thread's tabs.
pub fn thread_tabs(revision: u64, tabs: Vec<Json>) -> (result: Reply)
    ensures
        result@ == ok_view(tabs_tree(revision, trees(tabs@))),
{
    ok(Fields::new().with("revision", Json::UInt(revision)).with("tabs", Json::array(tabs)).object())
}

/// Why a write of a thread's tabs was refused: one that named a stale revision is its own
/// conflict, which re-reading the tabs mends.
pub fn tabs_refusal(error: CommandError) -> (result: Reply)
    ensures
        result@ == (match error {
            CommandError::Conflict(message) => coded_error(
                409,
                "thread_tabs_conflict"@,
                message@,
            ),
            CommandError::NotFound(message) => plain_error(404, message@),
            CommandError::Invalid(message) => plain_error(400, message@),
            CommandError::Domain(message) => plain_error(409, message@),
        }),
{
    match error {
        CommandError::Conflict(message) => error_response_with_code(
            409,
            "thread_tabs_conflict",
            message,
        ),
        error => command_error_response(error),
    }
}

/// How many threads were delegated from one.
pub fn thread_child_summary(children: u64) -> (result: Reply)
    ensures
        result@ == ok_view(object().field("nonDeletedChildCount"@, Tree::UInt(children))),
{
    ok(Fields::new().with("nonDeletedChildCount", Json::UInt(children)).object())
}

/// Execution options that a request carried, to be recorded on a thread: what it left out is left
/// alone.
#[derive(Debug, PartialEq, Eq)]
pub struct ExecutionUpdate {
    /// The agent, where the request named one.
    pub provider_id: Option<String>,
    /// The model, where the request named one.
    pub model: Option<String>,
    /// The reasoning level, where the request named one.
    pub reasoning_level: Option<String>,
}

/// What a request's execution options change on its thread: nothing where it carried none.
pub fn apply_execution_options(
    provider_id: Option<String>,
    model: Option<String>,
    reasoning_level: Option<String>,
) -> (result: Option<ExecutionUpdate>)
    ensures
        result == (if provider_id is None && model is None && reasoning_level is None {
            None
        } else {
            Some(ExecutionUpdate { provider_id, model, reasoning_level })
        }),
{
    if provider_id.is_none() && model.is_none() && reasoning_level.is_none() {
        return None;
    }
    Some(ExecutionUpdate { provider_id, model, reasoning_level })
}

/// The body of a liveness answer.
pub open spec fn health_tree(health: HealthResponse) -> Tree {
    object().field("status"@, Tree::Str(health.status@))
        .field("protocol_version"@, Tree::UInt(health.protocol_version as u64))
        .field("node_id"@, Tree::Str(health.node_id@))
        .field("uptime_ms"@, Tree::UInt(health.uptime_ms))
        .field("readers"@, Tree::UInt(health.readers))
        .field("retained_events"@, Tree::UInt(health.retained_events))
        .field_if(
            "backend_error"@,
            match health.backend_error {
                Some(error) => Some(Tree::Str(error@)),
                None => None,
            },
        )
}

/// The answer to a liveness probe: an error where the log cannot be counted. A store that fails
/// is reported in the body rather than by not answering.
pub fn health(
    node_id: String,
    uptime_ms: u64,
    readers: u64,
    retained: Result<u64, String>,
    backend_error: Option<String>,
) -> (result: Reply)
    ensures
        match retained {
            Err(message) => result@ == plain_error(500, message@),
            Ok(count) => exists|health: HealthResponse| #[trigger]
                health_tree(health) == result@.body && result@.status == 200 && health.status@
                    == "ok"@ && health.protocol_version == PROTOCOL_VERSION && health.node_id
                    == node_id && health.uptime_ms == uptime_ms && health.readers == readers
                    && health.retained_events == count && health.backend_error == backend_error,
        },
{
    let retained_events: u64 = match retained {
        Ok(count) => count,
        Err(message) => {
            return crate::reply::error_response(500, message);
        },
    };
    let health = HealthResponse {
        status: "ok".to_owned(),
        protocol_version: PROTOCOL_VERSION,
        node_id,
        uptime_ms,
        readers,
        retained_events,
        backend_error,
    };
    ok(health.to_json())
}

impl HealthResponse {
    /// The body of the answer: a store that is well is not mentioned.
    pub fn to_json(&self) -> (result: Json)
        ensures
            result@ == health_tree(*self),
    {
        let failure: Option<Json> = match &self.backend_error {
            Some(error) => Some(Json::text(error.as_str())),
            None => None,
        };
        Fields::new().with("status", Json::text(self.status.as_str()))
            .with("protocol_version", Json::UInt(self.protocol_version as u64))
            .with("node_id", Json::text(self.node_id.as_str()))
            .with("uptime_ms", Json::UInt(self.uptime_ms))
            .with("readers", Json::UInt(self.readers))
            .with("retained_events", Json::UInt(self.retained_events))
            .maybe("backend_error", failure)
            .object()
    }
}

impl VersionResponse {
    /// The body of the answer.
    pub fn to_json(&self) -> (result: Json)
        ensures
            result@ == object().field("version"@, Tree::Str(self.version@)).field(
                "protocol_version"@,
                Tree::UInt(self.protocol_version as u64),
            ),
    {
        Fields::new().with("version", Json::text(self.version.as_str())).with(
            "protocol_version",
            Json::UInt(self.protocol_version as u64),
        ).object()
    }
}

// What an overview promises.

/// An outline has an item for every message that the user or the assistant wrote, in the log's
/// order.
pub proof fn outlines_show_what_was_said(
    entries: Seq<ThreadEntry>,
)
    ensures
        outline_rows(entries) == entries.filter(|entry: ThreadEntry| entry.event is ThreadMessageAdded && entry.event->ThreadMessageAdded_message.role != MessageRole::System).map_values(|entry: ThreadEntry| outline_tree(entry.event->ThreadMessageAdded_message)),
    decreases entries.len(),
{
    let kept = |entry: ThreadEntry| entry.event is ThreadMessageAdded && entry.event->ThreadMessageAdded_message.role != MessageRole::System;
    let row = |entry: ThreadEntry| outline_tree(entry.event->ThreadMessageAdded_message);
    reveal(Seq::filter);
    if entries.len() == 0 {
        assert(entries.filter(kept).map_values(row) =~= Seq::<Tree>::empty());
    } else {
        let rest = entries.drop_last();
        outlines_show_what_was_said(rest);
        if kept(entries.last()) {
            assert(rest.filter(kept).push(entries.last()).map_values(row) =~= rest.filter(kept).map_values(row).push(row(entries.last())));
        }
    }
}

/// An item of an outline shows who said it and a preview of what was said.
pub proof fn outline_items_show_their_message(message: Message)
    ensures
        member(outline_tree(message), "id"@) == Some(Tree::Str(message.id@)),
        member(outline_tree(message), "preview"@) == Some(Tree::Str(preview(message.content@, 120))),
        member(outline_tree(message), "attachmentSummary"@) == Some(Tree::Null),
        message.role == MessageRole::User ==> member(outline_tree(message), "role"@) == Some(Tree::Str("user"@)),
        message.role == MessageRole::Assistant ==> member(outline_tree(message), "role"@) == Some(Tree::Str("assistant"@)),
{
    broadcast use {crate::json::member_of_field, crate::reply::errors_say_what_is_wrong};

    reveal_strlit("id");
    reveal_strlit("role");
    reveal_strlit("preview");
    reveal_strlit("attachmentSummary");
    assert("id"@.len() == 2);
    assert("role"@.len() == 4);
    assert("preview"@.len() == 7);
    assert("attachmentSummary"@.len() == 17);
}

/// An outline is answered with its items and the place of the log's last entry.
pub proof fn outlines_say_how_far_they_reach(entries: Vec<ThreadEntry>, answer: Reply)
    requires
        call_ensures(thread_conversation_outline, (&entries,), answer),
    ensures
        answer@.status == 200,
        member(answer@.body, "items"@) == Some(Tree::Array(outline_rows(entries@))),
        entries@.len() == 0 ==> member(answer@.body, "maxSeq"@) == Some(Tree::UInt(0)),
        entries@.len() > 0 ==> member(answer@.body, "maxSeq"@) == Some(Tree::UInt(entries@[entries@.len() - 1].sequence)),
{
    broadcast use {crate::json::member_of_field, crate::reply::errors_say_what_is_wrong};

    reveal_strlit("items");
    reveal_strlit("maxSeq");
    assert("items"@.len() == 5);
    assert("maxSeq"@.len() == 6);
}

/// The prompts of a log are what the user said, the last of it first.
pub proof fn prompts_are_the_users_newest_first(entries: Seq<ThreadEntry>)
    ensures
        prompts(entries) == entries.filter(
            |entry: ThreadEntry|
                entry.event is ThreadMessageAdded && entry.event->ThreadMessageAdded_message.role
                    == MessageRole::User,
        ).map_values(
            |entry: ThreadEntry| prompt_tree(entry.event->ThreadMessageAdded_message),
        ).reverse(),
    decreases entries.len(),
{
    let kept = |entry: ThreadEntry|
        entry.event is ThreadMessageAdded && entry.event->ThreadMessageAdded_message.role
            == MessageRole::User;
    let row = |entry: ThreadEntry| prompt_tree(entry.event->ThreadMessageAdded_message);
    reveal(Seq::filter);
    if entries.len() == 0 {
        assert(entries.filter(kept).map_values(row).reverse() =~= Seq::<Tree>::empty());
    } else {
        let rest = entries.drop_last();
        let last = entries.last();
        prompts_are_the_users_newest_first(rest);
        if kept(last) {
            let before = rest.filter(kept).map_values(row);
            assert(rest.filter(kept).push(last).map_values(row) =~= before.push(row(last)));
            assert(before.push(row(last)).reverse() =~= seq![row(last)] + before.reverse());
        }
    }
}

/// A prompt shows what was said as one block of text, and when.
pub proof fn prompts_show_what_was_said(message: Message)
    ensures
        member(prompt_tree(message), "id"@) == Some(Tree::Str(message.id@)),
        member(prompt_tree(message), "createdAt"@) == Some(Tree::UInt(message.created_at_ms)),
        member(prompt_tree(message), "input"@) matches Some(Tree::Array(blocks)) && blocks.len() == 1 && member(blocks[0], "type"@) == Some(Tree::Str("text"@)) && member(blocks[0], "text"@) == Some(Tree::Str(message.content@)) && member(blocks[0], "mentions"@) == Some(Tree::Array(Seq::empty())),
{
    broadcast use {crate::json::member_of_field, crate::reply::errors_say_what_is_wrong};

    reveal_strlit("id");
    reveal_strlit("text");
    reveal_strlit("type");
    reveal_strlit("input");
    reveal_strlit("mentions");
    reveal_strlit("createdAt");
    assert("id"@.len() == 2);
    assert("text"@.len() == 4 && "text"@[1] == 'e');
    assert("type"@.len() == 4 && "type"@[1] == 'y');
    assert("input"@.len() == 5);
    assert("mentions"@.len() == 8);
    assert("createdAt"@.len() == 9);
}

/// A history has as many prompts as are asked for, fifty where nothing is, never fewer than one nor
/// more than two hundred.
pub proof fn histories_are_cut_to_their_limit(
    limit: Option<String>,
    entries: Vec<ThreadEntry>,
    answer: Reply,
    number: Result<Option<u64>, Reply>,
)
    requires
        call_ensures(thread_prompt_history, (&limit, &entries), answer),
        call_ensures(parse_query_sequence, (&limit, "limit"), number),
    ensures
        number is Err ==> answer@ == number->Err_0@,
        number matches Ok(asked) ==> {
            let most = if asked is None { 50 } else if asked->0 < 1 { 1 } else if asked->0 > 200 { 200 } else { asked->0 };
            let all = prompts(entries@);
            &&& answer@.status == 200
            &&& answer@.body is Array
            &&& all.len() <= most ==> answer@.body->Array_0 == all
            &&& all.len() > most ==> answer@.body->Array_0 == all.take(most as int)
        },
{
    broadcast use {crate::json::member_of_field, crate::reply::errors_say_what_is_wrong};

}

/// The machine that a thread runs on is that of the first run of it.
pub proof fn threads_run_where_their_first_run_is(runs: Seq<RunRecord>, thread: Seq<char>)
    ensures
        in_flight(runs).dom().contains(thread) <==> exists|i: int|
            0 <= i < runs.len() && (#[trigger] runs[i]).thread_id@ == thread,
        in_flight(runs).dom().contains(thread) ==> exists|i: int| #[trigger]
            is_first_of(runs, thread, i) && in_flight(runs)[thread] == runs[i].host_id,
    decreases runs.len(),
{
    if runs.len() > 0 {
        let rest = runs.drop_last();
        let n = runs.len() - 1;
        threads_run_where_their_first_run_is(rest, thread);
        assert(runs[n] == runs.last());
        if in_flight(rest).dom().contains(thread) {
            let i = choose|i: int| #[trigger]
                is_first_of(rest, thread, i) && in_flight(rest)[thread] == rest[i].host_id;
            assert(runs[i] == rest[i]);
            assert forall|j: int| 0 <= j < i implies (#[trigger] runs[j]).thread_id@ != thread by {
                assert(rest[j] == runs[j]);
            }
            assert(is_first_of(runs, thread, i));
        } else if runs[n].thread_id@ == thread {
            assert forall|j: int| 0 <= j < n implies (#[trigger] runs[j]).thread_id@ != thread by {
                assert(rest[j] == runs[j]);
            }
            assert(is_first_of(runs, thread, n));
        } else {
            assert forall|j: int| 0 <= j < runs.len() implies (#[trigger] runs[j]).thread_id@
                != thread by {
                if j < n {
                    assert(rest[j] == runs[j]);
                }
            }
        }
    }
}

/// Whether a run is the first of its thread.
pub open spec fn is_first_of(runs: Seq<RunRecord>, thread: Seq<char>, i: int) -> bool {
    &&& 0 <= i < runs.len()
    &&& runs[i].thread_id@ == thread
    &&& forall|j: int| 0 <= j < i ==> (#[trigger] runs[j]).thread_id@ != thread
}

/// A thread that runs is shown by its id and its machine's.
pub proof fn running_threads_show_their_machine(thread: Seq<char>, host: Seq<char>)
    ensures
        member(running_tree(thread, host), "id"@) == Some(Tree::Str(thread)),
        member(running_tree(thread, host), "hostId"@) == Some(Tree::Str(host)),
{
    broadcast use {crate::json::member_of_field, crate::reply::errors_say_what_is_wrong};

    reveal_strlit("id");
    reveal_strlit("hostId");
    assert("id"@.len() == 2);
    assert("hostId"@.len() == 6);
}

/// Tabs are answered in their order, with their revision.
pub proof fn tabs_are_answered_with_their_revision(
    revision: u64,
    tabs: Vec<Json>,
    answer: Reply,
)
    requires
        call_ensures(thread_tabs, (revision, tabs), answer),
    ensures
        answer@.status == 200,
        member(answer@.body, "revision"@) == Some(Tree::UInt(revision)),
        member(answer@.body, "tabs"@) == Some(Tree::Array(trees(tabs@))),
{
    broadcast use {crate::json::member_of_field, crate::reply::errors_say_what_is_wrong};

    reveal_strlit("tabs");
    reveal_strlit("revision");
    assert("tabs"@.len() == 4);
    assert("revision"@.len() == 8);
}

/// A change of tabs that lost the race has a code of its own; any other refusal has that of its
/// status.
pub proof fn tabs_conflict_by_their_own_code(error: CommandError, answer: Reply)
    requires
        call_ensures(tabs_refusal, (error,), answer),
    ensures
        error matches CommandError::Conflict(message) ==> refuses(answer@, 409, "thread_tabs_conflict"@, message@),
        error matches CommandError::NotFound(message) ==> refuses(answer@, 404, "not_found"@, message@),
        error matches CommandError::Invalid(message) ==> refuses(answer@, 400, "invalid_request"@, message@),
        error matches CommandError::Domain(message) ==> refuses(answer@, 409, "conflict"@, message@),
{
    broadcast use {crate::json::member_of_field, crate::reply::errors_say_what_is_wrong};

}

/// How many children a thread has is answered as a count.
pub proof fn children_are_counted(children: u64, answer: Reply)
    requires
        call_ensures(thread_child_summary, (children,), answer),
    ensures
        answer@.status == 200,
        member(answer@.body, "nonDeletedChildCount"@) == Some(Tree::UInt(children)),
{
    broadcast use {crate::json::member_of_field, crate::reply::errors_say_what_is_wrong};

    reveal_strlit("nonDeletedChildCount");
    assert("nonDeletedChildCount"@.len() == 20);
}

/// What was picked is applied as it was picked, and where nothing was there is nothing to apply.
pub proof fn options_are_applied_where_there_are_any(
    provider: Option<String>,
    model: Option<String>,
    level: Option<String>,
    answer: Option<ExecutionUpdate>,
)
    requires
        call_ensures(apply_execution_options, (provider, model, level), answer),
    ensures
        answer is None <==> provider is None && model is None && level is None,
        answer matches Some(update) ==> update.provider_id == provider && update.model == model && update.reasoning_level == level,
{
}

/// A healthy node shows itself and what it holds; one that cannot count what it retains is in
/// error.
pub proof fn health_shows_the_node(
    node_id: String,
    uptime_ms: u64,
    readers: u64,
    retained: Result<u64, String>,
    backend_error: Option<String>,
    answer: Reply,
)
    requires
        call_ensures(health, (node_id, uptime_ms, readers, retained, backend_error), answer),
    ensures
        retained matches Err(message) ==> refuses(answer@, 500, "internal_error"@, message@),
        retained matches Ok(count) ==> {
            &&& answer@.status == 200
            &&& member(answer@.body, "status"@) == Some(Tree::Str("ok"@))
            &&& member(answer@.body, "protocol_version"@) == Some(Tree::UInt(PROTOCOL_VERSION as u64))
            &&& member(answer@.body, "node_id"@) == Some(Tree::Str(node_id@))
            &&& member(answer@.body, "uptime_ms"@) == Some(Tree::UInt(uptime_ms))
            &&& member(answer@.body, "readers"@) == Some(Tree::UInt(readers))
            &&& member(answer@.body, "retained_events"@) == Some(Tree::UInt(count))
            &&& backend_error is None ==> member(answer@.body, "backend_error"@) is None
            &&& backend_error matches Some(problem) ==> member(answer@.body, "backend_error"@) == Some(Tree::Str(problem@))
        },
{
    broadcast use {crate::json::member_of_field, crate::reply::errors_say_what_is_wrong};

    reveal_strlit("status");
    reveal_strlit("node_id");
    reveal_strlit("readers");
    reveal_strlit("uptime_ms");
    reveal_strlit("backend_error");
    reveal_strlit("retained_events");
    reveal_strlit("protocol_version");
    assert("status"@.len() == 6);
    assert("node_id"@.len() == 7 && "node_id"@[0] == 'n');
    assert("readers"@.len() == 7 && "readers"@[0] == 'r');
    assert("uptime_ms"@.len() == 9);
    assert("backend_error"@.len() == 13);
    assert("retained_events"@.len() == 15);
    assert("protocol_version"@.len() == 16);
}

/// A node's health and version are shown member by member.
pub proof fn health_and_version_are_shown(
    health: HealthResponse,
    value: Json,
    version: VersionResponse,
    shown: Json,
)
    requires
        call_ensures(HealthResponse::to_json, (&health,), value),
        call_ensures(VersionResponse::to_json, (&version,), shown),
    ensures
        member(value@, "status"@) == Some(Tree::Str(health.status@)),
        member(value@, "protocol_version"@) == Some(Tree::UInt(health.protocol_version as u64)),
        member(value@, "node_id"@) == Some(Tree::Str(health.node_id@)),
        member(value@, "uptime_ms"@) == Some(Tree::UInt(health.uptime_ms)),
        member(value@, "readers"@) == Some(Tree::UInt(health.readers)),
        member(value@, "retained_events"@) == Some(Tree::UInt(health.retained_events)),
        member(shown@, "version"@) == Some(Tree::Str(version.version@)),
        member(shown@, "protocol_version"@) == Some(Tree::UInt(version.protocol_version as u64)),
{
    broadcast use {crate::json::member_of_field, crate::reply::errors_say_what_is_wrong};

    reveal_strlit("status");
    reveal_strlit("node_id");
    reveal_strlit("readers");
    reveal_strlit("version");
    reveal_strlit("uptime_ms");
    reveal_strlit("backend_error");
    reveal_strlit("retained_events");
    reveal_strlit("protocol_version");
    assert("status"@.len() == 6);
    assert("node_id"@.len() == 7 && "node_id"@[0] == 'n');
    assert("readers"@.len() == 7 && "readers"@[0] == 'r');
    assert("version"@.len() == 7 && "version"@[0] == 'v');
    assert("uptime_ms"@.len() == 9);
    assert("backend_error"@.len() == 13);
    assert("retained_events"@.len() == 15);
    assert("protocol_version"@.len() == 16);
}

} // verus!
