//! The timeline of a thread: rows of every projection in one order, a page at a time.

use vstd::prelude::*;

use crate::domain::{DomainEvent, Message, MessageRole, ProviderEvent, ThreadEventItem};
use crate::json::{member, member_of_field, object, trees, Fields, Json, Tree};
use crate::reasoning_timeline::{
    reasoning_row, reasoning_tree, ItemKey, ReasoningTimeline, Thought,
};
use crate::reply::{ok, ok_view, parse_query_sequence, parsed, query_number, Reply, ReplyView};
use crate::text::{joined3, opt_view, same_text};
use crate::timeline::{
    assistant_tree, class_rows, current_goal, empty_array, entry_frame, find_message, find_tool,
    folded_rows, folded_thinking, frame_item, goal_value, in_start_order, inserted_row,
    last_fallback, member_or_null, member_or_null_json, member_uint,
    message_rows_say_what_was_said, own_row, own_rows, row_start, seen_before, set_all,
    sorted_rows, stands_at, timeline_row_for_event, tool_id, unsorted_rows, AssistantMessage,
    Folds, Frame, FrameClass, ThreadEntry, ToolActivity,
};

verus! {

/// The thinking of a thread, folded from its log.
fn fold_thinking(entries: &Vec<ThreadEntry>) -> (result: ReasoningTimeline)
    ensures
        result.wf(),
        result@ == folded_thinking(entries@),
{
    let mut timeline = ReasoningTimeline::new();
    assert(entries@.take(0) =~= Seq::<ThreadEntry>::empty());
    for i in 0..entries.len()
        invariant
            timeline.wf(),
            timeline@ == folded_thinking(entries@.take(i as int)),
    {
        assert(entries@.take(i + 1).drop_last() =~= entries@.take(i as int));
        assert(entries@.take(i + 1).last() == entries@[i as int]);
        let entry: &ThreadEntry = &entries[i];
        if let DomainEvent::ThreadRunEvent { run } = &entry.event {
            let _ = timeline.absorb(
                run.run_id.as_str(),
                &run.body,
                entry.sequence,
                entry.created_at_ms,
            );
        }
    }
    assert(entries@.take(entries@.len() as int) =~= entries@);
    timeline
}

/// The id of a tool item.
fn tool_item_id(item: &ThreadEventItem) -> (result: Option<&String>)
    ensures
        match result {
            Some(id) => tool_id(*item) == Some(id@),
            None => tool_id(*item) is None,
        },
{
    match item {
        ThreadEventItem::ToolCall { id } => Some(id),
        ThreadEventItem::CommandExecution { id } => Some(id),
        ThreadEventItem::FileChange { id } => Some(id),
        ThreadEventItem::FileRead { id } => Some(id),
        ThreadEventItem::Search { id } => Some(id),
        ThreadEventItem::WebFetch { id } => Some(id),
        _ => None,
    }
}

/// The projection and the item that an event belongs to, where it belongs to one.
fn frame_item_id(body: &ProviderEvent) -> (result: Option<(FrameClass, &String)>)
    ensures
        match result {
            Some((class, id)) => frame_item(*body) == Some((class, id@)),
            None => frame_item(*body) is None,
        },
{
    match body {
        ProviderEvent::ItemReasoningTextDelta { item_id, .. } => Some(
            (FrameClass::Reasoning, item_id),
        ),
        ProviderEvent::ItemReasoningSummaryTextDelta { item_id, .. } => Some(
            (FrameClass::Reasoning, item_id),
        ),
        ProviderEvent::ItemStarted { item } => match tool_item_id(item) {
            Some(id) => Some((FrameClass::Tool, id)),
            None => None,
        },
        ProviderEvent::ItemToolCallProgress { item_id } => Some((FrameClass::Tool, item_id)),
        ProviderEvent::ItemCompleted { item } => match tool_item_id(item) {
            Some(id) => Some((FrameClass::Tool, id)),
            None => match item {
                ThreadEventItem::Reasoning { id, .. } => Some((FrameClass::Reasoning, id)),
                ThreadEventItem::AgentMessage { id } => Some((FrameClass::Assistant, id)),
                _ => None,
            },
        },
        ProviderEvent::ItemAgentMessageDelta { item_id, .. } => Some(
            (FrameClass::Assistant, item_id),
        ),
        _ => None,
    }
}

/// A frame that was met.
struct SeenFrame {
    class: FrameClass,
    run_id: String,
    item_id: String,
}

/// The frame that was met.
spec fn seen_frame(seen: SeenFrame) -> Frame {
    Frame { class: seen.class, run: seen.run_id@, item: seen.item_id@ }
}

/// Whether the frames met are those of the first entries.
spec fn seen_exactly(entries: Seq<ThreadEntry>, n: int, seen: Seq<SeenFrame>) -> bool {
    &&& forall|k: int|
        0 <= k < seen.len() ==> seen_before(entries, n, seen_frame(#[trigger] seen[k]))
    &&& forall|j: int|
        0 <= j < n && entry_frame(#[trigger] entries[j]) is Some ==> exists|k: int|
            0 <= k < seen.len() && seen_frame(#[trigger] seen[k]) == entry_frame(entries[j])->0
}

/// Whether a frame was met.
fn was_seen(seen: &Vec<SeenFrame>, class: FrameClass, run_id: &str, item_id: &str) -> (result: bool)
    ensures
        result == (exists|k: int|
            0 <= k < seen@.len() && seen_frame(#[trigger] seen@[k]) == (Frame {
                class,
                run: run_id@,
                item: item_id@,
            })),
{
    for i in 0..seen.len()
        invariant
            forall|k: int|
                0 <= k < i ==> seen_frame(#[trigger] seen@[k]) != (Frame {
                    class,
                    run: run_id@,
                    item: item_id@,
                }),
    {
        if seen[i].class == class && same_text(seen[i].run_id.as_str(), run_id) && same_text(
            seen[i].item_id.as_str(),
            item_id,
        ) {
            assert(seen_frame(seen@[i as int]) == (Frame { class, run: run_id@, item: item_id@ }));
            return true;
        }
    }
    false
}

/// The first answer of a run and an item.
fn message_of<'a>(messages: &'a Vec<AssistantMessage>, run_id: &str, item_id: &str) -> (result:
    Option<&'a AssistantMessage>)
    ensures
        match result {
            Some(message) => find_message(messages@, run_id@, item_id@) == Some(*message),
            None => find_message(messages@, run_id@, item_id@) is None,
        },
{
    assert(messages@.skip(0) =~= messages@);
    for i in 0..messages.len()
        invariant
            find_message(messages@, run_id@, item_id@) == find_message(
                messages@.skip(i as int),
                run_id@,
                item_id@,
            ),
    {
        assert(messages@.skip(i as int)[0] == messages@[i as int]);
        assert(messages@.skip(i as int).drop_first() =~= messages@.skip(i + 1));
        if same_text(messages[i].run_id.as_str(), run_id) && same_text(
            messages[i].item_id.as_str(),
            item_id,
        ) {
            return Some(&messages[i]);
        }
    }
    assert(messages@.skip(messages@.len() as int).len() == 0);
    None
}

/// The first tool call of a run and an item.
fn tool_of<'a>(tools: &'a Vec<ToolActivity>, run_id: &str, item_id: &str) -> (result: Option<
    &'a ToolActivity,
>)
    ensures
        match result {
            Some(tool) => find_tool(tools@, run_id@, item_id@) == Some(*tool),
            None => find_tool(tools@, run_id@, item_id@) is None,
        },
{
    assert(tools@.skip(0) =~= tools@);
    for i in 0..tools.len()
        invariant
            find_tool(tools@, run_id@, item_id@) == find_tool(
                tools@.skip(i as int),
                run_id@,
                item_id@,
            ),
    {
        assert(tools@.skip(i as int)[0] == tools@[i as int]);
        assert(tools@.skip(i as int).drop_first() =~= tools@.skip(i + 1));
        if same_text(tools[i].run_id.as_str(), run_id) && same_text(
            tools[i].item_id.as_str(),
            item_id,
        ) {
            return Some(&tools[i]);
        }
    }
    assert(tools@.skip(tools@.len() as int).len() == 0);
    None
}

/// The row of an answer.
fn assistant_timeline_row(thread_id: &str, created_at_ms: u64, message: &AssistantMessage) -> (
result: Json)
    ensures
        result@ == assistant_tree(thread_id@, created_at_ms, *message),
{
    let mut id: String = joined3(thread_id, ":", message.run_id.as_str());
    id.append(":");
    id.append(message.item_id.as_str());
    let end: u64 = if message.end_sequence > message.start_sequence {
        message.end_sequence
    } else {
        message.start_sequence
    };
    let base: Fields = Fields::new().with("id", Json::Str(id))
        .with("threadId", Json::text(thread_id))
        .with("turnId", Json::text(message.run_id.as_str()))
        .with("sourceSeqStart", Json::UInt(message.start_sequence))
        .with("sourceSeqEnd", Json::UInt(message.start_sequence))
        .with("startedAt", Json::UInt(created_at_ms))
        .with("createdAt", Json::UInt(created_at_ms));
    let mut row: Fields = base.set("sourceSeqEnd", Json::UInt(end));
    let ghost start = row@;
    let ghost extra = crate::json::members(message.fields@);
    assert(extra.take(0) =~= Seq::<(Seq<char>, Tree)>::empty());
    for i in 0..message.fields.len()
        invariant
            extra == crate::json::members(message.fields@),
            row@ == set_all(start, extra.take(i as int)),
    {
        let field: &(String, Json) = &message.fields[i];
        assert(extra.take(i + 1).drop_last() =~= extra.take(i as int));
        row = row.set(field.0.as_str(), field.1.copy());
    }
    assert(extra.take(extra.len() as int) =~= extra);
    row.object()
}

/// The rows that the first frame of an item stands for.
fn rows_of_frame(
    thread_id: &str,
    thinking: &ReasoningTimeline,
    messages: &Vec<AssistantMessage>,
    tools: &Vec<ToolActivity>,
    class: FrameClass,
    run_id: &str,
    item_id: &str,
    created_at_ms: u64,
) -> (result: Vec<Json>)
    requires
        thinking.wf(),
    ensures
        trees(result@) == folded_rows(
            thread_id@,
            Folds { thinking: thinking@, messages: messages@, tools: tools@ },
            Frame { class, run: run_id@, item: item_id@ },
            created_at_ms,
        ),
{
    let mut rows: Vec<Json> = Vec::new();
    let ghost wanted = folded_rows(
        thread_id@,
        Folds { thinking: thinking@, messages: messages@, tools: tools@ },
        Frame { class, run: run_id@, item: item_id@ },
        created_at_ms,
    );
    match class {
        FrameClass::Reasoning => {
            if let Some(item) = thinking.get(run_id, item_id) {
                rows.push(reasoning_row(thread_id, item));
            }
            assert(trees(rows@) =~= wanted);
        },
        FrameClass::Assistant => {
            if let Some(message) = message_of(messages, run_id, item_id) {
                rows.push(assistant_timeline_row(thread_id, created_at_ms, message));
            }
            assert(trees(rows@) =~= wanted);
        },
        FrameClass::Tool => {
            if let Some(tool) = tool_of(tools, run_id, item_id) {
                for i in 0..tool.rows.len()
                    invariant
                        rows@.len() == i,
                        forall|j: int| 0 <= j < i ==> (#[trigger] rows@[j])@ == tool.rows@[j]@,
                {
                    rows.push(tool.rows[i].copy());
                }
            }
            assert(trees(rows@) =~= wanted);
        },
    }
    rows
}

/// Puts rows behind others.
fn extend_rows(rows: &mut Vec<Json>, more: Vec<Json>)
    ensures
        trees(final(rows)@) == trees(old(rows)@) + trees(more@),
{
    let ghost added = more@;
    let mut tail: Vec<Json> = more;
    rows.append(&mut tail);
    assert(trees(rows@) =~= trees(old(rows)@) + trees(added));
}

/// Every row of a timeline, projection by projection.
fn gather_rows(
    thread_id: &str,
    entries: &Vec<ThreadEntry>,
    thinking: &ReasoningTimeline,
    messages: &Vec<AssistantMessage>,
    tools: &Vec<ToolActivity>,
) -> (result: Vec<Json>)
    requires
        thinking.wf(),
    ensures
        trees(result@) == unsorted_rows(
            thread_id@,
            entries@,
            Folds { thinking: thinking@, messages: messages@, tools: tools@ },
        ),
{
    let ghost folds = Folds { thinking: thinking@, messages: messages@, tools: tools@ };
    let mut own: Vec<Json> = Vec::new();
    let mut assistant: Vec<Json> = Vec::new();
    let mut reasoning: Vec<Json> = Vec::new();
    let mut tool: Vec<Json> = Vec::new();
    let mut seen: Vec<SeenFrame> = Vec::new();
    let ghost none = entries@.take(0);
    assert(none =~= Seq::<ThreadEntry>::empty());
    assert(trees(own@) =~= own_rows(thread_id@, none));
    assert(trees(assistant@) =~= class_rows(thread_id@, none, folds, FrameClass::Assistant));
    assert(trees(reasoning@) =~= class_rows(thread_id@, none, folds, FrameClass::Reasoning));
    assert(trees(tool@) =~= class_rows(thread_id@, none, folds, FrameClass::Tool));
    for i in 0..entries.len()
        invariant
            thinking.wf(),
            folds == (Folds { thinking: thinking@, messages: messages@, tools: tools@ }),
            seen_exactly(entries@, i as int, seen@),
            trees(own@) == own_rows(thread_id@, entries@.take(i as int)),
            trees(assistant@) == class_rows(
                thread_id@,
                entries@.take(i as int),
                folds,
                FrameClass::Assistant,
            ),
            trees(reasoning@) == class_rows(
                thread_id@,
                entries@.take(i as int),
                folds,
                FrameClass::Reasoning,
            ),
            trees(tool@) == class_rows(
                thread_id@,
                entries@.take(i as int),
                folds,
                FrameClass::Tool,
            ),
    {
        let entry: &ThreadEntry = &entries[i];
        let ghost upto = entries@.take(i + 1);
        let ghost seen_then = seen@;
        assert(upto.drop_last() =~= entries@.take(i as int));
        assert(upto.last() == *entry);
        let frame: Option<(FrameClass, &String, &String)> = match &entry.event {
            DomainEvent::ThreadRunEvent { run } => match frame_item_id(&run.body) {
                Some((class, item_id)) => Some((class, &run.run_id, item_id)),
                None => None,
            },
            _ => None,
        };
        match frame {
            Some((class, run_id, item_id)) => {
                let ghost met = Frame { class, run: run_id@, item: item_id@ };
                assert(entry_frame(*entry) == Some(met));
                let known: bool = was_seen(&seen, class, run_id.as_str(), item_id.as_str());
                proof {
                    seen_is_seen(entries@, i as int, seen@, met);
                    assert(seen_before(upto, upto.len() - 1, met) == seen_before(
                        entries@,
                        i as int,
                        met,
                    )) by {
                        if seen_before(entries@, i as int, met) {
                            let j = choose|j: int|
                                0 <= j < i && entry_frame(#[trigger] entries@[j]) == Some(met);
                            assert(upto[j] == entries@[j]);
                        }
                        if seen_before(upto, upto.len() - 1, met) {
                            let j = choose|j: int|
                                0 <= j < upto.len() - 1 && entry_frame(#[trigger] upto[j]) == Some(
                                    met,
                                );
                            assert(upto[j] == entries@[j]);
                        }
                    }
                }
                if !known {
                    let rows: Vec<Json> = rows_of_frame(
                        thread_id,
                        thinking,
                        messages,
                        tools,
                        class,
                        run_id.as_str(),
                        item_id.as_str(),
                        entry.created_at_ms,
                    );
                    match class {
                        FrameClass::Assistant => extend_rows(&mut assistant, rows),
                        FrameClass::Reasoning => extend_rows(&mut reasoning, rows),
                        FrameClass::Tool => extend_rows(&mut tool, rows),
                    }
                    seen.push(
                        SeenFrame { class, run_id: run_id.clone(), item_id: item_id.clone() },
                    );
                }
                proof {
                    if !known {
                        assert(seen@.drop_last() =~= seen_then);
                    }
                    seen_one_more(entries@, i as int, seen_then, seen@, met);
                }
            },
            None => {
                assert(entry_frame(*entry) is None);
                proof {
                    seen_none_more(entries@, i as int, seen@);
                }
                let ghost before = trees(own@);
                if let Some(row) = timeline_row_for_event(thread_id, entry.sequence, &entry.event) {
                    own.push(row);
                    assert(trees(own@) =~= before.push(row@));
                }
            },
        }
    }
    assert(entries@.take(entries@.len() as int) =~= entries@);
    extend_rows(&mut own, assistant);
    extend_rows(&mut own, reasoning);
    extend_rows(&mut own, tool);
    own
}

/// A frame is among those met exactly where it occurred.
proof fn seen_is_seen(entries: Seq<ThreadEntry>, n: int, seen: Seq<SeenFrame>, frame: Frame)
    requires
        seen_exactly(entries, n, seen),
    ensures
        (exists|k: int| 0 <= k < seen.len() && seen_frame(#[trigger] seen[k]) == frame)
            == seen_before(entries, n, frame),
{
    if exists|k: int| 0 <= k < seen.len() && seen_frame(#[trigger] seen[k]) == frame {
        let k = choose|k: int| 0 <= k < seen.len() && seen_frame(#[trigger] seen[k]) == frame;
        assert(seen_before(entries, n, seen_frame(seen[k])));
    }
    if seen_before(entries, n, frame) {
        let j = choose|j: int| 0 <= j < n && entry_frame(#[trigger] entries[j]) == Some(frame);
        let k = choose|k: int|
            0 <= k < seen.len() && seen_frame(#[trigger] seen[k]) == entry_frame(entries[j])->0;
        assert(seen_frame(seen[k]) == frame);
    }
}

/// One entry more that is a frame.
proof fn seen_one_more(
    entries: Seq<ThreadEntry>,
    n: int,
    before: Seq<SeenFrame>,
    after: Seq<SeenFrame>,
    frame: Frame,
)
    requires
        0 <= n < entries.len(),
        seen_exactly(entries, n, before),
        entry_frame(entries[n]) == Some(frame),
        seen_before(entries, n, frame) ==> after == before,
        !seen_before(entries, n, frame) ==> after.len() == before.len() + 1 && after.drop_last()
            == before && seen_frame(after.last()) == frame,
    ensures
        seen_exactly(entries, n + 1, after),
{
    seen_is_seen(entries, n, before, frame);
    assert forall|k: int| 0 <= k < after.len() implies seen_before(
        entries,
        n + 1,
        seen_frame(#[trigger] after[k]),
    ) by {
        if k < before.len() {
            assert(after[k] == before[k]);
            let j = choose|j: int|
                0 <= j < n && entry_frame(#[trigger] entries[j]) == Some(seen_frame(before[k]));
            assert(entry_frame(entries[j]) == Some(seen_frame(after[k])));
        } else {
            assert(entry_frame(entries[n]) == Some(seen_frame(after[k])));
        }
    }
    assert forall|j: int| 0 <= j < n + 1 && entry_frame(#[trigger] entries[j]) is Some implies exists|
        k: int,
    | 0 <= k < after.len() && seen_frame(#[trigger] after[k]) == entry_frame(entries[j])->0 by {
        if j < n {
            let k = choose|k: int|
                0 <= k < before.len() && seen_frame(#[trigger] before[k]) == entry_frame(
                    entries[j],
                )->0;
            assert(after[k] == before[k]);
        } else if seen_before(entries, n, frame) {
            let k = choose|k: int|
                0 <= k < before.len() && seen_frame(#[trigger] before[k]) == frame;
            assert(after[k] == before[k]);
        } else {
            assert(seen_frame(after[after.len() - 1]) == frame);
        }
    }
}

/// One entry more that is no frame.
proof fn seen_none_more(entries: Seq<ThreadEntry>, n: int, seen: Seq<SeenFrame>)
    requires
        0 <= n < entries.len(),
        seen_exactly(entries, n, seen),
        entry_frame(entries[n]) is None,
    ensures
        seen_exactly(entries, n + 1, seen),
{
    assert forall|k: int| 0 <= k < seen.len() implies seen_before(
        entries,
        n + 1,
        seen_frame(#[trigger] seen[k]),
    ) by {
        let j = choose|j: int|
            0 <= j < n && entry_frame(#[trigger] entries[j]) == Some(seen_frame(seen[k]));
        assert(entry_frame(entries[j]) == Some(seen_frame(seen[k])));
    }
}

/// A whole number under a name, or zero.
fn uint_member(row: &Json, key: &str) -> (result: u64)
    ensures
        result == member_uint(row@, key@),
{
    match row.get(key) {
        Some(value) => match value.as_uint() {
            Some(n) => n,
            None => 0,
        },
        None => 0,
    }
}

/// A row is put in right behind the last that does not begin after it.
proof fn inserted_at(sorted: Seq<Tree>, row: Tree, at: int)
    requires
        0 <= at <= sorted.len(),
        forall|j: int| at <= j < sorted.len() ==> row_start(#[trigger] sorted[j]) > row_start(row),
        at > 0 ==> row_start(sorted[at - 1]) <= row_start(row),
    ensures
        inserted_row(sorted, row) == sorted.insert(at, row),
    decreases sorted.len(),
{
    if at == sorted.len() {
        assert(sorted.insert(at, row) =~= sorted.push(row));
    } else {
        let rest = sorted.drop_last();
        assert(row_start(sorted[sorted.len() - 1]) > row_start(row));
        assert forall|j: int| at <= j < rest.len() implies row_start(#[trigger] rest[j])
            > row_start(row) by {
            assert(rest[j] == sorted[j]);
        }
        inserted_at(rest, row, at);
        assert(sorted.insert(at, row) =~= rest.insert(at, row).push(sorted.last()));
    }
}

/// The rows in the order in which they begin.
fn sort_rows(rows: Vec<Json>) -> (result: Vec<Json>)
    ensures
        trees(result@) == sorted_rows(trees(rows@)),
{
    let ghost all = rows@;
    let mut rest: Vec<Json> = rows;
    let mut back: Vec<Json> = Vec::new();
    while rest.len() > 0
        invariant
            rest@.len() <= all.len(),
            rest@ =~= all.take(rest@.len() as int),
            back@ =~= all.skip(rest@.len() as int).reverse(),
        decreases rest.len(),
    {
        if let Some(last) = rest.pop() {
            back.push(last);
        }
    }
    let mut out: Vec<Json> = Vec::new();
    let mut starts: Vec<u64> = Vec::new();
    let ghost want = trees(all);
    assert(want.take(0) =~= Seq::<Tree>::empty());
    assert(trees(out@) =~= sorted_rows(want.take(0)));
    while back.len() > 0
        invariant
            want == trees(all),
            back@.len() <= all.len(),
            back@ =~= all.skip(all.len() - back@.len()).reverse(),
            trees(out@) == sorted_rows(want.take(all.len() - back@.len())),
            starts@.len() == out@.len(),
            forall|k: int| 0 <= k < out@.len() ==> #[trigger] starts@[k] == row_start(out@[k]@),
        decreases back.len(),
    {
        let ghost done = all.len() - back@.len();
        if let Some(row) = back.pop() {
            proof {
                assert(row == all[done]);
                assert(want.take(done + 1).drop_last() =~= want.take(done));
                assert(want.take(done + 1).last() == row@);
            }
            let start: u64 = uint_member(&row, "sourceSeqStart");
            let mut at: usize = out.len();
            while at > 0 && starts[at - 1] > start
                invariant
                    at <= out@.len(),
                    starts@.len() == out@.len(),
                    forall|k: int|
                        0 <= k < out@.len() ==> #[trigger] starts@[k] == row_start(out@[k]@),
                    forall|k: int|
                        at <= k < out@.len() ==> row_start((#[trigger] out@[k])@) > start,
                decreases at,
            {
                assert(starts@[at - 1] == row_start(out@[at - 1]@));
                at -= 1;
            }
            let ghost sorted = trees(out@);
            let ghost rows_then = out@;
            let ghost starts_then = starts@;
            let ghost tree = row@;
            proof {
                assert forall|j: int| at <= j < sorted.len() implies row_start(#[trigger] sorted[j])
                    > row_start(tree) by {
                    assert(sorted[j] == out@[j]@);
                }
                if at > 0 {
                    assert(starts@[at - 1] == row_start(out@[at - 1]@));
                    assert(sorted[at - 1] == out@[at - 1]@);
                }
                inserted_at(sorted, tree, at as int);
            }
            out.insert(at, row);
            starts.insert(at, start);
            proof {
                assert(trees(out@) =~= sorted.insert(at as int, tree));
                assert forall|k: int| 0 <= k < out@.len() implies #[trigger] starts@[k]
                    == row_start(out@[k]@) by {
                    if k < at {
                        assert(starts_then[k] == row_start(rows_then[k]@));
                    } else if k > at {
                        assert(starts_then[k - 1] == row_start(rows_then[k - 1]@));
                    }
                }
            }
        }
    }
    assert(want.take(all.len() as int) =~= want);
    out
}

/// Rows stay in order when one more is put in where it belongs.
proof fn insertion_keeps_order(sorted: Seq<Tree>, row: Tree)
    requires
        in_start_order(sorted),
    ensures
        in_start_order(inserted_row(sorted, row)),
        inserted_row(sorted, row).len() == sorted.len() + 1,
        inserted_row(sorted, row).to_multiset() == sorted.to_multiset().insert(row),
        forall|i: int|
            0 <= i < inserted_row(sorted, row).len() ==> row_start(
                #[trigger] inserted_row(sorted, row)[i],
            ) <= (if sorted.len() > 0 && row_start(sorted.last()) > row_start(row) {
                row_start(sorted.last())
            } else {
                row_start(row)
            }),
    decreases sorted.len(),
{
    broadcast use vstd::seq_lib::group_to_multiset_ensures;

    if sorted.len() == 0 || row_start(sorted.last()) <= row_start(row) {
        assert forall|i: int| 0 <= i < sorted.push(row).len() implies row_start(
            #[trigger] sorted.push(row)[i],
        ) <= row_start(row) by {
            if i < sorted.len() - 1 {
                assert(row_start(sorted[i]) <= row_start(sorted[sorted.len() - 1]));
            }
        }
    } else {
        let rest = sorted.drop_last();
        insertion_keeps_order(rest, row);
        let inner = inserted_row(rest, row);
        assert(sorted =~= rest.push(sorted.last()));
        assert forall|i: int| 0 <= i < inner.len() implies row_start(#[trigger] inner[i])
            <= row_start(sorted.last()) by {
            if rest.len() > 0 {
                assert(row_start(sorted[rest.len() - 1]) <= row_start(sorted[sorted.len() - 1]));
            }
        }
        assert(inner.push(sorted.last()).to_multiset() =~= inner.to_multiset().insert(
            sorted.last(),
        ));
        assert(sorted.to_multiset() =~= rest.to_multiset().insert(sorted.last()));
        assert(rest.to_multiset().insert(row).insert(sorted.last())
            =~= rest.to_multiset().insert(sorted.last()).insert(row));
    }
}

/// The rows of a timeline stand in the order in which they begin, and none is lost or made up by
/// putting them there.
pub proof fn timelines_are_in_order(rows: Seq<Tree>)
    ensures
        in_start_order(sorted_rows(rows)),
        sorted_rows(rows).to_multiset() == rows.to_multiset(),
    decreases rows.len(),
{
    broadcast use vstd::seq_lib::group_to_multiset_ensures;

    if rows.len() > 0 {
        timelines_are_in_order(rows.drop_last());
        insertion_keeps_order(sorted_rows(rows.drop_last()), rows.last());
        assert(rows =~= rows.drop_last().push(rows.last()));
        assert(rows.to_multiset() =~= rows.drop_last().to_multiset().insert(rows.last()));
    }
}

/// The query of a read of a timeline.
pub struct ThreadTimelineQuery {
    /// Only rows that end after this place.
    pub after_sequence: Option<String>,
    /// Only rows before the one of this id.
    pub before_anchor_id: Option<String>,
    /// Only rows that end before this place.
    pub before_anchor_seq: Option<String>,
    /// At most so many rows.
    pub segment_limit: Option<String>,
}

/// What a timeline query asks for.
#[derive(Clone, Copy, Debug, PartialEq, Eq, Structural)]
pub struct TimelineWindow {
    /// Only rows that end after this place.
    pub after: Option<u64>,
    /// Only rows that end before this place.
    pub before: Option<u64>,
    /// At most so many rows.
    pub limit: u64,
}

/// What a timeline query asks for, or the first thing that is wrong with it.
pub open spec fn window_of(query: ThreadTimelineQuery) -> Result<TimelineWindow, ReplyView> {
    match query_number(opt_view(query.after_sequence), "afterSequence"@) {
        Err(refusal) => Err(refusal),
        Ok(after) => match query_number(opt_view(query.before_anchor_seq), "beforeAnchorSeq"@) {
            Err(refusal) => Err(refusal),
            Ok(before) => match query_number(opt_view(query.segment_limit), "segmentLimit"@) {
                Err(refusal) => Err(refusal),
                Ok(limit) => Ok(
                    TimelineWindow {
                        after,
                        before,
                        limit: match limit {
                            None => 100,
                            Some(n) => if n < 1 {
                                1
                            } else if n > 1_000 {
                                1_000
                            } else {
                                n
                            },
                        },
                    },
                ),
            },
        },
    }
}

/// What a timeline query asks for.
pub fn parse_timeline_query(query: &ThreadTimelineQuery) -> (result: Result<TimelineWindow, Reply>)
    ensures
        parsed(result) == window_of(*query),
{
    let after: Option<u64> = match parse_query_sequence(&query.after_sequence, "afterSequence") {
        Ok(value) => value,
        Err(reply) => {
            return Err(reply);
        },
    };
    let before: Option<u64> = match parse_query_sequence(
        &query.before_anchor_seq,
        "beforeAnchorSeq",
    ) {
        Ok(value) => value,
        Err(reply) => {
            return Err(reply);
        },
    };
    let limit: u64 = match parse_query_sequence(&query.segment_limit, "segmentLimit") {
        Ok(Some(n)) => if n < 1 {
            1
        } else if n > 1_000 {
            1_000
        } else {
            n
        },
        Ok(None) => 100,
        Err(reply) => {
            return Err(reply);
        },
    };
    Ok(TimelineWindow { after, before, limit })
}

/// Where the first row of an id begins.
pub open spec fn anchor_start(rows: Seq<Tree>, id: Seq<char>) -> Option<u64>
    decreases rows.len(),
{
    if rows.len() == 0 {
        None
    } else if member(rows[0], "id"@) == Some(Tree::Str(id)) && (member(rows[0], "sourceSeqStart"@)
        matches Some(start) && start is UInt) {
        Some(row_start(rows[0]))
    } else {
        anchor_start(rows.drop_first(), id)
    }
}

/// Whether a row ends inside a window.
pub open spec fn row_inside(row: Tree, after: Option<u64>, before: Option<u64>) -> bool {
    let end = member_uint(row, "sourceSeqEnd"@);
    &&& after matches Some(place) ==> end > place
    &&& before matches Some(place) ==> end < place
}

/// The rows that end inside a window.
pub open spec fn rows_inside(rows: Seq<Tree>, after: Option<u64>, before: Option<u64>) -> Seq<Tree>
    decreases rows.len(),
{
    if rows.len() == 0 {
        rows
    } else {
        let rest = rows_inside(rows.drop_last(), after, before);
        if row_inside(rows.last(), after, before) {
            rest.push(rows.last())
        } else {
            rest
        }
    }
}

/// The last rows, at most so many.
pub open spec fn newest(rows: Seq<Tree>, limit: u64) -> Seq<Tree> {
    if rows.len() > limit {
        rows.skip(rows.len() - limit)
    } else {
        rows
    }
}

/// Where the rows before a page are to be asked for, where there are any.
pub open spec fn older_cursor(rows: Seq<Tree>, limit: u64) -> Tree {
    if rows.len() > limit {
        let first = newest(rows, limit)[0];
        object().field("anchorSeq"@, member_or_null(first, "sourceSeqStart"@)).field(
            "anchorId"@,
            member_or_null(first, "id"@),
        )
    } else {
        Tree::Null
    }
}

/// The end of the log that a timeline was read from.
pub open spec fn last_sequence(entries: Seq<ThreadEntry>) -> u64 {
    if entries.len() == 0 {
        0
    } else {
        entries.last().sequence
    }
}

/// The rows before which a page ends: those of the place that is named, else of the row that is.
pub open spec fn window_before(
    window: TimelineWindow,
    anchor_id: Option<Seq<char>>,
    rows: Seq<Tree>,
) -> Option<u64> {
    match window.before {
        Some(place) => Some(place),
        None => match anchor_id {
            Some(id) => anchor_start(rows, id),
            None => None,
        },
    }
}

/// A page of a timeline.
pub open spec fn timeline_tree(
    thread_id: Seq<char>,
    entries: Seq<ThreadEntry>,
    messages: Seq<AssistantMessage>,
    tools: Seq<ToolActivity>,
    window: TimelineWindow,
    anchor_id: Option<Seq<char>>,
) -> Tree {
    let folds = Folds { thinking: folded_thinking(entries), messages, tools };
    let all = sorted_rows(unsorted_rows(thread_id, entries, folds));
    let before = window_before(window, anchor_id, all);
    let rows = rows_inside(all, window.after, before);
    let page = newest(rows, window.limit);
    object().field("rows"@, Tree::Array(page))
        .field("contextBoundarySeq"@, Tree::Null)
        .field("activePromptMode"@, Tree::Null)
        .field("activeThinking"@, Tree::Null)
        .field("activeWorkflows"@, Tree::Array(Seq::empty()))
        .field("activeBackgroundCommands"@, Tree::Array(Seq::empty()))
        .field("pendingTodos"@, Tree::Null)
        .field(
            "goal"@,
            match current_goal(entries) {
                Some(goal) => goal,
                None => Tree::Null,
            },
        )
        .field(
            "modelFallback"@,
            match last_fallback(entries) {
                Some(fallback) => fallback,
                None => Tree::Null,
            },
        )
        .field(
            "timelinePage"@,
            object().field(
                "kind"@,
                Tree::Str(
                    if before is Some {
                        "older"@
                    } else {
                        "latest"@
                    },
                ),
            )
                .field("segmentLimit"@, Tree::UInt(window.limit))
                .field("returnedSegmentCount"@, Tree::UInt(page.len() as u64))
                .field("hasOlderRows"@, Tree::Bool(rows.len() > window.limit))
                .field("olderCursor"@, older_cursor(rows, window.limit)),
        )
        .field("maxSeq"@, Tree::UInt(last_sequence(entries)))
}

/// Where the first row of an id begins.
fn find_anchor(rows: &Vec<Json>, id: &str) -> (result: Option<u64>)
    ensures
        result == anchor_start(trees(rows@), id@),
{
    let ghost all = trees(rows@);
    assert(all.skip(0) =~= all);
    for i in 0..rows.len()
        invariant
            all == trees(rows@),
            anchor_start(all, id@) == anchor_start(all.skip(i as int), id@),
    {
        assert(all.skip(i as int)[0] == rows@[i as int]@);
        assert(all.skip(i as int).drop_first() =~= all.skip(i + 1));
        let named: bool = match rows[i].get("id") {
            Some(found) => match found.as_str() {
                Some(text) => same_text(text.as_str(), id),
                None => false,
            },
            None => false,
        };
        if named {
            if let Some(found) = rows[i].get("sourceSeqStart") {
                if let Some(start) = found.as_uint() {
                    return Some(start);
                }
            }
        }
    }
    assert(all.skip(all.len() as int).len() == 0);
    None
}

/// The rows that end inside a window.
fn keep_inside(rows: Vec<Json>, after: Option<u64>, before: Option<u64>) -> (result: Vec<Json>)
    ensures
        trees(result@) == rows_inside(trees(rows@), after, before),
{
    let ghost all = trees(rows@);
    let mut kept: Vec<Json> = Vec::new();
    assert(all.take(0) =~= Seq::<Tree>::empty());
    assert(trees(kept@) =~= rows_inside(all.take(0), after, before));
    for i in 0..rows.len()
        invariant
            all == trees(rows@),
            trees(kept@) == rows_inside(all.take(i as int), after, before),
    {
        let ghost then = trees(kept@);
        assert(all.take(i + 1).drop_last() =~= all.take(i as int));
        assert(all.take(i + 1).last() == rows@[i as int]@);
        let end: u64 = uint_member(&rows[i], "sourceSeqEnd");
        let late_enough: bool = match after {
            Some(place) => end > place,
            None => true,
        };
        let early_enough: bool = match before {
            Some(place) => end < place,
            None => true,
        };
        if late_enough && early_enough {
            kept.push(rows[i].copy());
            assert(trees(kept@) =~= then.push(rows@[i as int]@));
        }
    }
    assert(all.take(all.len() as int) =~= all);
    kept
}

/// The last rows, at most so many.
pub fn newest_rows(rows: Vec<Json>, limit: u64) -> (result: Vec<Json>)
    ensures
        trees(result@) == newest(trees(rows@), limit),
{
    let ghost all = rows@;
    let mut kept: Vec<Json> = rows;
    if kept.len() as u64 > limit {
        let start: usize = kept.len() - limit as usize;
        let tail: Vec<Json> = kept.split_off(start);
        assert(trees(tail@) =~= trees(all).skip(all.len() - limit));
        tail
    } else {
        kept
    }
}

/// The last model fallback of a log, or `null`.
fn fallback_value(entries: &Vec<ThreadEntry>) -> (result: Json)
    ensures
        result@ == (match last_fallback(entries@) {
            Some(fallback) => fallback,
            None => Tree::Null,
        }),
{
    let mut i: usize = entries.len();
    assert(entries@.take(entries@.len() as int) =~= entries@);
    while i > 0
        invariant
            i <= entries@.len(),
            last_fallback(entries@) == last_fallback(entries@.take(i as int)),
        decreases i,
    {
        let entry: &ThreadEntry = &entries[i - 1];
        assert(entries@.take(i as int).last() == *entry);
        assert(entries@.take(i as int).drop_last() =~= entries@.take(i - 1));
        if let DomainEvent::ThreadRunEvent { run } = &entry.event {
            if let ProviderEvent::ProviderModelFallback { original_model, fallback_model } = &run.body {
                return Fields::new().with("originalModel", Json::text(original_model.as_str()))
                    .with("fallbackModel", Json::text(fallback_model.as_str()))
                    .with("detectedAt", Json::UInt(entry.created_at_ms))
                    .object();
            }
        }
        i -= 1;
    }
    Json::Null
}

/// The answer to a read of a timeline: the folded rows of every projection in one order, cut to
/// the window that the query names. The answers and the tool calls come folded.
pub fn thread_timeline(
    thread_id: &str,
    query: &ThreadTimelineQuery,
    entries: &Vec<ThreadEntry>,
    messages: &Vec<AssistantMessage>,
    tools: &Vec<ToolActivity>,
) -> (result: Reply)
    ensures
        match window_of(*query) {
            Err(refusal) => result@ == refusal,
            Ok(window) => result@ == ok_view(
                timeline_tree(
                    thread_id@,
                    entries@,
                    messages@,
                    tools@,
                    window,
                    opt_view(query.before_anchor_id),
                ),
            ),
        },
{
    let window: TimelineWindow = match parse_timeline_query(query) {
        Ok(window) => window,
        Err(reply) => {
            return reply;
        },
    };
    let thinking: ReasoningTimeline = fold_thinking(entries);
    let all: Vec<Json> = sort_rows(gather_rows(thread_id, entries, &thinking, messages, tools));
    let before: Option<u64> = match window.before {
        Some(place) => Some(place),
        None => match &query.before_anchor_id {
            Some(id) => find_anchor(&all, id.as_str()),
            None => None,
        },
    };
    let rows: Vec<Json> = keep_inside(all, window.after, before);
    let ghost inside = trees(rows@);
    let has_older: bool = rows.len() as u64 > window.limit;
    let page: Vec<Json> = newest_rows(rows, window.limit);
    let cursor: Json = if has_older {
        assert(trees(page@)[0] == page@[0]@);
        Fields::new().with("anchorSeq", member_or_null_json(&page[0], "sourceSeqStart")).with(
            "anchorId",
            member_or_null_json(&page[0], "id"),
        ).object()
    } else {
        Json::Null
    };
    let kind: &str = if before.is_some() {
        "older"
    } else {
        "latest"
    };
    let last: u64 = if entries.len() == 0 {
        0
    } else {
        entries[entries.len() - 1].sequence
    };
    let count: u64 = page.len() as u64;
    let page_info: Json = Fields::new().with("kind", Json::text(kind))
        .with("segmentLimit", Json::UInt(window.limit))
        .with("returnedSegmentCount", Json::UInt(count))
        .with("hasOlderRows", Json::Bool(has_older))
        .with("olderCursor", cursor)
        .object();
    ok(
        Fields::new().with("rows", Json::array(page))
            .with("contextBoundarySeq", Json::Null)
            .with("activePromptMode", Json::Null)
            .with("activeThinking", Json::Null)
            .with("activeWorkflows", empty_array())
            .with("activeBackgroundCommands", empty_array())
            .with("pendingTodos", Json::Null)
            .with("goal", goal_value(entries))
            .with("modelFallback", fallback_value(entries))
            .with("timelinePage", page_info)
            .with("maxSeq", Json::UInt(last))
            .object(),
    )
}

/// Of rows that all lie inside a window none is left out, and of rows behind them that all lie
/// outside none is added.
proof fn windows_take_what_is_inside(rows: Seq<Tree>, before: u64, k: int)
    requires
        0 <= k <= rows.len(),
        forall|i: int| 0 <= i < k ==> member_uint(#[trigger] rows[i], "sourceSeqEnd"@) < before,
        forall|i: int|
            k <= i < rows.len() ==> member_uint(#[trigger] rows[i], "sourceSeqEnd"@) >= before,
    ensures
        rows_inside(rows, None, Some(before)) == rows.take(k),
    decreases rows.len(),
{
    if rows.len() == 0 {
        assert(rows.take(k) =~= rows);
    } else {
        let rest = rows.drop_last();
        assert(rows.last() == rows[rows.len() - 1]);
        if k == rows.len() {
            windows_take_what_is_inside(rest, before, k - 1);
            assert(rest.take(k - 1).push(rows.last()) =~= rows.take(k));
        } else {
            windows_take_what_is_inside(rest, before, k);
            assert(rest.take(k) =~= rows.take(k));
        }
    }
}

/// Reading on from a page's cursor loses no row of a timeline and repeats none, provided that no
/// row reaches across the place where the page begins.
pub proof fn timeline_pages_follow_one_another(rows: Seq<Tree>, limit: u64)
    requires
        0 < limit < rows.len(),
        forall|i: int|
            0 <= i < rows.len() - limit ==> member_uint(#[trigger] rows[i], "sourceSeqEnd"@)
                < row_start(newest(rows, limit)[0]),
        forall|i: int|
            rows.len() - limit <= i < rows.len() ==> member_uint(
                #[trigger] rows[i],
                "sourceSeqEnd"@,
            ) >= row_start(newest(rows, limit)[0]),
    ensures
        rows_inside(rows, None, Some(row_start(newest(rows, limit)[0]))) + newest(rows, limit)
            == rows,
{
    let k = rows.len() - limit;
    windows_take_what_is_inside(rows, row_start(newest(rows, limit)[0]), k);
    assert(rows.take(k) + newest(rows, limit) =~= rows);
}

/// Whether a row tells of a message: it bears the message's id, stands at its place, and says what it
/// says, as its text or, where the system wrote it, as its detail.
pub open spec fn tells_of(
    row: Tree,
    thread_id: Seq<char>,
    sequence: u64,
    message: Message,
) -> bool {
    &&& stands_at(row, thread_id, sequence, message.created_at_ms)
    &&& member(row, "id"@) == Some(Tree::Str(message.id@))
    &&& message.role != MessageRole::System ==> member(row, "text"@) == Some(
        Tree::Str(message.content@),
    )
    &&& message.role == MessageRole::System ==> member(row, "detail"@) == Some(
        Tree::Str(message.content@),
    )
}

/// The rows that are no projection's are those of the entries that have one, in the log's order.
proof fn own_rows_are_of_entries(thread_id: Seq<char>, entries: Seq<ThreadEntry>)
    ensures
        forall|i: int|
            0 <= i < entries.len() && entry_frame(#[trigger] entries[i]) is None && own_row(
                thread_id,
                entries[i].sequence,
                entries[i].event,
            ) is Some ==> own_rows(thread_id, entries).contains(
                own_row(thread_id, entries[i].sequence, entries[i].event)->0,
            ),
    decreases entries.len(),
{
    if entries.len() > 0 {
        let rest = entries.drop_last();
        let rows = own_rows(thread_id, entries);
        let old_rows = own_rows(thread_id, rest);
        own_rows_are_of_entries(thread_id, rest);
        assert forall|i: int|
            0 <= i < entries.len() && entry_frame(#[trigger] entries[i]) is None && own_row(
                thread_id,
                entries[i].sequence,
                entries[i].event,
            ) is Some implies rows.contains(
            own_row(thread_id, entries[i].sequence, entries[i].event)->0,
        ) by {
            let row = own_row(thread_id, entries[i].sequence, entries[i].event)->0;
            if i < rest.len() {
                assert(rest[i] == entries[i]);
                let k = choose|k: int| 0 <= k < old_rows.len() && old_rows[k] == row;
                assert(rows[k] == row);
            } else {
                assert(rows[old_rows.len() as int] == row);
            }
        }
    }
}

/// The rows inside a window are those that are inside, in the order in which they stood.
proof fn windows_keep_order(rows: Seq<Tree>, after: Option<u64>, before: Option<u64>)
    requires
        in_start_order(rows),
    ensures
        in_start_order(rows_inside(rows, after, before)),
        forall|row: Tree| #[trigger]
            rows_inside(rows, after, before).contains(row) <==> rows.contains(row) && row_inside(
                row,
                after,
                before,
            ),
    decreases rows.len(),
{
    if rows.len() > 0 {
        let rest = rows.drop_last();
        let last = rows.last();
        let kept = rows_inside(rows, after, before);
        let old_kept = rows_inside(rest, after, before);
        assert(in_start_order(rest)) by {
            assert forall|i: int, j: int| 0 <= i < j < rest.len() implies row_start(
                #[trigger] rest[i],
            ) <= row_start(#[trigger] rest[j]) by {
                assert(rows[i] == rest[i] && rows[j] == rest[j]);
            }
        }
        windows_keep_order(rest, after, before);
        assert forall|row: Tree| #[trigger] kept.contains(row) <==> rows.contains(row)
            && row_inside(row, after, before) by {
            if kept.contains(row) {
                let k = choose|k: int| 0 <= k < kept.len() && kept[k] == row;
                if k < old_kept.len() {
                    assert(old_kept[k] == row);
                    assert(old_kept.contains(row));
                    let i = choose|i: int| 0 <= i < rest.len() && rest[i] == row;
                    assert(rows[i] == row);
                } else {
                    assert(rows[rows.len() - 1] == row);
                }
            }
            if rows.contains(row) && row_inside(row, after, before) {
                let i = choose|i: int| 0 <= i < rows.len() && rows[i] == row;
                if i < rest.len() {
                    assert(rest[i] == row);
                    assert(old_kept.contains(row));
                    let k = choose|k: int| 0 <= k < old_kept.len() && old_kept[k] == row;
                    assert(kept[k] == row);
                } else {
                    assert(kept[old_kept.len() as int] == row);
                }
            }
        }
        assert forall|i: int, j: int| 0 <= i < j < kept.len() implies row_start(
            #[trigger] kept[i],
        ) <= row_start(#[trigger] kept[j]) by {
            assert(kept[i] == old_kept[i]);
            if j < old_kept.len() {
                assert(kept[j] == old_kept[j]);
            } else {
                assert(old_kept.contains(old_kept[i]));
                let a = choose|a: int| 0 <= a < rest.len() && rest[a] == old_kept[i];
                assert(rows[a] == old_kept[i]);
                assert(rows[rows.len() - 1] == kept[j]);
            }
        }
    }
}

/// Every message of a thread's log has a row in the thread's timeline that tells of it. A page of
/// the timeline leaves one out that is inside its window only where the page is full, and then
/// everything on it begins no earlier than the message.
pub proof fn timelines_tell_every_message(
    thread_id: Seq<char>,
    entries: Seq<ThreadEntry>,
    messages: Seq<AssistantMessage>,
    tools: Seq<ToolActivity>,
    window: TimelineWindow,
    i: int,
)
    requires
        0 <= i < entries.len(),
        entries[i].event is ThreadMessageAdded,
        window.after matches Some(place) ==> entries[i].sequence > place,
        window.before matches Some(place) ==> entries[i].sequence < place,
    ensures
        ({
            let page = member(
                timeline_tree(thread_id, entries, messages, tools, window, None),
                "rows"@,
            );
            let message = entries[i].event->ThreadMessageAdded_message;
            &&& page is Some
            &&& page->0 is Array
            &&& page->0->Array_0.len() <= window.limit
            &&& {
                ||| exists|k: int|
                    0 <= k < page->0->Array_0.len() && tells_of(
                        #[trigger] page->0->Array_0[k],
                        thread_id,
                        entries[i].sequence,
                        message,
                    )
                ||| page->0->Array_0.len() == window.limit && forall|k: int|
                    0 <= k < page->0->Array_0.len() ==> row_start(#[trigger] page->0->Array_0[k])
                        >= entries[i].sequence
            }
        }),
{
    broadcast use {vstd::seq_lib::group_to_multiset_ensures, member_of_field};

    let event = entries[i].event;
    let sequence = entries[i].sequence;
    let folds = Folds { thinking: folded_thinking(entries), messages, tools };
    let unsorted = unsorted_rows(thread_id, entries, folds);
    let all = sorted_rows(unsorted);
    let rows = rows_inside(all, window.after, window.before);
    let page = newest(rows, window.limit);
    let row = own_row(thread_id, sequence, event)->0;
    message_rows_say_what_was_said(thread_id, sequence, event);
    own_rows_are_of_entries(thread_id, entries);
    assert(entry_frame(entries[i]) is None);
    let own = own_rows(thread_id, entries);
    let at = choose|at: int| 0 <= at < own.len() && own[at] == row;
    assert(unsorted[at] == row);
    timelines_are_in_order(unsorted);
    assert(unsorted.contains(row));
    assert(unsorted.to_multiset().count(row) > 0);
    assert(all.contains(row));
    windows_keep_order(all, window.after, window.before);
    assert(rows.contains(row));
    let k = choose|k: int| 0 <= k < rows.len() && rows[k] == row;
    let tree = timeline_tree(thread_id, entries, messages, tools, window, None);
    reveal_strlit("goal");
    reveal_strlit("rows");
    reveal_strlit("maxSeq");
    reveal_strlit("pendingTodos");
    reveal_strlit("timelinePage");
    reveal_strlit("modelFallback");
    reveal_strlit("activeThinking");
    reveal_strlit("activeWorkflows");
    reveal_strlit("activePromptMode");
    reveal_strlit("contextBoundarySeq");
    reveal_strlit("activeBackgroundCommands");
    assert("goal"@.len() == 4 && "goal"@[0] == 'g');
    assert("rows"@.len() == 4 && "rows"@[0] == 'r');
    assert("maxSeq"@.len() == 6);
    assert("pendingTodos"@.len() == 12 && "pendingTodos"@[0] == 'p');
    assert("timelinePage"@.len() == 12 && "timelinePage"@[0] == 't');
    assert("modelFallback"@.len() == 13);
    assert("activeThinking"@.len() == 14);
    assert("activeWorkflows"@.len() == 15);
    assert("activePromptMode"@.len() == 16);
    assert("contextBoundarySeq"@.len() == 18);
    assert("activeBackgroundCommands"@.len() == 24);
    assert(member(tree, "rows"@) == Some(Tree::Array(page)));
    assert(row_start(row) == sequence);
    if rows.len() > window.limit {
        let cut = rows.len() - window.limit;
        if k >= cut {
            assert(page[k - cut] == row);
        } else {
            assert forall|j: int| 0 <= j < page.len() implies row_start(#[trigger] page[j])
                >= sequence by {
                assert(page[j] == rows[j + cut]);
                assert(row_start(rows[k]) <= row_start(rows[j + cut]));
            }
        }
    } else {
        assert(page[k] == row);
    }
}

/// The frame of thinking that an item's events are.
spec fn thinking_frame(key: ItemKey) -> Frame {
    Frame { class: FrameClass::Reasoning, run: key.0, item: key.1 }
}

/// An item that was folded has a frame in the log.
proof fn thoughts_have_frames(entries: Seq<ThreadEntry>, key: ItemKey)
    requires
        folded_thinking(entries).dom().contains(key),
    ensures
        seen_before(entries, entries.len() as int, thinking_frame(key)),
    decreases entries.len(),
{
    if entries.len() > 0 {
        let rest = entries.drop_last();
        let last = entries.last();
        assert(entries[entries.len() - 1] == last);
        if entry_frame(last) != Some(thinking_frame(key)) {
            assert(folded_thinking(rest).dom().contains(key));
            thoughts_have_frames(rest, key);
            let j = choose|j: int|
                0 <= j < rest.len() && entry_frame(#[trigger] rest[j]) == Some(thinking_frame(key));
            assert(entries[j] == rest[j]);
        } else {
            assert(entry_frame(entries[entries.len() - 1]) == Some(thinking_frame(key)));
        }
    }
}

/// The items with something to say that have a frame among the first entries.
spec fn thoughts_seen(entries: Seq<ThreadEntry>, thinking: Map<ItemKey, Thought>) -> Set<ItemKey> {
    Set::new(
        |key: ItemKey|
            thinking.dom().contains(key) && thinking[key].reportable() && seen_before(
                entries,
                entries.len() as int,
                thinking_frame(key),
            ),
    )
}

/// What one entry more adds to the items that have a frame.
proof fn seen_with_last(entries: Seq<ThreadEntry>, frame: Frame)
    requires
        entries.len() > 0,
    ensures
        seen_before(entries, entries.len() as int, frame) <==> seen_before(
            entries.drop_last(),
            entries.len() - 1,
            frame,
        ) || entry_frame(entries.last()) == Some(frame),
        seen_before(entries.drop_last(), entries.len() - 1, frame) <==> seen_before(
            entries,
            entries.len() - 1,
            frame,
        ),
{
    let rest = entries.drop_last();
    let n = entries.len() - 1;
    assert(entries[n] == entries.last());
    if seen_before(entries, entries.len() as int, frame) {
        let j = choose|j: int|
            0 <= j < entries.len() && entry_frame(#[trigger] entries[j]) == Some(frame);
        if j < n {
            assert(rest[j] == entries[j]);
        }
    }
    if seen_before(rest, n, frame) {
        let j = choose|j: int| 0 <= j < n && entry_frame(#[trigger] rest[j]) == Some(frame);
        assert(entries[j] == rest[j]);
    }
    if seen_before(entries, n, frame) {
        let j = choose|j: int| 0 <= j < n && entry_frame(#[trigger] entries[j]) == Some(frame);
        assert(entries[j] == rest[j]);
    }
    if entry_frame(entries.last()) == Some(frame) {
        assert(entry_frame(entries[n]) == Some(frame));
    }
}

/// The rows of thinking are those of the items that have a frame, one each.
proof fn thinking_rows_follow_frames(
    thread_id: Seq<char>,
    entries: Seq<ThreadEntry>,
    folds: Folds,
)
    ensures
        thoughts_seen(entries, folds.thinking).finite(),
        class_rows(thread_id, entries, folds, FrameClass::Reasoning).len() == thoughts_seen(
            entries,
            folds.thinking,
        ).len(),
        forall|key: ItemKey| #[trigger]
            thoughts_seen(entries, folds.thinking).contains(key) ==> class_rows(
                thread_id,
                entries,
                folds,
                FrameClass::Reasoning,
            ).contains(reasoning_tree(thread_id, key, folds.thinking[key])),
    decreases entries.len(),
{
    let thinking = folds.thinking;
    let now = thoughts_seen(entries, thinking);
    if entries.len() == 0 {
        assert(now =~= Set::<ItemKey>::empty());
    } else {
        let rest = entries.drop_last();
        let before = thoughts_seen(rest, thinking);
        let rows = class_rows(thread_id, entries, folds, FrameClass::Reasoning);
        let old_rows = class_rows(thread_id, rest, folds, FrameClass::Reasoning);
        thinking_rows_follow_frames(thread_id, rest, folds);
        assert forall|key: ItemKey| #[trigger] now.contains(key) <==> before.contains(key) || (
        thinking.dom().contains(key) && thinking[key].reportable() && entry_frame(entries.last())
            == Some(thinking_frame(key))) by {
            seen_with_last(entries, thinking_frame(key));
        }
        let added = match entry_frame(entries.last()) {
            Some(frame) => {
                seen_with_last(entries, frame);
                let key = (frame.run, frame.item);
                frame.class == FrameClass::Reasoning && thinking.dom().contains(key)
                    && thinking[key].reportable() && !before.contains(key)
            },
            None => false,
        };
        if added {
            let frame = entry_frame(entries.last())->0;
            let key = (frame.run, frame.item);
            assert(thinking_frame(key) == frame);
            assert(now =~= before.insert(key));
            assert(rows == old_rows.push(reasoning_tree(thread_id, key, thinking[key])));
            assert forall|k: ItemKey| #[trigger] now.contains(k) implies rows.contains(
                reasoning_tree(thread_id, k, thinking[k]),
            ) by {
                if k == key {
                    assert(rows[rows.len() - 1] == reasoning_tree(thread_id, k, thinking[k]));
                } else {
                    let i = choose|i: int|
                        0 <= i < old_rows.len() && old_rows[i] == reasoning_tree(
                            thread_id,
                            k,
                            thinking[k],
                        );
                    assert(rows[i] == old_rows[i]);
                }
            }
        } else {
            assert(now =~= before);
            assert(rows =~= old_rows);
        }
    }
}

/// One row per thinking item, however it was reported: whatever was folded and has something to
/// say is among the rows of a timeline, and thinking has no row besides.
pub proof fn every_thought_has_one_row(
    thread_id: Seq<char>,
    entries: Seq<ThreadEntry>,
    messages: Seq<AssistantMessage>,
    tools: Seq<ToolActivity>,
)
    ensures
        ({
            let thinking = folded_thinking(entries);
            let folds = Folds { thinking, messages, tools };
            let said = Set::new(
                |key: ItemKey| thinking.dom().contains(key) && thinking[key].reportable(),
            );
            let rows = class_rows(thread_id, entries, folds, FrameClass::Reasoning);
            &&& rows.len() == said.len()
            &&& forall|key: ItemKey| #[trigger]
                said.contains(key) ==> rows.contains(
                    reasoning_tree(thread_id, key, thinking[key]),
                )
        }),
{
    let thinking = folded_thinking(entries);
    let folds = Folds { thinking, messages, tools };
    let said = Set::new(|key: ItemKey| thinking.dom().contains(key) && thinking[key].reportable());
    thinking_rows_follow_frames(thread_id, entries, folds);
    assert forall|key: ItemKey| said.contains(key) implies #[trigger] thoughts_seen(
        entries,
        thinking,
    ).contains(key) by {
        thoughts_have_frames(entries, key);
    }
    assert(thoughts_seen(entries, thinking) =~= said);
}

// What a page of a timeline promises.

/// A query of a timeline names the places its rows lie between and how many it wants: a hundred
/// where it does not say, at least one and at most a thousand.
pub proof fn timeline_queries_are_read(
    query: ThreadTimelineQuery,
    after: Result<Option<u64>, Reply>,
    before: Result<Option<u64>, Reply>,
    limit: Result<Option<u64>, Reply>,
    answer: Result<TimelineWindow, Reply>,
)
    requires
        call_ensures(parse_timeline_query, (&query,), answer),
        call_ensures(parse_query_sequence, (&query.after_sequence, "afterSequence"), after),
        call_ensures(parse_query_sequence, (&query.before_anchor_seq, "beforeAnchorSeq"), before),
        call_ensures(parse_query_sequence, (&query.segment_limit, "segmentLimit"), limit),
    ensures
        answer is Ok <==> after is Ok && before is Ok && limit is Ok,
        after is Err ==> answer->Err_0@ == after->Err_0@,
        after is Ok && before is Err ==> answer->Err_0@ == before->Err_0@,
        after is Ok && before is Ok && limit is Err ==> answer->Err_0@ == limit->Err_0@,
        answer matches Ok(window) ==> window.after == after->Ok_0 && window.before == before->Ok_0 && (limit->Ok_0 is None ==> window.limit == 100) && (limit->Ok_0 is Some && 1 <= limit->Ok_0->0 <= 1_000 ==> window.limit == limit->Ok_0->0) && (limit->Ok_0 is Some && limit->Ok_0->0 < 1 ==> window.limit == 1) && (limit->Ok_0 is Some && limit->Ok_0->0 > 1_000 ==> window.limit == 1_000),
{
}

/// Whether a row is the first of an id that says where it begins.
pub open spec fn is_anchor(rows: Seq<Tree>, id: Seq<char>, i: int) -> bool {
    &&& 0 <= i < rows.len()
    &&& anchors(rows[i], id)
    &&& forall|j: int| 0 <= j < i ==> !anchors(#[trigger] rows[j], id)
}

/// Whether a row has an id and says where it begins.
pub open spec fn anchors(row: Tree, id: Seq<char>) -> bool {
    &&& member(row, "id"@) == Some(Tree::Str(id))
    &&& member(row, "sourceSeqStart"@) matches Some(Tree::UInt(_))
}

/// An anchor is where the first row of its id begins.
pub proof fn anchors_are_where_their_row_begins(rows: Seq<Tree>, id: Seq<char>)
    ensures
        anchor_start(rows, id) is None ==> forall|i: int|
            0 <= i < rows.len() ==> !anchors(#[trigger] rows[i], id),
        anchor_start(rows, id) is Some ==> exists|i: int| #[trigger]
            is_anchor(rows, id, i) && member(rows[i], "sourceSeqStart"@) == Some(
                Tree::UInt(anchor_start(rows, id)->0),
            ),
    decreases rows.len(),
{
    if rows.len() > 0 {
        if anchors(rows[0], id) {
            assert(is_anchor(rows, id, 0));
        } else {
            let rest = rows.drop_first();
            anchors_are_where_their_row_begins(rest, id);
            if anchor_start(rest, id) is Some {
                let i = choose|i: int| #[trigger]
                    is_anchor(rest, id, i) && member(rest[i], "sourceSeqStart"@) == Some(
                        Tree::UInt(anchor_start(rest, id)->0),
                    );
                assert(rows[i + 1] == rest[i]);
                assert forall|j: int| 0 <= j < i + 1 implies !anchors(#[trigger] rows[j], id) by {
                    if j > 0 {
                        assert(rest[j - 1] == rows[j]);
                    }
                }
                assert(is_anchor(rows, id, i + 1));
            } else {
                assert forall|i: int| 0 <= i < rows.len() implies !anchors(#[trigger] rows[i], id) by {
                    if i > 0 {
                        assert(rest[i - 1] == rows[i]);
                    }
                }
            }
        }
    }
}

/// A page of a timeline says how many rows it has and may have, whether there are older ones and
/// where to ask for them, how far the log reaches, and what the thread pursues.
#[verifier::rlimit(60)]
pub proof fn pages_say_where_they_stand(
    thread_id: &str,
    query: ThreadTimelineQuery,
    entries: Vec<ThreadEntry>,
    messages: Vec<AssistantMessage>,
    tools: Vec<ToolActivity>,
    window: Result<TimelineWindow, Reply>,
    answer: Reply,
)
    requires
        call_ensures(thread_timeline, (thread_id, &query, &entries, &messages, &tools), answer),
        call_ensures(parse_timeline_query, (&query,), window),
    ensures
        window matches Err(refusal) ==> answer@ == refusal@,
        window matches Ok(asked) ==> {
            let folds = Folds { thinking: folded_thinking(entries@), messages: messages@, tools: tools@ };
            let all = sorted_rows(unsorted_rows(thread_id@, entries@, folds));
            let before = if asked.before is Some { asked.before } else if query.before_anchor_id is Some { anchor_start(all, query.before_anchor_id->0@) } else { None };
            let inside = rows_inside(all, asked.after, before);
            let body = answer@.body;
            let page = member(body, "timelinePage"@);
            let shown = if inside.len() > asked.limit { inside.skip(inside.len() - asked.limit) } else { inside };
            &&& answer@.status == 200
            &&& member(body, "rows"@) == Some(Tree::Array(shown))
            &&& page is Some
            &&& before is Some ==> member(page->0, "kind"@) == Some(Tree::Str("older"@))
            &&& before is None ==> member(page->0, "kind"@) == Some(Tree::Str("latest"@))
            &&& member(page->0, "segmentLimit"@) == Some(Tree::UInt(asked.limit))
            &&& member(page->0, "returnedSegmentCount"@) == Some(Tree::UInt(shown.len() as u64))
            &&& member(page->0, "hasOlderRows"@) == Some(Tree::Bool(inside.len() > asked.limit))
            &&& inside.len() <= asked.limit ==> member(page->0, "olderCursor"@) == Some(Tree::Null)
            &&& inside.len() > asked.limit ==> (member(page->0, "olderCursor"@) matches Some(cursor) && member(cursor, "anchorSeq"@) == Some(member_or_null(shown[0], "sourceSeqStart"@)) && member(cursor, "anchorId"@) == Some(member_or_null(shown[0], "id"@)))
            &&& entries@.len() == 0 ==> member(body, "maxSeq"@) == Some(Tree::UInt(0))
            &&& entries@.len() > 0 ==> member(body, "maxSeq"@) == Some(Tree::UInt(entries@[entries@.len() - 1].sequence))
            &&& current_goal(entries@) is None ==> member(body, "goal"@) == Some(Tree::Null)
            &&& current_goal(entries@) matches Some(goal) ==> member(body, "goal"@) == Some(goal)
            &&& last_fallback(entries@) is None ==> member(body, "modelFallback"@) == Some(Tree::Null)
            &&& last_fallback(entries@) matches Some(fallback) ==> member(body, "modelFallback"@) == Some(fallback)
        },
{
    broadcast use {crate::json::member_of_field, crate::reply::errors_say_what_is_wrong};

    reveal_strlit("goal");
    reveal_strlit("kind");
    reveal_strlit("rows");
    reveal_strlit("maxSeq");
    reveal_strlit("anchorId");
    reveal_strlit("anchorSeq");
    reveal_strlit("olderCursor");
    reveal_strlit("hasOlderRows");
    reveal_strlit("pendingTodos");
    reveal_strlit("segmentLimit");
    reveal_strlit("timelinePage");
    reveal_strlit("modelFallback");
    reveal_strlit("activeThinking");
    reveal_strlit("activeWorkflows");
    reveal_strlit("activePromptMode");
    reveal_strlit("contextBoundarySeq");
    reveal_strlit("returnedSegmentCount");
    reveal_strlit("activeBackgroundCommands");
    assert("goal"@.len() == 4 && "goal"@[0] == 'g');
    assert("kind"@.len() == 4 && "kind"@[0] == 'k');
    assert("rows"@.len() == 4 && "rows"@[0] == 'r');
    assert("maxSeq"@.len() == 6);
    assert("anchorId"@.len() == 8);
    assert("anchorSeq"@.len() == 9);
    assert("olderCursor"@.len() == 11);
    assert("hasOlderRows"@.len() == 12 && "hasOlderRows"@[0] == 'h');
    assert("pendingTodos"@.len() == 12 && "pendingTodos"@[0] == 'p');
    assert("segmentLimit"@.len() == 12 && "segmentLimit"@[0] == 's');
    assert("timelinePage"@.len() == 12 && "timelinePage"@[0] == 't');
    assert("modelFallback"@.len() == 13);
    assert("activeThinking"@.len() == 14);
    assert("activeWorkflows"@.len() == 15);
    assert("activePromptMode"@.len() == 16);
    assert("contextBoundarySeq"@.len() == 18);
    assert("returnedSegmentCount"@.len() == 20);
    assert("activeBackgroundCommands"@.len() == 24);
}

// Where a row stands in a window.

/// A row that says where it ends lies inside a window exactly where that is behind the place the
/// window begins after and before the place it ends before.
pub proof fn windows_lie_between_their_places(
    row: Tree,
    end: u64,
    after: Option<u64>,
    before: Option<u64>,
)
    requires
        member(row, "sourceSeqEnd"@) == Some(Tree::UInt(end)),
    ensures
        row_inside(row, None, None),
        after is Some ==> (row_inside(row, after, None) <==> end > after->0),
        before is Some ==> (row_inside(row, None, before) <==> end < before->0),
        row_inside(row, after, before) <==> row_inside(row, after, None) && row_inside(row, None, before),
{
}

} // verus!
