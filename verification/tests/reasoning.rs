use loom_server::domain::ProviderEvent;
use loom_server::json::Json;
use loom_server::reasoning_timeline::{
    duration_to_compact_string, rows_for, ReasoningTimeline,
};

fn delta(item_id: &str, text: &str) -> ProviderEvent {
    ProviderEvent::ItemReasoningTextDelta {
        item_id: item_id.to_owned(),
        delta: text.to_owned(),
    }
}

fn agent_delta(item_id: &str) -> ProviderEvent {
    ProviderEvent::ItemAgentMessageDelta {
        item_id: item_id.to_owned(),
        delta: "answer".to_owned(),
    }
}

fn text_of<'a>(row: &'a Json, key: &str) -> &'a str {
    row.get(key).unwrap().as_str().unwrap()
}

fn number_of(row: &Json, key: &str) -> u64 {
    row.get(key).unwrap().as_uint().unwrap()
}

#[test]
fn deltas_fold_into_one_item_and_the_answer_closes_it() {
    let mut timeline = ReasoningTimeline::new();
    assert!(timeline.absorb("run-1", &delta("r", "The"), 2, 1_000));
    assert!(timeline.absorb("run-1", &delta("r", " user"), 3, 1_100));
    assert!(timeline.absorb("run-1", &delta("r", " asked"), 4, 1_400));
    assert!(!timeline.absorb("run-1", &agent_delta("a"), 5, 1_900));

    let item = timeline.get("run-1", "r").expect("the item is reportable");
    assert_eq!(item.text, "The user asked");
    assert_eq!(item.start_sequence, 2);
    assert_eq!(item.end_sequence, 4);
    assert_eq!(item.duration_label(), "900ms");
    assert!(item.closed, "the answer ended the thinking");
}

#[test]
fn blank_thinking_is_not_a_row() {
    let mut timeline = ReasoningTimeline::new();
    timeline.absorb("run-1", &delta("r", "   "), 2, 1_000);
    timeline.absorb("run-1", &delta("r", "\n"), 3, 1_100);
    assert!(timeline.get("run-1", "r").is_none());
    assert!(rows_for(&timeline, "thread-1").is_empty());
}

#[test]
fn a_row_states_the_contract_fields_and_the_duration() {
    let mut timeline = ReasoningTimeline::new();
    timeline.absorb("run-1", &delta("r", "Thinking"), 2, 1_000);
    timeline.absorb("run-1", &delta("r", " harder"), 3, 3_500);
    timeline.absorb("run-1", &agent_delta("a"), 4, 3_600);

    let rows = rows_for(&timeline, "thread-1");
    assert_eq!(rows.len(), 1);
    let row = &rows[0];
    assert_eq!(text_of(row, "kind"), "system");
    assert_eq!(text_of(row, "systemKind"), "operation");
    assert_eq!(text_of(row, "operationKind"), "reasoning");
    assert_eq!(text_of(row, "reasoningId"), "r");
    assert_eq!(text_of(row, "title"), "Thought for 3s");
    assert_eq!(text_of(row, "detail"), "Thinking harder");
    assert_eq!(text_of(row, "threadId"), "thread-1");
    assert_eq!(text_of(row, "turnId"), "run-1");
    assert_eq!(number_of(row, "sourceSeqStart"), 2);
    assert_eq!(number_of(row, "sourceSeqEnd"), 3);
    assert_eq!(number_of(row, "startedAt"), 1_000);
    assert_eq!(number_of(row, "completedAt"), 3_600);
}

#[test]
fn another_runs_frames_do_not_close_this_runs_thinking() {
    let mut timeline = ReasoningTimeline::new();
    timeline.absorb("run-1", &delta("r", "Thinking"), 2, 1_000);
    timeline.absorb("run-2", &agent_delta("a"), 3, 2_000);
    let item = timeline.get("run-1", "r").expect("still reportable");
    assert!(!item.closed, "run-2's answer is not run-1's end");
    assert_eq!(item.ended_at_ms, 1_000);
}

#[test]
fn durations_are_spelled_the_way_the_client_spells_them() {
    assert_eq!(duration_to_compact_string(0), "0ms");
    assert_eq!(duration_to_compact_string(999), "999ms");
    assert_eq!(duration_to_compact_string(1_000), "1s");
    assert_eq!(duration_to_compact_string(59_400), "59s");
    assert_eq!(duration_to_compact_string(60_000), "1m");
    assert_eq!(duration_to_compact_string(65_000), "1m 5s");
    assert_eq!(duration_to_compact_string(3_600_000), "1h");
    assert_eq!(duration_to_compact_string(3_665_000), "1h 1m 5s");
}

#[test]
fn durations_round_to_the_nearest_second() {
    assert_eq!(duration_to_compact_string(1_499), "1s");
    assert_eq!(duration_to_compact_string(1_500), "2s");
    assert_eq!(duration_to_compact_string(59_500), "1m");
    assert_eq!(duration_to_compact_string(86_400_000), "24h");
}

#[test]
fn rows_stand_in_the_order_of_their_first_frames() {
    let mut timeline = ReasoningTimeline::new();
    timeline.absorb("run-1", &delta("b", "second"), 9, 10);
    timeline.absorb("run-1", &delta("a", "first"), 3, 20);
    let listed = timeline.ordered();
    assert_eq!(listed.len(), 2);
    assert_eq!(listed[0].id.item_id, "a");
    assert_eq!(listed[1].id.item_id, "b");
}
