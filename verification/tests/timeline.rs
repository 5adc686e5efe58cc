use loom_server::domain::{
    DomainEvent, Message, MessageRole, ProviderEvent, RunEvent, ThreadEventItem, ThreadStatus,
};
use loom_server::json::{parse, Json};
use loom_server::reply::Reply;
use loom_server::thread_timeline::{newest_rows, thread_timeline, ThreadTimelineQuery};
use loom_server::timeline::{
    comma_list, event_wait_ms, event_wait_step, goal_value, thread_domain_events, thread_events,
    thread_has_active_plan, thread_has_goal, timeline_row_for_event, AssistantMessage,
    StoredEvent, ThreadEntry, ThreadEventsQuery, ToolActivity, WaitStep,
};
use loom_server::turn_details::{
    thread_output, thread_turn_summary_details, TurnSummaryDetailsQuery,
};
use loom_server::overview::{thread_conversation_outline, thread_prompt_history};

fn json(text: &str) -> Json {
    parse(text.as_bytes()).unwrap()
}

fn entry(sequence: u64, event: DomainEvent) -> ThreadEntry {
    ThreadEntry {
        event_id: format!("evt_{sequence}"),
        sequence,
        created_at_ms: 100 + sequence,
        event,
    }
}

fn message(sequence: u64, role: MessageRole, content: &str) -> ThreadEntry {
    entry(
        sequence,
        DomainEvent::ThreadMessageAdded {
            thread_id: "thr_1".to_owned(),
            message: Message {
                id: format!("msg_{sequence}"),
                project_id: None,
                role,
                content: content.to_owned(),
                created_at_ms: 100 + sequence,
            },
        },
    )
}

fn run(sequence: u64, kind: &str, value: &str, body: ProviderEvent) -> ThreadEntry {
    entry(
        sequence,
        DomainEvent::ThreadRunEvent {
            run: RunEvent {
                thread_id: "thr_1".to_owned(),
                project_id: "proj_1".to_owned(),
                run_id: "run_1".to_owned(),
                at_ms: 100 + sequence,
                outcome: None,
                kind: kind.to_owned(),
                scope: json(r#"{"kind":"turn"}"#),
                value: json(value),
                data: json(value),
                body,
            },
        },
    )
}

fn event(sequence: u64, kind: &str, value: &str) -> ThreadEntry {
    run(sequence, kind, value, ProviderEvent::Other)
}

fn rows(reply: &Reply) -> &Vec<Json> {
    reply.body.get("rows").unwrap().as_array().unwrap()
}

fn text_of<'a>(value: &'a Json, key: &str) -> &'a str {
    value.get(key).unwrap().as_str().unwrap()
}

fn number_of(value: &Json, key: &str) -> u64 {
    value.get(key).unwrap().as_uint().unwrap()
}

fn window() -> ThreadTimelineQuery {
    ThreadTimelineQuery {
        after_sequence: None,
        before_anchor_id: None,
        before_anchor_seq: None,
        segment_limit: None,
    }
}

fn all_events() -> ThreadEventsQuery {
    ThreadEventsQuery { after_seq: None, before_seq: None, limit: None, order: None, types: None }
}

#[test]
fn a_preflight_failure_is_a_readable_error_row() {
    let entries = vec![
        message(1, MessageRole::User, "hi"),
        event(2, "turn/started", "{}"),
        event(
            3,
            "provider/error",
            r#"{"type":"provider/error","message":"thread has no environment bound; bind one before dispatching"}"#,
        ),
        event(4, "turn/completed", "{}"),
    ];
    let reply = thread_timeline("thr_1", &window(), &entries, &Vec::new(), &Vec::new());
    assert_eq!(reply.status, 200);
    let shown = rows(&reply);
    assert_eq!(shown.len(), 2);
    let error = &shown[1];
    assert_eq!(text_of(error, "systemKind"), "error");
    assert_eq!(text_of(error, "kind"), "system");
    assert_eq!(
        text_of(error, "title"),
        "thread has no environment bound; bind one before dispatching"
    );
    assert_eq!(text_of(error, "status"), "error");
    assert_eq!(text_of(error, "id"), "run_1-3");
}

#[test]
fn a_page_of_a_timeline_is_its_newest_rows() {
    let entries: Vec<ThreadEntry> =
        (1..6).map(|n| message(n, MessageRole::User, "hi")).collect();
    let page = ThreadTimelineQuery { segment_limit: Some("2".to_owned()), ..window() };
    let reply = thread_timeline("thr_1", &page, &entries, &Vec::new(), &Vec::new());
    let ids: Vec<&str> = rows(&reply).iter().map(|row| text_of(row, "id")).collect();
    assert_eq!(ids, vec!["msg_4", "msg_5"]);
    let older = ThreadTimelineQuery {
        before_anchor_id: Some("msg_4".to_owned()),
        segment_limit: Some("2".to_owned()),
        ..window()
    };
    let reply = thread_timeline("thr_1", &older, &entries, &Vec::new(), &Vec::new());
    let ids: Vec<&str> = rows(&reply).iter().map(|row| text_of(row, "id")).collect();
    assert_eq!(ids, vec!["msg_2", "msg_3"]);
    let after = ThreadTimelineQuery { after_sequence: Some("4".to_owned()), ..window() };
    let reply = thread_timeline("thr_1", &after, &entries, &Vec::new(), &Vec::new());
    assert_eq!(rows(&reply).len(), 1);
    let bad = ThreadTimelineQuery { segment_limit: Some("x".to_owned()), ..window() };
    assert_eq!(
        thread_timeline("thr_1", &bad, &entries, &Vec::new(), &Vec::new()).status,
        400
    );
    assert_eq!(newest_rows(vec![Json::UInt(1), Json::UInt(2)], 1), vec![Json::UInt(2)]);
}

#[test]
fn frames_of_one_item_are_one_row() {
    let delta = |sequence: u64, text: &str| {
        run(
            sequence,
            "item/agentMessage/delta",
            "{}",
            ProviderEvent::ItemAgentMessageDelta {
                item_id: "a".to_owned(),
                delta: text.to_owned(),
            },
        )
    };
    let entries = vec![
        run(
            1,
            "item/reasoning/textDelta",
            "{}",
            ProviderEvent::ItemReasoningTextDelta {
                item_id: "r".to_owned(),
                delta: "Hmm".to_owned(),
            },
        ),
        delta(2, "an"),
        delta(3, "swer"),
        run(
            4,
            "item/toolCall/progress",
            "{}",
            ProviderEvent::ItemToolCallProgress { item_id: "t".to_owned() },
        ),
    ];
    let answer = AssistantMessage {
        run_id: "run_1".to_owned(),
        item_id: "a".to_owned(),
        start_sequence: 2,
        end_sequence: 3,
        fields: vec![("text".to_owned(), Json::text("answer"))],
    };
    let tool = ToolActivity {
        run_id: "run_1".to_owned(),
        item_id: "t".to_owned(),
        rows: vec![json(r#"{"id":"tool","sourceSeqStart":4,"sourceSeqEnd":4}"#)],
    };
    let reply = thread_timeline("thr_1", &window(), &entries, &vec![answer], &vec![tool]);
    let shown = rows(&reply);
    assert_eq!(shown.len(), 3);
    assert_eq!(text_of(&shown[0], "operationKind"), "reasoning");
    assert_eq!(text_of(&shown[1], "text"), "answer");
    assert_eq!(number_of(&shown[1], "sourceSeqStart"), 2);
    assert_eq!(number_of(&shown[1], "sourceSeqEnd"), 3);
    assert_eq!(text_of(&shown[2], "id"), "tool");
}

#[test]
fn a_timeline_names_the_last_model_fallback() {
    let entries = vec![run(
        1,
        "provider/modelFallback",
        "{}",
        ProviderEvent::ProviderModelFallback {
            original_model: "big".to_owned(),
            fallback_model: "small".to_owned(),
        },
    )];
    let reply = thread_timeline("thr_1", &window(), &entries, &Vec::new(), &Vec::new());
    let fallback = reply.body.get("modelFallback").unwrap();
    assert_eq!(text_of(fallback, "originalModel"), "big");
    assert_eq!(text_of(fallback, "fallbackModel"), "small");
}

#[test]
fn events_are_read_by_place_type_and_order() {
    let entries = vec![
        message(1, MessageRole::User, "hi"),
        event(2, "turn/started", r#"{"type":"turn/started","a":1}"#),
        event(3, "turn/completed", "{}"),
        event(4, "turn/started", "{}"),
    ];
    let seqs = |query: ThreadEventsQuery| -> Vec<u64> {
        let reply = thread_events(&query, &entries);
        assert_eq!(reply.status, 200);
        reply.body.as_array().unwrap().iter().map(|row| number_of(row, "seq")).collect()
    };
    assert_eq!(seqs(all_events()), vec![2, 3, 4]);
    assert_eq!(
        seqs(ThreadEventsQuery { after_seq: Some("2".to_owned()), ..all_events() }),
        vec![3, 4]
    );
    assert_eq!(
        seqs(ThreadEventsQuery { before_seq: Some("4".to_owned()), ..all_events() }),
        vec![2, 3]
    );
    assert_eq!(
        seqs(ThreadEventsQuery { types: Some(" turn/started ,, x".to_owned()), ..all_events() }),
        vec![2, 4]
    );
    assert_eq!(
        seqs(ThreadEventsQuery {
            order: Some("desc".to_owned()),
            limit: Some("2".to_owned()),
            ..all_events()
        }),
        vec![4, 3]
    );
    let reply = thread_events(
        &ThreadEventsQuery { order: Some("up".to_owned()), ..all_events() },
        &entries,
    );
    assert_eq!(reply.status, 400);
    assert_eq!(
        text_of(&reply.body, "message"),
        "order must be asc or desc, got \"up\""
    );
    let first = &thread_events(&all_events(), &entries).body.as_array().unwrap()[0].copy();
    assert!(first.get("data").unwrap().get("type").is_none());
    assert_eq!(first.get("data").unwrap().get("a").unwrap().as_uint(), Some(1));
    assert_eq!(comma_list(" a ,, b"), vec!["a".to_owned(), "b".to_owned()]);
}

#[test]
fn a_wait_answers_the_first_event_after_its_cursor() {
    let entries = vec![event(2, "turn/started", "{}"), event(3, "turn/completed", "{}")];
    match event_wait_step(&entries, Some(2), false) {
        WaitStep::Answer(row) => assert_eq!(number_of(&row, "seq"), 3),
        other => panic!("expected an answer, got {other:?}"),
    }
    assert_eq!(event_wait_step(&entries, Some(3), false), WaitStep::Again);
    assert_eq!(event_wait_step(&entries, Some(3), true), WaitStep::Answer(Json::Null));
    assert!(event_wait_ms(&Some("x".to_owned())).is_err());
    assert_eq!(event_wait_ms(&Some("7".to_owned())), Ok(7));
}

#[test]
fn places_in_a_log_do_not_move() {
    let stored = |event: Option<DomainEvent>| StoredEvent {
        event_id: "evt".to_owned(),
        created_at_ms: 1,
        event,
    };
    let listed = thread_domain_events(vec![
        stored(Some(DomainEvent::ThreadSectionCreated)),
        stored(None),
        stored(Some(DomainEvent::ThreadSectionDeleted)),
    ]);
    let places: Vec<u64> = listed.iter().map(|entry| entry.sequence).collect();
    assert_eq!(places, vec![1, 3]);
}

#[test]
fn goals_and_plans_last_until_they_are_over() {
    let set = event(1, "thread/goal/updated", r#"{"objective":"ship","status":"active"}"#);
    let cleared = event(2, "thread/goal/cleared", "{}");
    assert!(thread_has_goal(&vec![set]));
    let set = event(1, "thread/goal/updated", r#"{"objective":"ship","status":"active"}"#);
    let goal = goal_value(&vec![set]);
    assert_eq!(text_of(&goal, "objective"), "ship");
    assert_eq!(number_of(&goal, "sourceSeq"), 1);
    let set = event(1, "thread/goal/updated", "{}");
    let both = vec![set, cleared];
    assert!(!thread_has_goal(&both));
    assert_eq!(goal_value(&both), Json::Null);
    assert!(thread_has_active_plan(&vec![event(1, "turn/plan/updated", "{}")]));
    assert!(!thread_has_active_plan(&vec![
        event(1, "turn/plan/updated", "{}"),
        event(2, "turn/completed", "{}")
    ]));
    assert!(!thread_has_active_plan(&vec![
        event(1, "turn/plan/updated", "{}"),
        event(2, "plan/removed", "{}")
    ]));
}

#[test]
fn thinking_has_one_row_however_it_was_reported() {
    let summary = |sequence: u64, piece: &str| {
        run(
            sequence,
            "item/reasoning/summaryTextDelta",
            "{}",
            ProviderEvent::ItemReasoningSummaryTextDelta {
                item_id: "r_1".to_owned(),
                delta: piece.to_owned(),
            },
        )
    };
    let complete = run(
        3,
        "item/completed",
        "{}",
        ProviderEvent::ItemCompleted {
            item: ThreadEventItem::Reasoning {
                id: "r_2".to_owned(),
                summary: vec!["at ".to_owned()],
                content: vec!["once".to_owned()],
            },
        },
    );
    let entries = vec![summary(1, "piece "), summary(2, "by piece"), complete];
    let reply = thread_timeline("thr_1", &window(), &entries, &Vec::new(), &Vec::new());
    let thoughts: Vec<(&str, &str)> = rows(&reply)
        .iter()
        .map(|row| (text_of(row, "reasoningId"), text_of(row, "detail")))
        .collect();
    assert_eq!(thoughts, vec![("r_1", "piece by piece"), ("r_2", "at once")]);
}

#[test]
fn messages_have_rows_by_their_role() {
    let row = |role: MessageRole| match message(1, role, "text").event {
        event => timeline_row_for_event("thr_1", 1, &event).unwrap(),
    };
    assert_eq!(text_of(&row(MessageRole::User), "role"), "user");
    assert_eq!(text_of(&row(MessageRole::Assistant), "role"), "assistant");
    assert_eq!(text_of(&row(MessageRole::System), "systemKind"), "debug");
    let status = DomainEvent::ThreadStatusChanged {
        thread_id: "thr_1".to_owned(),
        project_id: "proj_1".to_owned(),
        from: ThreadStatus::Idle,
        to: ThreadStatus::Working,
        at_ms: 1,
    };
    assert!(timeline_row_for_event("thr_1", 1, &status).is_none());
}

fn turn(start: Option<&str>, end: Option<&str>, cursor: Option<&str>) -> TurnSummaryDetailsQuery {
    TurnSummaryDetailsQuery {
        turn_id: Some("run_1".to_owned()),
        source_seq_start: start.map(str::to_owned),
        source_seq_end: end.map(str::to_owned),
        before_cursor: cursor.map(str::to_owned),
    }
}

#[test]
fn a_turn_is_read_by_its_range() {
    let entries: Vec<ThreadEntry> =
        (1..6).map(|n| message(n, MessageRole::Assistant, "a")).collect();
    let reply = thread_turn_summary_details("thr_1", &turn(Some("2"), Some("4"), None), &entries);
    assert_eq!(rows(&reply).len(), 3);
    let cut =
        thread_turn_summary_details("thr_1", &turn(Some("2"), Some("4"), Some("msg_3")), &entries);
    assert_eq!(rows(&cut).len(), 1);
    for (query, problem) in [
        (turn(None, Some("4"), None), "sourceSeqStart is required"),
        (turn(Some("2"), None, None), "sourceSeqEnd is required"),
        (
            TurnSummaryDetailsQuery { turn_id: None, ..turn(Some("2"), Some("4"), None) },
            "turnId is required",
        ),
        (
            turn(Some("2"), Some("4"), Some("nope")),
            "beforeCursor \"nope\" is not a row of turn range 2..4",
        ),
    ] {
        let reply = thread_turn_summary_details("thr_1", &query, &entries);
        assert_eq!(reply.status, 400);
        assert_eq!(text_of(&reply.body, "message"), problem);
    }
}

#[test]
fn an_output_is_the_last_answer() {
    let entries = vec![
        event(1, "item/completed", r#"{"item":{"type":"agentMessage","text":"first"}}"#),
        event(2, "item/completed", r#"{"item":{"type":"agentMessage","text":"last"}}"#),
        event(3, "item/completed", r#"{"item":{"type":"toolCall"}}"#),
    ];
    let reply = thread_output(&entries, &None);
    assert_eq!(text_of(&reply.body, "output"), "last");
    let folded = thread_output(&Vec::new(), &Some("folded".to_owned()));
    assert_eq!(text_of(&folded.body, "output"), "folded");
    assert!(thread_output(&Vec::new(), &None).body.get("output").unwrap().is_null());
}

#[test]
fn outlines_and_histories_are_made_of_prompts() {
    let entries = vec![
        message(1, MessageRole::User, "first"),
        message(2, MessageRole::Assistant, "answer"),
        message(3, MessageRole::User, "second"),
    ];
    assert_eq!(thread_conversation_outline(&entries).status, 200);
    assert_eq!(thread_prompt_history(&None, &entries).status, 200);
    assert_eq!(thread_prompt_history(&Some("x".to_owned()), &entries).status, 400);
}
