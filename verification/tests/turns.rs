use loom_server::dispatch::DispatchOutcome;
use loom_server::domain::{
    DomainEvent, Message, MessageRole, ProviderSpec, Thread, ThreadStatus, ThreadTrigger,
};
use loom_server::json::{parse, Json};
use loom_server::queue::{
    NewQueuedMessage, QueuedMessage, QueuedMessagePayload, QueuedMessageStatus, ServiceTier,
    WaitingOn,
};
use loom_server::reply::CommandError;
use loom_server::timeline::ThreadEntry;
use loom_server::turns::{
    append_thread_message, archived_together, cancel_thread_plan, clear_thread_context,
    clear_thread_goal, compact_thread, create_thread_input_text, delete_thread,
    edit_thread_message, fork_thread, open_delivered, open_thread, resolve_thread_mentions,
    retry_dispatched, retry_moved, retry_queued, retry_thread, send_delivered, send_queued,
    send_thread, text_from_send_input, CreateThreadEnvironment, CreateThreadOrigin,
    CreateThreadRequest, OpenThreadFile, RetryStep, RetryThreadRequest, SendInput, SendMode,
    SendStep, SendThreadRequest, TurnError, TurnStep,
};

fn thread(status: ThreadStatus) -> Thread {
    Thread {
        id: "thr_1".to_owned(),
        project_id: "proj_1".to_owned(),
        environment_id: None,
        provider_id: None,
        model: Some("m".to_owned()),
        reasoning_level: None,
        title: Some("title".to_owned()),
        section_id: None,
        status,
        parent_thread_id: None,
        source_thread_id: None,
        origin_kind: None,
        origin_plugin_id: None,
        visibility: "visible".to_owned(),
        archived_at_ms: None,
        pinned_at_ms: None,
        pin_sort_key: None,
        deleted_at_ms: None,
        last_read_at_ms: None,
        created_at_ms: 1,
        updated_at_ms: 1,
        provider_session_id: None,
        provider_session_binding: None,
    }
}

fn request(mode: SendMode, text: &str, send_at: Option<u64>) -> SendThreadRequest {
    SendThreadRequest {
        input: vec![SendInput::Text { text: text.to_owned() }],
        mode,
        send_at,
        model: Some("m2".to_owned()),
        reasoning_level: None,
        permission_mode: None,
        service_tier: None,
        sender: Ok(None),
    }
}

fn entry(sequence: u64, event: DomainEvent) -> ThreadEntry {
    ThreadEntry {
        event_id: format!("evt_{sequence}"),
        sequence,
        created_at_ms: sequence,
        event,
    }
}

fn prompt(sequence: u64, content: &str) -> ThreadEntry {
    entry(
        sequence,
        DomainEvent::ThreadMessageAdded {
            thread_id: "thr_1".to_owned(),
            message: Message {
                id: format!("msg_{sequence}"),
                project_id: None,
                role: MessageRole::User,
                content: content.to_owned(),
                created_at_ms: sequence,
            },
        },
    )
}

fn run_started(sequence: u64) -> ThreadEntry {
    entry(
        sequence,
        DomainEvent::ThreadStatusChanged {
            thread_id: "thr_1".to_owned(),
            project_id: "proj_1".to_owned(),
            from: ThreadStatus::Idle,
            to: ThreadStatus::Working,
            at_ms: sequence,
        },
    )
}

fn stored(message: NewQueuedMessage) -> QueuedMessage {
    QueuedMessage {
        id: "qmsg_1".to_owned(),
        thread_id: message.thread_id,
        sender_thread_id: message.sender_thread_id,
        initiator: "user".to_owned(),
        text: message.text,
        model: message.model,
        reasoning_level: message.reasoning_level,
        permission_mode: message.permission_mode,
        service_tier: message.service_tier,
        group_with_next: false,
        send_at: message.send_at,
        failure_reason: None,
        payload: message.payload,
        status: QueuedMessageStatus::Queued,
        created_at_ms: 1,
        updated_at_ms: 1,
    }
}

fn providers() -> Vec<ProviderSpec> {
    vec![ProviderSpec { name: "pi".to_owned(), cwd: None, launch: Json::Null }]
}

fn text_of<'a>(value: &'a Json, key: &str) -> &'a str {
    value.get(key).unwrap().as_str().unwrap()
}

#[test]
fn a_send_is_the_text_of_its_blocks() {
    let blocks = [
        SendInput::Text { text: "a".to_owned() },
        SendInput::Text { text: "b".to_owned() },
    ];
    assert_eq!(text_from_send_input(&blocks).as_deref(), Some("ab"));
    assert!(text_from_send_input(&[]).is_none());
    assert!(text_from_send_input(&[SendInput::Text { text: "  ".to_owned() }]).is_none());
}

#[test]
fn an_idle_thread_is_sent_to() {
    match send_thread(&thread(ThreadStatus::Idle), false, request(SendMode::Auto, "go", None), 5) {
        SendStep::Send { content, options } => {
            assert_eq!(content, "go");
            assert_eq!(options.unwrap().model.as_deref(), Some("m2"));
        }
        other => panic!("expected a send, got {other:?}"),
    }
    assert_eq!(text_of(&send_delivered().body, "delivery"), "sent");
}

#[test]
fn a_busy_thread_queues_what_asks_to_be_queued() {
    for mode in [SendMode::Auto, SendMode::QueueIfActive] {
        match send_thread(&thread(ThreadStatus::Working), false, request(mode, "go", None), 5) {
            SendStep::Queue { message, waiting_on } => {
                assert_eq!(message.text, "go");
                assert_eq!(waiting_on, WaitingOn::ThreadBusy);
                let reply = send_queued(&stored(message), waiting_on, &providers());
                assert_eq!(text_of(&reply.body, "delivery"), "queued");
            }
            other => panic!("expected a queued message, got {other:?}"),
        }
    }
    match send_thread(&thread(ThreadStatus::Idle), true, request(SendMode::Start, "go", None), 5) {
        SendStep::Refuse(reply) => {
            assert_eq!(reply.status, 501);
            assert_eq!(
                text_of(&reply.body, "message"),
                "thread thr_1 is idle; a `start` send needs the queue, which this client did not ask for"
            );
        }
        other => panic!("expected a refusal, got {other:?}"),
    }
    for mode in [SendMode::Steer, SendMode::SteerIfActive] {
        match send_thread(&thread(ThreadStatus::Working), false, request(mode, "go", None), 5) {
            SendStep::Refuse(reply) => assert_eq!(
                text_of(&reply.body, "message"),
                "loom's provider protocol cannot steer a running turn; thread thr_1 is working"
            ),
            other => panic!("expected a refusal, got {other:?}"),
        }
    }
}

#[test]
fn a_scheduled_send_waits_for_its_time() {
    assert!(matches!(
        send_thread(&thread(ThreadStatus::Idle), false, request(SendMode::Auto, "go", Some(6)), 5),
        SendStep::Queue { waiting_on: WaitingOn::Time, .. }
    ));
    assert!(matches!(
        send_thread(&thread(ThreadStatus::Idle), false, request(SendMode::Auto, "go", Some(5)), 5),
        SendStep::Send { .. }
    ));
}

#[test]
fn a_blank_or_ill_formed_send_is_refused() {
    match send_thread(&thread(ThreadStatus::Idle), false, request(SendMode::Auto, " ", None), 5) {
        SendStep::Refuse(reply) => assert_eq!(reply.status, 400),
        other => panic!("expected a refusal, got {other:?}"),
    }
    let bad_tier = SendThreadRequest {
        service_tier: Some("slow".to_owned()),
        ..request(SendMode::Auto, "go", None)
    };
    assert!(matches!(
        send_thread(&thread(ThreadStatus::Working), false, bad_tier, 5),
        SendStep::Refuse(_)
    ));
    let bad_sender = SendThreadRequest {
        sender: Err("bad".to_owned()),
        ..request(SendMode::Auto, "go", None)
    };
    assert!(matches!(
        send_thread(&thread(ThreadStatus::Working), false, bad_sender, 5),
        SendStep::Refuse(_)
    ));
}

fn retry(well_formed_id: bool, send_at: Option<u64>) -> RetryThreadRequest {
    RetryThreadRequest {
        reason: None,
        send_at,
        turn_request_id: "creq_1".to_owned(),
        well_formed_id,
    }
}

#[test]
fn a_repeat_runs_the_last_prompt_again() {
    let entries = vec![prompt(1, "first"), run_started(2), prompt(3, "last")];
    match retry_thread(&thread(ThreadStatus::Error), &retry(true, None), &entries, &Vec::new(), false, 5)
    {
        RetryStep::Run { trigger, prompt, attempt } => {
            assert_eq!(trigger, ThreadTrigger::Retry);
            assert_eq!(prompt, "last");
            assert_eq!(attempt, 1);
        }
        other => panic!("expected a run, got {other:?}"),
    }
    match retry_thread(&thread(ThreadStatus::Working), &retry(true, None), &entries, &Vec::new(), false, 5)
    {
        RetryStep::Queue { message, waiting_on, attempt } => {
            assert_eq!(waiting_on, WaitingOn::ThreadBusy);
            assert_eq!(message.model.as_deref(), Some("m"));
            assert_eq!(
                message.payload,
                QueuedMessagePayload::Retry {
                    retry_of_turn_request_id: "creq_1".to_owned(),
                    attempt,
                    reason: "Retry".to_owned()
                }
            );
            let reply = retry_queued("creq_1", attempt, &stored(message), waiting_on);
            assert_eq!(reply.status, 200);
        }
        other => panic!("expected a queued repeat, got {other:?}"),
    }
}

#[test]
fn each_repeat_has_the_next_number() {
    let entries = vec![prompt(1, "p"), run_started(2), run_started(3)];
    let queued = NewQueuedMessage {
        thread_id: "thr_1".to_owned(),
        sender_thread_id: None,
        text: "p".to_owned(),
        model: None,
        reasoning_level: None,
        permission_mode: None,
        service_tier: ServiceTier::Default,
        send_at: None,
        payload: QueuedMessagePayload::Retry {
            retry_of_turn_request_id: "creq_1".to_owned(),
            attempt: 2,
            reason: "Retry".to_owned(),
        },
    };
    match retry_thread(
        &thread(ThreadStatus::Idle),
        &retry(true, None),
        &entries,
        &vec![stored(queued)],
        false,
        5,
    ) {
        RetryStep::Run { trigger, attempt, .. } => {
            assert_eq!(trigger, ThreadTrigger::RunStarted);
            assert_eq!(attempt, 3);
        }
        other => panic!("expected a run, got {other:?}"),
    }
}

fn attempt_of(entries: &Vec<ThreadEntry>, queue: &Vec<QueuedMessage>) -> u64 {
    match retry_thread(&thread(ThreadStatus::Error), &retry(true, None), entries, queue, false, 50) {
        RetryStep::Run { attempt, .. } => attempt,
        other => panic!("expected a run, got {other:?}"),
    }
}

fn queued_retry(text: &str, created_at_ms: u64) -> QueuedMessage {
    let mut held = stored(NewQueuedMessage {
        thread_id: "thr_1".to_owned(),
        sender_thread_id: None,
        text: text.to_owned(),
        model: None,
        reasoning_level: None,
        permission_mode: None,
        service_tier: ServiceTier::Default,
        send_at: None,
        payload: QueuedMessagePayload::Retry {
            retry_of_turn_request_id: "creq_1".to_owned(),
            attempt: 1,
            reason: "Retry".to_owned(),
        },
    });
    held.created_at_ms = created_at_ms;
    held.updated_at_ms = created_at_ms;
    held
}

#[test]
fn the_first_repeat_of_every_turn_is_the_first() {
    let mut entries = vec![prompt(1, "first"), run_started(2), run_started(3)];
    assert_eq!(attempt_of(&entries, &Vec::new()), 2);
    entries.push(prompt(4, "second"));
    entries.push(run_started(5));
    assert_eq!(attempt_of(&entries, &Vec::new()), 1);
    assert_eq!(attempt_of(&entries, &vec![queued_retry("first", 3)]), 1);
    assert_eq!(attempt_of(&entries, &vec![queued_retry("second", 6)]), 2);
    entries.push(run_started(7));
    assert_eq!(attempt_of(&entries, &Vec::new()), 2);
}

#[test]
fn a_repeat_from_the_queue_is_counted_once() {
    let mut delivered = queued_retry("p", 4);
    delivered.status = QueuedMessageStatus::Sent;
    delivered.updated_at_ms = 5;
    let entries = vec![
        prompt(1, "p"),
        run_started(2),
        run_started(3),
        prompt(5, "p"),
        run_started(6),
    ];
    assert_eq!(attempt_of(&entries, &vec![delivered]), 3);
}

#[test]
fn a_repeat_that_cannot_be_is_refused() {
    let entries = vec![prompt(1, "p")];
    let refusal = |status: ThreadStatus, request: RetryThreadRequest, entries: Vec<ThreadEntry>| {
        match retry_thread(&thread(status), &request, &entries, &Vec::new(), false, 5) {
            RetryStep::Refuse(reply) => text_of(&reply.body, "message").to_owned(),
            other => panic!("expected a refusal, got {other:?}"),
        }
    };
    assert_eq!(
        refusal(ThreadStatus::Archived, retry(true, None), entries),
        "thread thr_1 is archived"
    );
    assert_eq!(
        refusal(ThreadStatus::Idle, retry(false, None), vec![prompt(1, "p")]),
        "turnRequestId \"creq_1\" is not a creq_ id"
    );
    assert_eq!(
        refusal(ThreadStatus::Idle, retry(true, None), Vec::new()),
        "thread thr_1 has no user turn to retry"
    );
}

#[test]
fn a_repeat_is_told_what_became_of_its_dispatch() {
    let told = |outcome: DispatchOutcome| retry_dispatched("thr_1", "creq_1", 2, outcome);
    assert_eq!(
        told(DispatchOutcome::AlreadyInFlight { run_id: "run_1".to_owned() }).status,
        409
    );
    assert_eq!(
        told(DispatchOutcome::NoHost { run_id: "run_1".to_owned(), reason: "x".to_owned() }).status,
        502
    );
    assert_eq!(
        told(DispatchOutcome::NoEnvironment { run_id: "run_1".to_owned(), reason: "x".to_owned() })
            .status,
        409
    );
    assert!(retry_moved("thr_1", Ok(true)).is_none());
    assert!(retry_moved("thr_1", Ok(false)).is_some());
    assert!(retry_moved("thr_1", Err(CommandError::Conflict("x".to_owned()))).is_some());
}

#[test]
fn a_message_starts_a_turn_where_it_moves_the_thread() {
    let moved = DomainEvent::ThreadStatusChanged {
        thread_id: "thr_1".to_owned(),
        project_id: "proj_1".to_owned(),
        from: ThreadStatus::Idle,
        to: ThreadStatus::Working,
        at_ms: 1,
    };
    assert_eq!(append_thread_message(Ok(vec![moved]), Ok(())), TurnStep::Dispatch);
    assert_eq!(append_thread_message(Ok(Vec::new()), Ok(())), TurnStep::Appended);
    assert_eq!(
        append_thread_message(Ok(Vec::new()), Err("disk".to_owned())),
        TurnStep::Failed(TurnError::Publish("disk".to_owned()))
    );
    let refused = append_thread_message(Err(CommandError::NotFound("gone".to_owned())), Ok(()));
    let TurnStep::Failed(error) = refused else {
        panic!("expected a failure");
    };
    assert_eq!(error.reason(), "gone");
    assert_eq!(error.into_response().status, 404);
}

#[test]
fn a_new_thread_takes_its_environment_and_first_prompt() {
    let request = |environment: CreateThreadEnvironment| CreateThreadRequest {
        project_id: "proj_1".to_owned(),
        origin: CreateThreadOrigin::App,
        input: Vec::new(),
        environment,
        title: None,
        provider_id: None,
        model: None,
        reasoning_level: None,
    };
    let reuse = CreateThreadEnvironment::Reuse { environment_id: "env_1".to_owned() };
    assert_eq!(request(reuse).environment_id().as_deref(), Some("env_1"));
    assert!(request(CreateThreadEnvironment::ProjectDefault).environment_id().is_none());
    assert_eq!(create_thread_input_text(Vec::new()), Ok(None));
    let block = |text: &str| parse(text.as_bytes()).unwrap();
    assert_eq!(
        create_thread_input_text(vec![block(r#"{"type":"text","text":"go"}"#)]),
        Ok(Some("go".to_owned()))
    );
    assert!(create_thread_input_text(vec![block(r#"{"type":"image"}"#)]).is_err());
}

#[test]
fn a_thread_with_children_is_deleted_on_confirmation() {
    assert!(delete_thread("thr_1", 0, false).is_none());
    assert!(delete_thread("thr_1", 2, true).is_none());
    assert_eq!(delete_thread("thr_1", 2, false).unwrap().status, 409);
}

#[test]
fn what_the_provider_protocol_lacks_is_refused() {
    for reply in [
        compact_thread("thr_1"),
        edit_thread_message("thr_1"),
        clear_thread_context("thr_1"),
        cancel_thread_plan("thr_1"),
    ] {
        assert_eq!(reply.status, 501);
        assert_eq!(text_of(&reply.body, "code"), "not_configured");
        assert!(text_of(&reply.body, "message").contains("thr_1"));
    }
}

#[test]
fn a_thread_cannot_be_forked() {
    let open = fork_thread(&thread(ThreadStatus::Idle));
    assert_eq!(open.status, 400);
    assert_eq!(text_of(&open.body, "code"), "fork_source_session_unavailable");
    let held = fork_thread(&Thread {
        provider_session_id: Some("s".to_owned()),
        ..thread(ThreadStatus::Idle)
    });
    assert_eq!(held.status, 501);
    let archived = fork_thread(&Thread {
        archived_at_ms: Some(7),
        ..thread(ThreadStatus::Archived)
    });
    assert_eq!(archived.status, 409);
    assert_eq!(text_of(archived.body.get("details").unwrap(), "reason"), "archived");
}

#[test]
fn a_cleared_goal_is_an_event_of_its_run() {
    let cleared = clear_thread_goal(
        &thread(ThreadStatus::Idle),
        Some("run_1".to_owned()),
        "run_2".to_owned(),
        8,
    );
    assert_eq!(cleared.run_id, "run_1");
    assert_eq!(cleared.thread_id, "thr_1");
    assert_eq!(cleared.at_ms, 8);
    let between = clear_thread_goal(&thread(ThreadStatus::Idle), None, "run_2".to_owned(), 8);
    assert_eq!(between.run_id, "run_2");
}

#[test]
fn a_client_is_asked_to_open_a_thread() {
    let file = OpenThreadFile {
        source: "workspace".to_owned(),
        path: "src/lib.rs".to_owned(),
        line_number: Some(3),
    };
    let asked = open_thread("thr_1", &Some(file), &Some("right".to_owned()), 4);
    assert_eq!(text_of(&asked, "threadId"), "thr_1");
    assert_eq!(text_of(asked.get("file").unwrap(), "path"), "src/lib.rs");
    assert_eq!(open_delivered(2).status, 200);
    let known = resolve_thread_mentions(&vec![thread(ThreadStatus::Idle)]);
    assert_eq!(known.status, 200);
    assert_eq!(archived_together(&vec!["thr_1".to_owned()]).status, 200);
}
