use loom_server::domain::{ProviderSpec, ThreadStatus};
use loom_server::json::{parse, Json};
use loom_server::queue::{
    create_queued_message, delete_queued_message, deliver_queued_message,
    drain_due_queued_messages, failure_recorded, list_queued_messages, message_marked,
    message_posted, parse_service_tier, queue_rearranged, queued_message_content,
    queued_message_created, queued_message_for_thread, queued_message_payload_value,
    queued_message_row, queued_message_value, send_queued_message, send_queued_outcome,
    text_from_queued_input, update_queued_message, CreateQueuedMessageRequest, DeliveryOutcome,
    DeliveryStep, QueueDrain, QueueEntry, QueueThread, QueuedMessage, QueuedMessagePayload,
    QueuedMessageStatus, SendQueuedMessageMode, ServiceTier, WaitingOn,
};

fn message(id: &str, send_at: Option<u64>) -> QueuedMessage {
    QueuedMessage {
        id: id.to_owned(),
        thread_id: "thr_1".to_owned(),
        sender_thread_id: None,
        initiator: "user".to_owned(),
        text: "hello".to_owned(),
        model: None,
        reasoning_level: None,
        permission_mode: None,
        service_tier: ServiceTier::Default,
        group_with_next: false,
        send_at,
        failure_reason: None,
        payload: QueuedMessagePayload::Inline,
        status: QueuedMessageStatus::Queued,
        created_at_ms: 5,
        updated_at_ms: 5,
    }
}

fn cancelled(id: &str) -> QueuedMessage {
    QueuedMessage { status: QueuedMessageStatus::Cancelled, ..message(id, None) }
}

fn providers() -> Vec<ProviderSpec> {
    vec![ProviderSpec { name: "pi".to_owned(), cwd: None, launch: Json::Null }]
}

fn json(text: &str) -> Json {
    parse(text.as_bytes()).unwrap()
}

fn text_of<'a>(value: &'a Json, key: &str) -> &'a str {
    value.get(key).unwrap().as_str().unwrap()
}

fn idle() -> Option<QueueThread> {
    Some(QueueThread { status: ThreadStatus::Idle, accepts_work: true })
}

#[test]
fn only_text_can_be_queued() {
    for (input, problem) in [
        ("{}", "input must be an array"),
        ("[]", "input must contain at least one block"),
        (r#"[{"text":"x"}]"#, "an input block needs a `type`"),
        (r#"[{"type":"text"}]"#, "a text block needs a `text` string"),
        (r#"[{"type":"text","text":"  "}]"#, "input must contain text"),
    ] {
        assert_eq!(text_from_queued_input(&json(input)), Err(problem.to_owned()), "{input}");
    }
    let image = text_from_queued_input(&json(r#"[{"type":"image"}]"#)).unwrap_err();
    assert!(image.contains("the `image` input block"), "{image}");
    assert_eq!(
        text_from_queued_input(&json(
            r#"[{"type":"text","text":"a"},{"type":"text","text":"b"}]"#
        )),
        Ok("ab".to_owned())
    );
}

#[test]
fn a_stored_prompt_reads_back_as_its_text() {
    let stored = queued_message_content("two words");
    assert_eq!(text_from_queued_input(&stored), Ok("two words".to_owned()));
}

#[test]
fn tiers_are_fast_or_default() {
    assert_eq!(parse_service_tier(&None), Ok(ServiceTier::Default));
    assert_eq!(parse_service_tier(&Some("default".to_owned())), Ok(ServiceTier::Default));
    assert_eq!(parse_service_tier(&Some("fast".to_owned())), Ok(ServiceTier::Fast));
    let refusal = parse_service_tier(&Some("a\"b".to_owned())).unwrap_err();
    assert_eq!(refusal.status, 400);
    assert_eq!(
        text_of(&refusal.body, "message"),
        "serviceTier must be `fast` or `default`, got \"a\\\"b\""
    );
}

fn request(input: &str) -> CreateQueuedMessageRequest {
    CreateQueuedMessageRequest {
        input: json(input),
        sender: Ok(None),
        model: Some("m".to_owned()),
        reasoning_level: None,
        permission_mode: None,
        service_tier: Some("fast".to_owned()),
    }
}

#[test]
fn a_prompt_is_stored_as_it_was_asked_for() {
    let stored = create_queued_message(
        "thr_1".to_owned(),
        request(r#"[{"type":"text","text":"hi"}]"#),
    )
    .unwrap();
    assert_eq!(stored.text, "hi");
    assert_eq!(stored.model.as_deref(), Some("m"));
    assert_eq!(stored.service_tier, ServiceTier::Fast);
    assert_eq!(stored.payload, QueuedMessagePayload::Inline);
    assert_eq!(
        create_queued_message("thr_1".to_owned(), request("[]")).unwrap_err().status,
        400
    );
    let bad_sender = CreateQueuedMessageRequest {
        sender: Err("bad id".to_owned()),
        ..request(r#"[{"type":"text","text":"hi"}]"#)
    };
    let refusal = create_queued_message("thr_1".to_owned(), bad_sender).unwrap_err();
    assert_eq!(text_of(&refusal.body, "message"), "bad id");
}

#[test]
fn a_row_says_what_it_waits_for() {
    let entry = |busy: bool, send_at: Option<u64>| QueueEntry {
        message: message("qmsg_1", send_at),
        thread_busy: busy,
    };
    let waiting = |row: &Json| {
        row.get("waitingOn")
            .and_then(|value| value.get("kind"))
            .and_then(|kind| kind.as_str())
            .map(|kind| kind.to_owned())
    };
    let busy = queued_message_row(&entry(true, None), 10, &providers());
    assert_eq!(waiting(&busy).as_deref(), Some("thread-busy"));
    let later = queued_message_row(&entry(false, Some(11)), 10, &providers());
    assert_eq!(waiting(&later).as_deref(), Some("time"));
    let listed = list_queued_messages(&vec![entry(true, None), entry(false, None)], 10, &providers());
    assert_eq!(listed.body.as_array().unwrap().len(), 2);
    let created = queued_message_created(&entry(true, None), 10, &providers());
    assert_eq!(created.status, 201);
    assert_eq!(created.body, busy);
    assert_eq!(queue_rearranged(&vec![entry(true, None)], 10, &providers()).status, 200);
    assert_eq!(text_of(&busy, "id"), "qmsg_1");
    let value = queued_message_value(&message("qmsg_1", None), Some(WaitingOn::ThreadBusy), &providers());
    assert_eq!(value, busy);
}

#[test]
fn a_repeat_carries_what_it_repeats() {
    let retry = QueuedMessagePayload::Retry {
        retry_of_turn_request_id: "creq_1".to_owned(),
        attempt: 2,
        reason: "Retry".to_owned(),
    };
    let value = queued_message_payload_value(&retry);
    assert_eq!(text_of(&value, "kind"), "retry");
    assert_eq!(value.get("attempt").unwrap().as_uint(), Some(2));
    assert_eq!(
        text_of(&queued_message_payload_value(&QueuedMessagePayload::Inline), "kind"),
        "inline"
    );
}

#[test]
fn messages_of_another_thread_are_not_found() {
    assert!(queued_message_for_thread(Some(message("q", None)), "thr_1", "q").is_ok());
    let other = queued_message_for_thread(Some(message("q", None)), "thr_2", "q").unwrap_err();
    assert_eq!(text_of(&other.body, "message"), "queued message q belongs to another thread");
    let none = queued_message_for_thread(None, "thr_1", "q").unwrap_err();
    assert_eq!(text_of(&none.body, "message"), "queued message q is not known");
}

#[test]
fn a_message_that_left_the_queue_cannot_be_changed() {
    assert!(delete_queued_message(Some(message("q", None)), "thr_1", "q").is_ok());
    let gone = delete_queued_message(Some(cancelled("q")), "thr_1", "q").unwrap_err();
    assert_eq!(gone.status, 409);
    assert_eq!(text_of(&gone.body, "code"), "queued_message_claim_lost");
    let text = json(r#"[{"type":"text","text":"new"}]"#);
    assert_eq!(
        update_queued_message(Some(message("q", None)), "thr_1", "q", &text),
        Ok("new".to_owned())
    );
    assert_eq!(
        update_queued_message(Some(cancelled("q")), "thr_1", "q", &text).unwrap_err().status,
        409
    );
    assert!(send_queued_message(
        Some(message("q", None)),
        "thr_1",
        "q",
        SendQueuedMessageMode::Auto
    )
    .is_ok());
    let steer = send_queued_message(
        Some(message("q", None)),
        "thr_1",
        "q",
        SendQueuedMessageMode::Steer,
    )
    .unwrap_err();
    assert_eq!(steer.status, 501);
}

#[test]
fn a_due_message_is_posted_to_a_thread_that_takes_it() {
    assert_eq!(
        deliver_queued_message(Some(message("q", Some(10))), idle(), false, 10),
        DeliveryStep::Post(message("q", Some(10)))
    );
    assert_eq!(
        deliver_queued_message(Some(message("q", Some(11))), idle(), false, 10),
        DeliveryStep::Done(DeliveryOutcome::StillQueued {
            message: message("q", Some(11)),
            waiting_on: WaitingOn::Time
        })
    );
    assert!(matches!(
        deliver_queued_message(Some(message("q", Some(11))), idle(), true, 10),
        DeliveryStep::Post(_)
    ));
    assert_eq!(
        deliver_queued_message(
            Some(message("q", None)),
            Some(QueueThread { status: ThreadStatus::Working, accepts_work: false }),
            true,
            10
        ),
        DeliveryStep::Done(DeliveryOutcome::StillQueued {
            message: message("q", None),
            waiting_on: WaitingOn::ThreadBusy
        })
    );
    assert_eq!(
        deliver_queued_message(
            Some(message("q", None)),
            Some(QueueThread { status: ThreadStatus::Archived, accepts_work: false }),
            false,
            10
        ),
        DeliveryStep::Fail {
            message: message("q", None),
            reason: "the thread is archived".to_owned()
        }
    );
    for (held, thread) in [(None, idle()), (Some(cancelled("q")), idle()), (Some(message("q", None)), None)] {
        assert_eq!(
            deliver_queued_message(held, thread, false, 10),
            DeliveryStep::Done(DeliveryOutcome::Unknown)
        );
    }
}

#[test]
fn a_delivery_is_marked_then_dispatched() {
    assert!(matches!(
        message_posted(message("q", None), Ok(true)),
        DeliveryStep::Mark { started: true, .. }
    ));
    assert!(matches!(
        message_posted(message("q", None), Err("no".to_owned())),
        DeliveryStep::Fail { .. }
    ));
    assert!(matches!(
        message_marked(message("q", None), true, Some(message("q", None))),
        DeliveryStep::Dispatch(_)
    ));
    assert!(matches!(
        message_marked(message("q", None), false, Some(message("q", None))),
        DeliveryStep::Done(DeliveryOutcome::Sent(_))
    ));
    assert!(matches!(
        message_marked(message("q", None), true, None),
        DeliveryStep::Fail { .. }
    ));
    assert!(matches!(
        failure_recorded("no".to_owned(), Some(message("q", None))),
        DeliveryOutcome::Failed { .. }
    ));
    assert_eq!(failure_recorded("no".to_owned(), None), DeliveryOutcome::Unknown);
}

#[test]
fn a_message_that_waits_is_handed_back_without_its_failure() {
    let failed = |send_at: Option<u64>| {
        let mut held = message("q", send_at);
        held.failure_reason = Some("no workspace".to_owned());
        Some(held)
    };
    assert_eq!(
        deliver_queued_message(failed(Some(11)), idle(), false, 10),
        DeliveryStep::Done(DeliveryOutcome::StillQueued {
            message: message("q", Some(11)),
            waiting_on: WaitingOn::Time
        })
    );
    assert_eq!(
        deliver_queued_message(
            failed(None),
            Some(QueueThread { status: ThreadStatus::Working, accepts_work: false }),
            true,
            10
        ),
        DeliveryStep::Done(DeliveryOutcome::StillQueued {
            message: message("q", None),
            waiting_on: WaitingOn::ThreadBusy
        })
    );
}

#[test]
fn the_answer_to_a_send_says_what_became_of_it() {
    let sent = send_queued_outcome(
        DeliveryOutcome::Sent(message("q", None)),
        false,
        "q",
        10,
        &providers(),
    );
    assert_eq!(text_of(&sent.body, "delivery"), "sent");
    let waits = send_queued_outcome(
        DeliveryOutcome::StillQueued { message: message("q", None), waiting_on: WaitingOn::Time },
        false,
        "q",
        10,
        &providers(),
    );
    assert_eq!(text_of(&waits.body, "delivery"), "queued");
    let lost = send_queued_outcome(DeliveryOutcome::Unknown, false, "q", 10, &providers());
    assert_eq!(lost.status, 409);
    assert_eq!(text_of(&lost.body, "message"), "queued message q is no longer queued");
}

#[test]
fn a_queue_is_drained_from_its_head_until_something_waits() {
    let mut drain = QueueDrain::new(vec![message("a", None), message("b", None), message("c", None)]);
    assert_eq!(drain.next().as_deref(), Some("a"));
    drain.attempted(&DeliveryOutcome::Sent(message("a", None)));
    assert_eq!(drain.next().as_deref(), Some("b"));
    drain.attempted(&DeliveryOutcome::StillQueued {
        message: message("b", None),
        waiting_on: WaitingOn::ThreadBusy,
    });
    assert_eq!(drain.next(), None);
    assert_eq!(drain.sent(), 1);
}

#[test]
fn a_sweep_reaches_each_thread_with_something_due_once() {
    let other = QueuedMessage { thread_id: "thr_2".to_owned(), ..message("c", Some(50)) };
    let due = drain_due_queued_messages(
        &vec![message("a", Some(1)), message("b", Some(2)), other],
        10,
    );
    assert_eq!(due, vec!["thr_1".to_owned()]);
}
