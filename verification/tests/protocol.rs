use loom_server::domain::{
    DomainEvent, HostStatus, Message, MessageRole, ProviderEvent, ReportedEvent, RunEvent,
    RunOutcome, ThreadEventItem, ThreadStatus, TurnStatus,
};
use loom_server::events::{
    event_bytes, event_json, frame_content, goal_cleared_event, provider_event, read_frame,
    run_event, FrameReading,
};
use loom_server::json::{parse, to_bytes, to_value, Json};
use loom_server::lifecycle::{RunAppend, RunBody};
use loom_server::protocol::{
    project_domain_event, public_messages_from_frame, ClientMessage, FrameContent,
    PublicChangeKind, PublicDisplayStatus, PublicEntity, ServerMessage, SubscriptionTarget,
    ThreadActivityMetadata, ThreadChangeMetadata, ThreadRuntimeMetadata, ThreadStatusMetadata,
    PROTOCOL_VERSION, PUBLIC_WS_SUBPROTOCOL,
};
use loom_server::turns::GoalCleared;
use loom_server::wire::{
    build_event_frame, parse_scope, replayed_frame, Scope, WorkerServerMessage,
};

fn known_types() -> Vec<String> {
    vec!["turn/started".to_owned(), "turn/completed".to_owned()]
}

fn changed(
    entity: PublicEntity,
    id: Option<&str>,
    metadata: Option<ThreadChangeMetadata>,
    change: PublicChangeKind,
) -> ServerMessage {
    ServerMessage::Changed {
        entity,
        id: id.map(str::to_owned),
        metadata,
        changes: vec![change],
    }
}

fn metadata() -> ThreadChangeMetadata {
    ThreadChangeMetadata {
        background_activity_changed: None,
        event_types: None,
        has_pending_interaction: None,
        project_id: None,
        status_change: None,
    }
}

fn spelled(text: &str) -> serde_json::Value {
    serde_json::from_str(text).unwrap()
}

fn appended(body: RunBody) -> RunEvent {
    run_event(RunAppend {
        thread_id: "thr_1".to_owned(),
        project_id: "proj_1".to_owned(),
        run_id: "run_1".to_owned(),
        at_ms: 3,
        body,
    })
}

fn reported(kind: &str, body: &str) -> ReportedEvent {
    ReportedEvent {
        run_id: "run_1".to_owned(),
        thread_id: "thr_1".to_owned(),
        at_ms: 3,
        kind: kind.to_owned(),
        thread_scoped: false,
        provider_thread_id: None,
        outcome: None,
        status: None,
        error: None,
        body: parse(body.as_bytes()).unwrap(),
    }
}

#[test]
fn public_protocol_uses_typed_targets_and_only_allowed_messages() {
    let subscribe = ClientMessage::Subscribe {
        target: SubscriptionTarget::ThreadDetail { thread_id: "thr_1".into() },
    };
    assert!(subscribe.is_valid());
    let empty = ClientMessage::Subscribe {
        target: SubscriptionTarget::ThreadDetail { thread_id: "".into() },
    };
    assert!(!empty.is_valid());
}

#[test]
fn every_detail_target_needs_an_id() {
    for (target, valid) in [
        (SubscriptionTarget::ThreadDetail { thread_id: String::new() }, false),
        (SubscriptionTarget::ProjectDetail { project_id: String::new() }, false),
        (SubscriptionTarget::EnvironmentDetail { environment_id: String::new() }, false),
        (SubscriptionTarget::HostDetail { host_id: String::new() }, false),
        (SubscriptionTarget::HostDetail { host_id: "h".to_owned() }, true),
        (SubscriptionTarget::ThreadList, true),
        (SubscriptionTarget::ProjectList, true),
        (SubscriptionTarget::EnvironmentList, true),
        (SubscriptionTarget::HostList, true),
        (SubscriptionTarget::System, true),
    ] {
        assert_eq!(target.is_valid(), valid, "{target:?}");
        assert_eq!(ClientMessage::Unsubscribe { target }.is_valid(), valid);
    }
    assert!(ClientMessage::Ping.is_valid());
}

#[test]
fn public_messages_match_the_exported_wire_shape() {
    let message = changed(
        PublicEntity::Thread,
        Some("thr_1"),
        None,
        PublicChangeKind::ThreadDeleted,
    );
    assert_eq!(
        to_value(&message.to_json()),
        spelled(
            r#"{
                "type": "changed",
                "entity": "thread",
                "id": "thr_1",
                "changes": ["thread-deleted"]
            }"#
        )
    );
    assert_eq!(
        to_value(&ServerMessage::Pong.to_json()),
        spelled(r#"{ "type": "pong" }"#)
    );
}

#[test]
fn an_automation_invalidation_reaches_project_subscribers() {
    let message = changed(
        PublicEntity::Project,
        Some("proj_1"),
        None,
        PublicChangeKind::ProjectUpdated,
    );
    assert!(message.is_valid(&known_types()));

    assert!(message.matches_target(&SubscriptionTarget::ProjectDetail {
        project_id: "proj_1".into()
    }));
    assert!(message.matches_target(&SubscriptionTarget::ProjectList));
    assert!(!message.matches_target(&SubscriptionTarget::ProjectDetail {
        project_id: "proj_2".into()
    }));
    assert!(!message.matches_target(&SubscriptionTarget::ThreadList));
}

#[test]
fn public_projection_rejects_cross_entity_and_invalid_metadata_payloads() {
    let invalid = [
        changed(PublicEntity::System, None, None, PublicChangeKind::ThreadDeleted),
        changed(
            PublicEntity::Project,
            Some("project"),
            Some(ThreadChangeMetadata {
                project_id: Some("project".to_owned()),
                ..metadata()
            }),
            PublicChangeKind::ProjectUpdated,
        ),
        changed(
            PublicEntity::Thread,
            Some("thread"),
            Some(ThreadChangeMetadata {
                event_types: Some(vec!["not/a/thread-event".to_owned()]),
                ..metadata()
            }),
            PublicChangeKind::EventsAppended,
        ),
        changed(
            PublicEntity::Thread,
            Some("thread"),
            Some(ThreadChangeMetadata {
                status_change: Some(ThreadStatusMetadata {
                    status: PublicDisplayStatus::Provisioning,
                    runtime: ThreadRuntimeMetadata {
                        display_status: PublicDisplayStatus::Provisioning,
                        host_reconnect_grace_expires_at: None,
                    },
                    activity: ThreadActivityMetadata {
                        active_workflow_count: 0,
                        active_background_agent_count: 0,
                        active_background_command_count: 0,
                        active_plan_mode_count: 0,
                        active_goal_count: 0,
                    },
                    latest_attention_at: 0,
                    updated_at: 0,
                }),
                ..metadata()
            }),
            PublicChangeKind::StatusChanged,
        ),
    ];

    for message in invalid {
        let shown = format!("{message:?}");
        let frame = build_event_frame(&Scope::Global, &to_bytes(&message.to_json()), "evt_1", 1);
        let reading = read_frame(&frame, &known_types());
        assert!(matches!(reading, FrameReading::Payload(_)), "{shown}");
        let content = frame_content(reading, Some(message), None);
        assert!(public_messages_from_frame(content, &known_types()).is_empty(), "{shown}");
    }
}

#[test]
fn a_system_change_names_nothing() {
    let named = changed(
        PublicEntity::System,
        Some("x"),
        None,
        PublicChangeKind::ConfigChanged,
    );
    assert!(!named.is_valid(&known_types()));
    let bare = changed(PublicEntity::System, None, None, PublicChangeKind::ConfigChanged);
    assert!(bare.is_valid(&known_types()));
    assert!(bare.matches_target(&SubscriptionTarget::System));
    assert_eq!(
        public_messages_from_frame(FrameContent::Message(bare), &known_types()).len(),
        1
    );
    assert!(public_messages_from_frame(FrameContent::Nothing, &known_types()).is_empty());
}

#[test]
fn worker_handshake_is_distinct_from_the_public_protocol() {
    let hello = WorkerServerMessage::Hello {
        protocol_version: 3,
        providers: Vec::new(),
    };
    assert_eq!(
        to_value(&hello.to_json()),
        spelled(r#"{ "type": "hello", "protocol_version": 3 }"#)
    );
    assert_eq!(PROTOCOL_VERSION, 3);
    assert_eq!(PUBLIC_WS_SUBPROTOCOL, "loom-bb-realtime-v1");
}

#[test]
fn a_hello_may_carry_the_provider_list() {
    let providers = r#"[{"name":"pi","args":[]}]"#;
    let listed = match parse(providers.as_bytes()).unwrap() {
        Json::Array(items) => items,
        other => panic!("expected a list, got {other:?}"),
    };
    let hello = WorkerServerMessage::Hello {
        protocol_version: 3,
        providers: listed,
    };
    let encoded = to_value(&hello.to_json());
    assert_eq!(encoded["providers"], spelled(providers));
}

#[test]
fn deleted_thread_events_project_to_thread_deleted() {
    let event = DomainEvent::ThreadUpdated {
        thread_id: "thr_1".to_owned(),
        project_id: "proj_1".to_owned(),
        deleted_at_ms: Some(2),
    };
    let message = project_domain_event(&event).into_iter().next().unwrap();
    let ServerMessage::Changed { changes, .. } = message else {
        panic!("expected a changed message");
    };
    assert!(changes.contains(&PublicChangeKind::ThreadDeleted));
}

#[test]
fn run_events_carry_project_and_provider_event_metadata() {
    let run = appended(RunBody::Terminal {
        outcome: RunOutcome::Failed,
        status: TurnStatus::Failed,
        error: Some("preflight failed".to_owned()),
    });
    let messages = project_domain_event(&DomainEvent::ThreadRunEvent { run });
    let message = messages.first().unwrap();
    assert!(message.matches_target(&SubscriptionTarget::ProjectDetail {
        project_id: "proj_1".to_owned(),
    }));
    let value = to_value(&message.to_json());
    assert_eq!(value["metadata"]["projectId"], "proj_1");
    assert_eq!(
        value["metadata"]["eventTypes"],
        spelled(r#"["turn/completed"]"#)
    );
    assert!(message.is_valid(&known_types()));
}

#[test]
fn internal_event_frames_project_to_public_changes() {
    let event = DomainEvent::ThreadStatusChanged {
        thread_id: "thr_1".to_owned(),
        project_id: "proj_1".to_owned(),
        from: ThreadStatus::Idle,
        to: ThreadStatus::Working,
        at_ms: 1,
    };
    let scope = Scope::Thread("thr_1".to_owned());
    let frame = build_event_frame(&scope, &event_bytes(&event), "evt_1", 1);
    let content = frame_content(read_frame(&frame, &known_types()), None, None);
    let public = public_messages_from_frame(content, &known_types())
        .into_iter()
        .next()
        .unwrap();
    assert!(public.matches_target(&SubscriptionTarget::ThreadDetail {
        thread_id: "thr_1".to_owned()
    }));
}

#[test]
fn machines_coming_and_going_change_what_is_available() {
    let away = project_domain_event(&DomainEvent::HostStatusChanged {
        host_id: "host_1".to_owned(),
        to: HostStatus::Disconnected,
    });
    assert_eq!(away.len(), 2);
    let ServerMessage::Changed { changes, .. } = &away[0] else {
        panic!("expected a changed message");
    };
    assert_eq!(changes, &vec![PublicChangeKind::HostDisconnected]);
    let ServerMessage::Changed { entity, id, changes, .. } = &away[1] else {
        panic!("expected a changed message");
    };
    assert_eq!(*entity, PublicEntity::System);
    assert!(id.is_none());
    assert_eq!(changes, &vec![PublicChangeKind::EnvironmentAvailabilityChanged]);

    let destroyed = project_domain_event(&DomainEvent::EnvironmentStatusChanged {
        environment_id: "env_1".to_owned(),
        to: "destroyed".to_owned(),
    });
    let ServerMessage::Changed { changes, .. } = &destroyed[0] else {
        panic!("expected a changed message");
    };
    assert_eq!(changes, &vec![PublicChangeKind::EnvironmentDeleted]);
}

#[test]
fn a_stored_frame_reads_back() {
    let frame = build_event_frame(
        &Scope::Thread("thr_1".to_owned()),
        br#"{"kind":"x"}"#,
        "evt_1",
        7,
    );
    let value = to_value(&replayed_frame(&frame));
    assert_eq!(
        value,
        spelled(
            r#"{
                "type": "event",
                "event_id": "evt_1",
                "scope": { "kind": "thread", "id": "thr_1" },
                "payload": "{\"kind\":\"x\"}",
                "created_at_ms": 7
            }"#
        )
    );
}

#[test]
fn a_stored_frame_is_written_in_its_own_order() {
    let frame = build_event_frame(&Scope::Global, b"x", "evt_1", 7);
    assert_eq!(
        String::from_utf8(frame).unwrap(),
        r#"{"type":"event","event_id":"evt_1","scope":{"kind":"global"},"payload":"x","created_at_ms":7}"#
    );
}

fn stored_run_event(kind: &str) -> DomainEvent {
    DomainEvent::ThreadRunEvent {
        run: appended(RunBody::Reported(reported(kind, r#"{"tokens":[1,-2]}"#))),
    }
}

fn read_back(event: &DomainEvent) -> DomainEvent {
    let scope = Scope::Thread("thr_1".to_owned());
    let frame = build_event_frame(&scope, &event_bytes(event), "evt_1", 7);
    match read_frame(&frame, &known_types()) {
        FrameReading::Event(event) => event,
        other => panic!("expected an event, got {other:?}"),
    }
}

#[test]
fn an_event_survives_its_stored_frame() {
    let message = Message {
        id: "msg_1".to_owned(),
        project_id: None,
        role: MessageRole::Assistant,
        content: "caf\u{e9} \"quoted\"".to_owned(),
        created_at_ms: 4,
    };
    let id = || "id_1".to_owned();
    let events = vec![
        DomainEvent::ProjectCreated { project_id: id() },
        DomainEvent::ProjectUpdated { project_id: id(), deleted_at_ms: Some(1) },
        DomainEvent::ThreadCreated { thread_id: id(), project_id: id() },
        DomainEvent::ThreadStatusChanged {
            thread_id: id(),
            project_id: id(),
            from: ThreadStatus::Working,
            to: ThreadStatus::Archived,
            at_ms: 2,
        },
        DomainEvent::ThreadMessageAdded { thread_id: id(), message },
        DomainEvent::ThreadUpdated { thread_id: id(), project_id: id(), deleted_at_ms: None },
        stored_run_event("turn/completed"),
        DomainEvent::ThreadQueuedMessageChanged { thread_id: id(), project_id: Some(id()) },
        DomainEvent::ThreadInteractionChanged { thread_id: id(), project_id: None, open: true },
        DomainEvent::HostRegistered { host_id: id(), status: HostStatus::Connected },
        DomainEvent::HostUpdated { host_id: id(), status: HostStatus::Disconnected },
        DomainEvent::HostStatusChanged { host_id: id(), to: HostStatus::Disconnected },
        DomainEvent::HostDeleted { host_id: id() },
        DomainEvent::EnvironmentCreated { environment_id: id() },
        DomainEvent::EnvironmentUpdated { environment_id: id() },
        DomainEvent::EnvironmentStatusChanged { environment_id: id(), to: "destroyed".to_owned() },
        DomainEvent::ThreadSectionCreated,
        DomainEvent::ThreadSectionUpdated,
        DomainEvent::ThreadSectionDeleted,
    ];
    for event in &events {
        let read = read_back(event);
        assert_eq!(to_value(&event_json(&read)), to_value(&event_json(event)));
        assert_eq!(project_domain_event(&read), project_domain_event(event));
    }
}

#[test]
fn a_verdict_survives_its_stored_frame() {
    for outcome in [
        RunOutcome::Completed,
        RunOutcome::Failed,
        RunOutcome::TimedOut,
        RunOutcome::HostStale,
        RunOutcome::Cancelled,
    ] {
        let run = appended(RunBody::Terminal {
            outcome,
            status: outcome.turn_status(),
            error: Some("why".to_owned()),
        });
        assert_eq!(run.outcome, Some(outcome));
        assert_eq!(RunOutcome::of_word(outcome.as_str()), Some(outcome));
        let DomainEvent::ThreadRunEvent { run } = read_back(&DomainEvent::ThreadRunEvent { run })
        else {
            panic!("expected a run's event");
        };
        assert_eq!(run.outcome, Some(outcome));
        assert_eq!(run.kind, "turn/completed");
        assert_eq!(
            to_value(&run.data),
            spelled(&format!(
                r#"{{ "type": "turn/completed", "status": "{}", "error": {{ "message": "why" }} }}"#,
                outcome.turn_status().as_str()
            ))
        );
    }
    assert_eq!(RunOutcome::of_word("lost"), None);
}

#[test]
fn a_fractional_number_does_not_keep_an_event_from_its_readers() {
    for body in [
        r##"{"cost":0.1,"deep":{"#":1,"$serde_json::private::RawValue":"2"}}"##,
        r#"{"most":1.7976931348623157e308,"least":[5e-324,-0.0,1.0]}"#,
    ] {
        let run = appended(RunBody::Reported(reported("turn/completed", body)));
        let event = DomainEvent::ThreadRunEvent { run };
        let read = read_back(&event);
        assert_eq!(project_domain_event(&read), project_domain_event(&event));
    }
}

#[test]
fn an_appended_event_wears_its_runs_own_envelope() {
    let started = appended(RunBody::Started { provider_thread_id: "acp-1".to_owned() });
    assert_eq!(started.outcome, None);
    assert_eq!(
        to_value(&started.value),
        spelled(
            r#"{
                "type": "turn/started",
                "threadId": "thr_1",
                "scope": { "kind": "turn", "turnId": "run_1" },
                "providerThreadId": "acp-1"
            }"#
        )
    );
    let failed = appended(RunBody::Terminal {
        outcome: RunOutcome::TimedOut,
        status: TurnStatus::Failed,
        error: Some("late".to_owned()),
    });
    assert_eq!(
        to_value(&failed.data),
        spelled(
            r#"{ "type": "turn/completed", "status": "failed", "error": { "message": "late" } }"#
        )
    );
    let claimed = r#"{"type":"x","threadId":"thr_9","scope":{"kind":"turn","turnId":"r9"},"k":1}"#;
    let forwarded = appended(RunBody::Reported(reported("turn/started", claimed)));
    assert_eq!(
        to_value(&forwarded.value),
        spelled(
            r#"{
                "type": "turn/started",
                "threadId": "thr_1",
                "scope": { "kind": "turn", "turnId": "run_1" },
                "k": 1
            }"#
        )
    );
    let diagnosed = appended(RunBody::ProviderError {
        provider_thread_id: "acp-1".to_owned(),
        message: "gone".to_owned(),
    });
    assert_eq!(diagnosed.kind, "provider/error");
    let mut identity = reported("thread/identity", "{}");
    identity.thread_scoped = true;
    assert_eq!(
        to_value(&appended(RunBody::Reported(identity)).scope),
        spelled(r#"{ "kind": "thread" }"#)
    );
    let stored = to_value(&event_json(&DomainEvent::ThreadRunEvent { run: failed }));
    assert_eq!(stored["type"], "thread_run_event");
    assert_eq!(stored["run_id"], "run_1");
    assert_eq!(stored["outcome"], "timed_out");
    assert_eq!(stored["event"]["type"], "turn/completed");
    assert_eq!(stored["event"]["scope"]["turnId"], "run_1");
    assert_eq!(stored["event"]["error"]["message"], "late");
}

#[test]
fn a_cleared_goal_is_an_event_of_its_thread() {
    let run = goal_cleared_event(GoalCleared {
        thread_id: "thr_1".to_owned(),
        project_id: "proj_1".to_owned(),
        run_id: "run_1".to_owned(),
        at_ms: 3,
        provider_thread_id: "thr_1".to_owned(),
    });
    assert_eq!(run.kind, "thread/goal/cleared");
    assert_eq!(to_value(&run.scope), spelled(r#"{ "kind": "thread" }"#));
    assert_eq!(
        to_value(&run.data),
        spelled(r#"{ "type": "thread/goal/cleared", "providerThreadId": "thr_1" }"#)
    );
}

#[test]
fn a_frame_without_a_scope_of_its_own_holds_no_event() {
    let frame = |scope: &str| {
        format!(
            r#"{{"type":"event","event_id":"e","scope":{scope},"payload":"{{\"type\":\"thread_section_created\"}}","created_at_ms":1}}"#
        )
    };
    let reads = |scope: &str| read_frame(frame(scope).as_bytes(), &known_types());
    assert_eq!(
        reads(r#"{"kind":"global"}"#),
        FrameReading::Event(DomainEvent::ThreadSectionCreated)
    );
    assert_eq!(
        reads(r#"{"kind":"host","id":"h"}"#),
        FrameReading::Event(DomainEvent::ThreadSectionCreated)
    );
    assert_eq!(reads("7"), FrameReading::Other);
    assert_eq!(reads(r#"{"kind":"global","id":"x"}"#), FrameReading::Other);
    assert_eq!(reads(r#"{"kind":"host"}"#), FrameReading::Other);
    assert_eq!(reads(r#"{"kind":"planet","id":"x"}"#), FrameReading::Other);
}

#[test]
fn an_event_of_no_known_type_is_not_projected() {
    let event = stored_run_event("not/a/thread-event");
    let frame = build_event_frame(&Scope::Global, &event_bytes(&event), "evt_1", 7);
    assert!(matches!(read_frame(&frame, &known_types()), FrameReading::Payload(_)));
}

#[test]
fn what_is_no_event_is_read_as_what_it_is() {
    let frame = build_event_frame(&Scope::Global, br#"{"type":"pong"}"#, "evt_1", 7);
    let known = known_types();
    let reading = read_frame(&frame, &known);
    assert_eq!(reading, FrameReading::Payload(r#"{"type":"pong"}"#.to_owned()));
    assert_eq!(
        frame_content(reading, Some(ServerMessage::Pong), None),
        FrameContent::Message(ServerMessage::Pong)
    );
    assert_eq!(
        frame_content(FrameReading::Payload("x".to_owned()), None, Some(ServerMessage::Pong)),
        FrameContent::Nothing
    );
    assert_eq!(read_frame(br#"{"type":"pong"}"#, &known), FrameReading::Other);
    assert_eq!(read_frame(b"not json", &known), FrameReading::Other);
    assert_eq!(
        frame_content(FrameReading::Other, None, Some(ServerMessage::Pong)),
        FrameContent::Message(ServerMessage::Pong)
    );
}

#[test]
fn a_providers_event_is_read_by_its_type() {
    let read = |kind: &str, text: &str| provider_event(kind, &parse(text.as_bytes()).unwrap());
    assert_eq!(
        read("item/reasoning/textDelta", r#"{"itemId":"r","delta":"d"}"#),
        ProviderEvent::ItemReasoningTextDelta { item_id: "r".to_owned(), delta: "d".to_owned() }
    );
    assert_eq!(
        read(
            "item/completed",
            r#"{"item":{"type":"reasoning","id":"r","summary":["a",1,"b"],"content":[]}}"#
        ),
        ProviderEvent::ItemCompleted {
            item: ThreadEventItem::Reasoning {
                id: "r".to_owned(),
                summary: vec!["a".to_owned(), "b".to_owned()],
                content: Vec::new(),
            }
        }
    );
    assert_eq!(
        read("item/started", r#"{"item":{"type":"search","id":"s"}}"#),
        ProviderEvent::ItemStarted { item: ThreadEventItem::Search { id: "s".to_owned() } }
    );
    assert_eq!(
        read("provider/modelFallback", r#"{"originalModel":"a","fallbackModel":"b"}"#),
        ProviderEvent::ProviderModelFallback {
            original_model: "a".to_owned(),
            fallback_model: "b".to_owned()
        }
    );
    assert_eq!(read("item/reasoning/textDelta", "{}"), ProviderEvent::Other);
}

#[test]
fn a_frame_that_is_not_json_is_replayed_as_text() {
    assert_eq!(
        replayed_frame(&[b'o', b'k', 0xff]),
        Json::text("ok\u{FFFD}")
    );
}

#[test]
fn scopes_are_spelled_by_kind_and_id() {
    assert_eq!(parse_scope("global", &None), Ok(Scope::Global));
    for (kind, scope) in [
        ("project", Scope::Project("x".to_owned())),
        ("thread", Scope::Thread("x".to_owned())),
        ("host", Scope::Host("x".to_owned())),
        ("client", Scope::Client("x".to_owned())),
        ("user", Scope::User("x".to_owned())),
    ] {
        assert_eq!(parse_scope(kind, &Some("x".to_owned())), Ok(scope));
        let missing = Err(format!("scope id is required for kind \"{kind}\""));
        assert_eq!(parse_scope(kind, &None), missing);
        assert_eq!(parse_scope(kind, &Some(String::new())), missing);
    }
    assert_eq!(
        parse_scope("moon", &None),
        Err("unknown scope kind \"moon\"".to_owned())
    );
    assert_eq!(
        to_value(&Scope::Global.to_json()),
        spelled(r#"{ "kind": "global" }"#)
    );
}

#[test]
fn worker_messages_are_spelled_on_the_wire() {
    let scope = || Scope::Host("host_1".to_owned());
    let host = r#"{ "kind": "host", "id": "host_1" }"#;
    for (message, text) in [
        (
            WorkerServerMessage::Subscribed { scope: scope(), first_subscriber: true },
            format!(r#"{{ "type": "subscribed", "scope": {host}, "first_subscriber": true }}"#),
        ),
        (
            WorkerServerMessage::Unsubscribed { scope: scope() },
            format!(r#"{{ "type": "unsubscribed", "scope": {host} }}"#),
        ),
        (WorkerServerMessage::Pong, r#"{ "type": "pong" }"#.to_owned()),
        (
            WorkerServerMessage::Error { message: "no".to_owned() },
            r#"{ "type": "error", "message": "no" }"#.to_owned(),
        ),
        (
            WorkerServerMessage::HostEnrolled { host: Json::Null, event_id: "e".to_owned() },
            r#"{ "type": "host_enrolled", "host": null, "event_id": "e" }"#.to_owned(),
        ),
        (
            WorkerServerMessage::HostHeartbeatAck {
                host_id: "h".to_owned(),
                last_seen_at_ms: 4,
            },
            r#"{ "type": "host_heartbeat_ack", "host_id": "h", "last_seen_at_ms": 4 }"#.to_owned(),
        ),
        (
            WorkerServerMessage::HostDisconnected { host_id: "h".to_owned() },
            r#"{ "type": "host_disconnected", "host_id": "h" }"#.to_owned(),
        ),
        (
            WorkerServerMessage::RunReportAck {
                run_id: "r".to_owned(),
                accepted: false,
                detail: Some("why".to_owned()),
            },
            r#"{ "type": "run_report_ack", "run_id": "r", "accepted": false, "detail": "why" }"#
                .to_owned(),
        ),
        (
            WorkerServerMessage::InteractionRequestAck {
                request_id: "q".to_owned(),
                interaction_id: None,
                accepted: true,
                detail: None,
            },
            r#"{ "type": "interaction_request_ack", "request_id": "q", "accepted": true }"#
                .to_owned(),
        ),
        (
            WorkerServerMessage::EnvironmentReportAck {
                environment_id: "e".to_owned(),
                accepted: true,
                detail: None,
            },
            r#"{ "type": "environment_report_ack", "environment_id": "e", "accepted": true }"#
                .to_owned(),
        ),
        (
            WorkerServerMessage::ReplayComplete { scope: scope(), count: 2, has_more: false },
            format!(
                r#"{{ "type": "replay_complete", "scope": {host}, "count": 2, "has_more": false }}"#
            ),
        ),
    ] {
        assert_eq!(to_value(&message.to_json()), spelled(&text));
    }
}
