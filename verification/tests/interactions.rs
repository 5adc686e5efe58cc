use loom_server::domain::ProviderSpec;
use loom_server::interactions::{
    deliver_interaction_resolution, deliver_interaction_response, deterministic_interaction_id,
    interaction_in_thread, interaction_resolved, interaction_value, is_interaction_id,
    respond_refusal, resolve_refusal, thread_interactions, DeliverOutcome, Interaction,
    InteractionOrigin, InteractionRequest, PermissionDecision, RecordOutcome, Resolution,
    ResolveInteractionRequest, SettleVerb,
};
use loom_server::json::Json;
use loom_server::runs::{RunRecord, RunRegistry};

fn providers() -> Vec<ProviderSpec> {
    vec![ProviderSpec { name: "pi".to_owned(), cwd: None, launch: Json::Null }]
}

fn registry() -> RunRegistry {
    let mut registry = RunRegistry::new();
    registry.insert(RunRecord {
        run_id: "run_1".to_owned(),
        thread_id: "thr_1".to_owned(),
        project_id: "proj_1".to_owned(),
        host_id: "host_1".to_owned(),
        cwd: "/srv/project-a".to_owned(),
        started_at_ms: 1,
        deadline_ms: 10,
        turn_started: true,
        provider_thread_id: None,
        provider_error_reported: false,
        failure_reason: None,
        terminal_published: false,
        terminal_outcome: None,
        pending_status_event: None,
    });
    registry
}

fn request(host: &str, run: &str, id: &str) -> InteractionRequest {
    InteractionRequest {
        host_id: host.to_owned(),
        run_id: run.to_owned(),
        thread_id: "thr_1".to_owned(),
        request_id: id.to_owned(),
        provider_thread_id: Some("acp-session-1".to_owned()),
        kind: "approval".to_owned(),
        payload: Json::text("ask"),
        expires_at_ms: None,
    }
}

fn interaction(origin: InteractionOrigin, open: bool) -> Interaction {
    Interaction {
        id: "intr_1".to_owned(),
        thread_id: "thr_1".to_owned(),
        turn_id: "run_1".to_owned(),
        kind: "approval".to_owned(),
        origin,
        payload: Json::text("ask"),
        status: if open { "pending".to_owned() } else { "interrupted".to_owned() },
        open,
        status_reason: None,
        resolution: None,
        provider_thread_id: None,
        created_at_ms: 3,
        resolved_at_ms: None,
        expires_at_ms: None,
    }
}

fn asked(open: bool) -> Interaction {
    interaction(
        InteractionOrigin::Provider {
            provider_id: "pi".to_owned(),
            provider_request_id: "call-1".to_owned(),
        },
        open,
    )
}

fn decision(word: &str) -> Resolution {
    Resolution::Decision { decision: word.to_owned(), granted_permissions: None }
}

#[test]
fn a_provider_request_id_maps_to_a_stable_interaction_id() {
    let first = deterministic_interaction_id("req-1");
    let again = deterministic_interaction_id("req-1");
    let other = deterministic_interaction_id("req-2");
    assert_eq!(first, again, "the same request must map to the same row");
    assert_ne!(first, other);
    assert!(first.starts_with("intr_"));
}

#[test]
fn a_derived_id_is_a_valid_interaction_id() {
    for request in [
        "",
        "a",
        "provider/request:42",
        "\u{1F600}",
        &"x".repeat(500),
    ] {
        let id = deterministic_interaction_id(request);
        assert!(is_interaction_id(&id), "{id}");
    }
}

#[test]
fn the_hash_is_spelled_in_base_32() {
    // The offset of the hash alone, 0xcbf29ce484222325.
    assert_eq!(
        deterministic_interaction_id(""),
        "intr_0000000000000CQWMWWJ2248S5"
    );
    // FNV-1a of "a" is 0xaf63dc4c8601ec8c.
    assert_eq!(
        deterministic_interaction_id("a"),
        "intr_0000000000000AYRYW9J303V4C"
    );
}

#[test]
fn ids_of_another_shape_are_told_apart() {
    assert!(!is_interaction_id("intr_"));
    assert!(!is_interaction_id("thr_000000000000000000000000000"));
    assert!(!is_interaction_id("intr_80000000000000000000000000"));
    assert!(!is_interaction_id("intr_0000000000000000000000000U"));
    assert!(is_interaction_id("intr_7ZZZZZZZZZZZZZZZZZZZZZZZZZ"));
}

#[test]
fn a_question_of_a_run_in_flight_becomes_a_row() {
    let registry = registry();
    let row = registry
        .record_interaction_request(request("host_1", "run_1", "call-1"), &providers())
        .unwrap();
    assert_eq!(row.turn_id, "run_1");
    assert_eq!(row.id, deterministic_interaction_id("run_1/call-1"));
    assert_eq!(
        row.origin,
        InteractionOrigin::Provider {
            provider_id: "pi".to_owned(),
            provider_request_id: "call-1".to_owned()
        }
    );
    let again = registry
        .record_interaction_request(request("host_1", "run_1", "call-1"), &providers())
        .unwrap();
    assert_eq!(again.id, row.id, "one provider request is one row");
}

#[test]
fn a_question_of_no_run_or_another_machine_is_refused() {
    let registry = registry();
    assert_eq!(
        registry.record_interaction_request(request("host_2", "run_1", "call-1"), &providers()),
        Err(RecordOutcome::Unknown(
            "run run_1 is owned by host host_1, not host_2".to_owned()
        ))
    );
    assert_eq!(
        registry.record_interaction_request(request("host_1", "run_9", "call-1"), &providers()),
        Err(RecordOutcome::Unknown("run run_9 is not in flight".to_owned()))
    );
}

#[test]
fn a_decided_approval_reaches_its_machine() {
    let registry = registry();
    let frame = registry.resolution_frame(&asked(true), &decision("deny"), 9).unwrap();
    assert_eq!(frame.decision, PermissionDecision::Deny);
    let json = frame.to_json();
    assert_eq!(json.get("request_id").unwrap().as_str().unwrap(), "call-1");
    assert_eq!(json.get("interaction_id").unwrap().as_str().unwrap(), "intr_1");
    assert_eq!(json.get("run_id").unwrap().as_str().unwrap(), "run_1");
    assert_eq!(json.get("thread_id").unwrap().as_str().unwrap(), "thr_1");
    let answer = json.get("answer").unwrap();
    assert_eq!(answer.get("kind").unwrap().as_str().unwrap(), "decision");
    assert_eq!(answer.get("decision").unwrap().as_str().unwrap(), "deny");
    assert_eq!(
        registry.resolution_frame(&asked(true), &decision("allow_once"), 9).unwrap().decision,
        PermissionDecision::AllowOnce
    );
    assert_eq!(
        registry
            .resolution_frame(&asked(true), &decision("allow_for_session"), 9)
            .unwrap()
            .decision,
        PermissionDecision::AllowForSession
    );
    assert_eq!(
        registry.resolution_frame(&asked(true), &decision("yes please"), 9).unwrap().decision,
        PermissionDecision::Deny
    );
}

#[test]
fn nothing_reaches_a_machine_that_does_not_wait() {
    let mut registry = registry();
    let plugin = interaction(
        InteractionOrigin::Plugin {
            plugin_id: "p".to_owned(),
            renderer_id: "r".to_owned(),
        },
        true,
    );
    assert!(registry.resolution_frame(&plugin, &decision("deny"), 9).is_none());
    assert!(registry
        .resolution_frame(&asked(true), &Resolution::PluginSubmitted, 9)
        .is_none());
    registry.remove("run_1");
    assert!(registry.resolution_frame(&asked(true), &decision("deny"), 9).is_none());
}

#[test]
fn a_settled_question_takes_no_answer() {
    assert_eq!(deliver_interaction_resolution(None), Err(DeliverOutcome::Unknown));
    assert!(matches!(
        deliver_interaction_resolution(Some(asked(false))),
        Err(DeliverOutcome::Settled(_))
    ));
    assert!(deliver_interaction_resolution(Some(asked(true))).is_ok());
    assert_eq!(interaction_resolved(None, None), DeliverOutcome::Unknown);
    assert!(matches!(
        interaction_resolved(None, Some(asked(false))),
        DeliverOutcome::Settled(_)
    ));
    let late = deliver_interaction_response(
        SettleVerb::Answer,
        DeliverOutcome::Settled(asked(false)),
        "intr_1",
        &providers(),
    );
    assert_eq!(late.status, 409);
    assert_eq!(
        late.body.get("message").unwrap().as_str().unwrap(),
        "interaction intr_1 was already settled as interrupted"
    );
    let cancelled = deliver_interaction_response(
        SettleVerb::Cancel,
        DeliverOutcome::Settled(asked(false)),
        "intr_1",
        &providers(),
    );
    assert_eq!(
        cancelled.body.get("message").unwrap().as_str().unwrap(),
        "interaction intr_1 is already interrupted"
    );
    let unknown =
        deliver_interaction_response(SettleVerb::Answer, DeliverOutcome::Unknown, "intr_9", &providers());
    assert_eq!(unknown.status, 404);
    let failed = deliver_interaction_response(
        SettleVerb::Cancel,
        DeliverOutcome::DeliveryFailed { interaction: asked(true), error: "disk".to_owned() },
        "intr_1",
        &providers(),
    );
    assert_eq!(
        failed.body.get("message").unwrap().as_str().unwrap(),
        "interaction intr_1 cancellation is queued for retry: disk"
    );
}

#[test]
fn a_question_of_a_plugin_has_no_agent() {
    let row = interaction_value(&asked(true), &providers());
    assert_eq!(row.get("providerId").unwrap().as_str().unwrap(), "pi");
    assert_eq!(row.get("providerThreadId").unwrap().as_str().unwrap(), "thr_1");
    assert_eq!(row.get("providerRequestId").unwrap().as_str().unwrap(), "call-1");
    let plugin = interaction_value(
        &interaction(
            InteractionOrigin::Plugin {
                plugin_id: "p".to_owned(),
                renderer_id: "r".to_owned(),
            },
            true,
        ),
        &providers(),
    );
    assert!(plugin.get("providerId").is_none());
    assert_eq!(
        plugin.get("origin").unwrap().get("rendererId").unwrap().as_str().unwrap(),
        "r"
    );
    let all = thread_interactions(&vec![asked(true), asked(false)], &providers());
    assert_eq!(all.body.as_array().unwrap().len(), 2);
}

#[test]
fn a_question_of_another_thread_is_not_found() {
    assert!(interaction_in_thread(Some(asked(true)), "thr_1", "intr_1").is_ok());
    let other = interaction_in_thread(Some(asked(true)), "thr_2", "intr_1").unwrap_err();
    assert_eq!(
        other.body.get("message").unwrap().as_str().unwrap(),
        "interaction intr_1 belongs to another thread"
    );
    let none = interaction_in_thread(None, "thr_2", "intr_1").unwrap_err();
    assert_eq!(
        none.body.get("message").unwrap().as_str().unwrap(),
        "interaction intr_1 is not known"
    );
}

#[test]
fn typed_answers_have_to_make_sense() {
    let allow = |granted: Option<Json>| ResolveInteractionRequest::Decision {
        decision: "allow_once".to_owned(),
        granted_permissions: granted,
    };
    assert_eq!(
        allow(None).is_coherent(),
        Err("decision `allow_once` needs `grantedPermissions`".to_owned())
    );
    assert_eq!(allow(Some(Json::Null)).is_coherent(), Ok(()));
    let deny = ResolveInteractionRequest::Decision {
        decision: "deny".to_owned(),
        granted_permissions: Some(Json::Null),
    };
    assert_eq!(
        deny.is_coherent(),
        Err("a `deny` decision must not carry `grantedPermissions`".to_owned())
    );
    let odd = ResolveInteractionRequest::Decision {
        decision: "maybe".to_owned(),
        granted_permissions: None,
    };
    assert_eq!(
        odd.is_coherent(),
        Err("decision must be `allow_once`, `allow_for_session` or `deny`, got \"maybe\"".to_owned())
    );
    let kind = ResolveInteractionRequest::PluginSubmitted { kind: "x".to_owned() };
    assert_eq!(
        kind.is_coherent(),
        Err("unknown resolution kind \"x\"".to_owned())
    );
    assert!(matches!(
        allow(Some(Json::Null)).resolution(),
        Resolution::Decision { .. }
    ));
    let refusal = resolve_refusal(&asked(true), &allow(Some(Json::Null)), false, "decision");
    assert_eq!(
        refusal.unwrap().body.get("message").unwrap().as_str().unwrap(),
        "interaction intr_1 is a approval; a decision cannot answer it"
    );
    assert!(resolve_refusal(&asked(true), &allow(Some(Json::Null)), true, "decision").is_none());
    assert!(respond_refusal(&asked(true), true).is_none());
    assert_eq!(
        respond_refusal(&asked(true), false).unwrap().body.get("message").unwrap().as_str().unwrap(),
        "interaction intr_1 is a approval and takes a typed resolution, not an opaque value"
    );
}
