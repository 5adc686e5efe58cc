use loom_server::domain::{
    DomainEvent, HostStatus, ReportedEvent, RunOutcome, ThreadStatus, TurnStatus,
};
use loom_server::domain::{Environment, EnvironmentKind, Host, ProviderSpec, Thread};
use loom_server::dispatch::{
    preflight_outcome, publish_outcome, DispatchContext, DispatchOutcome, DispatchStep, Preflight,
};
use loom_server::json::Json;
use loom_server::lifecycle::{
    FinishRequest, FinishRunResult, FinishStage, FinishStep, RunBody, SettleStep, ThreadFacts,
};
use loom_server::reports::{
    automation_outcome, learned_session, overdue_verdict, report_outcome, restart_verdict,
    stale_hosts, stale_verdict, stop_outcome, stop_verdict, verdict_request,
    AutomationRunOutcome, ReconcileSummary, ReportOutcome, ReportStep, StopOutcome,
};
use loom_server::runs::{PendingStatusChange, RunRecord, RunRegistry};
use loom_server::sweep::{Sweep, SweepStep};

fn record(run: &str, thread: &str, host: &str) -> RunRecord {
    RunRecord {
        run_id: run.to_owned(),
        thread_id: thread.to_owned(),
        project_id: "proj_1".to_owned(),
        host_id: host.to_owned(),
        cwd: "/srv/project-a".to_owned(),
        started_at_ms: 1,
        deadline_ms: 10,
        turn_started: false,
        provider_thread_id: None,
        provider_error_reported: false,
        failure_reason: None,
        terminal_published: false,
        terminal_outcome: None,
        pending_status_event: None,
    }
}

fn event(run: &str, thread: &str, kind: &str) -> ReportedEvent {
    ReportedEvent {
        run_id: run.to_owned(),
        thread_id: thread.to_owned(),
        at_ms: 5,
        kind: kind.to_owned(),
        thread_scoped: false,
        provider_thread_id: None,
        outcome: None,
        status: None,
        error: None,
        body: Json::Null,
    }
}

fn request(run: &str, outcome: RunOutcome, error: Option<&str>) -> FinishRequest {
    FinishRequest {
        run_id: run.to_owned(),
        outcome,
        error: error.map(str::to_owned),
        event: None,
        synthetic_identity: "synthetic".to_owned(),
        now_ms: 7,
    }
}

fn facts(thread: &str) -> Option<ThreadFacts> {
    Some(ThreadFacts {
        thread_id: thread.to_owned(),
        project_id: "proj_1".to_owned(),
        status: ThreadStatus::Working,
        next: Some(ThreadStatus::Error),
    })
}

/// Finishes a run, with every append taken, and gives the stages that were appended.
fn finish(registry: &mut RunRegistry, request: &FinishRequest) -> Vec<FinishStage> {
    let mut stages = Vec::new();
    loop {
        match registry.next_finish_step(request) {
            FinishStep::Append { stage, .. } => {
                registry.finish_append_accepted(request, stage);
                stages.push(stage);
            }
            FinishStep::Settle { .. } | FinishStep::AlreadyFinished => return stages,
        }
    }
}

fn thread(id: &str, environment: Option<&str>) -> Thread {
    Thread {
        id: id.to_owned(),
        project_id: "proj_1".to_owned(),
        environment_id: environment.map(str::to_owned),
        provider_id: None,
        model: None,
        reasoning_level: None,
        title: None,
        section_id: None,
        status: ThreadStatus::Working,
        parent_thread_id: None,
        source_thread_id: None,
        origin_kind: None,
        origin_plugin_id: None,
        visibility: "visible".to_owned(),
        archived_at_ms: None,
        pinned_at_ms: None,
        pin_sort_key: None,
        deleted_at_ms: None,
        last_read_at_ms: None,
        created_at_ms: 1,
        updated_at_ms: 1,
        provider_session_id: None,
        provider_session_binding: None,
    }
}

fn environment(id: &str, host: &str, status: &str, path: Option<&str>) -> Environment {
    Environment {
        id: id.to_owned(),
        name: None,
        project_id: "proj_1".to_owned(),
        host_id: host.to_owned(),
        kind: EnvironmentKind::Unmanaged,
        status: status.to_owned(),
        path: path.map(str::to_owned),
        merge_base_branch: None,
        created_at_ms: 1,
        updated_at_ms: 1,
    }
}

fn host(id: &str, status: HostStatus, seen: u64) -> Host {
    Host {
        id: id.to_owned(),
        name: "laptop".to_owned(),
        status,
        max_permission_mode: "full".to_owned(),
        last_seen_at_ms: Some(seen),
        created_at_ms: 1,
        updated_at_ms: 1,
    }
}

fn context(run: &str) -> DispatchContext {
    DispatchContext {
        run_id: run.to_owned(),
        preflight_host_id: "host_none".to_owned(),
        synthetic_identity: "synthetic".to_owned(),
        provider: ProviderSpec {
            name: "pi".to_owned(),
            cwd: None,
            launch: Json::Null,
        },
        run_timeout_ms: 60_000,
        now_ms: 100,
    }
}

#[test]
fn the_registry_tracks_and_reaps_runs() {
    let mut registry = RunRegistry::new();
    let record = record("run_1", "thr_1", "host_1");
    registry.insert(record.clone());
    assert_eq!(registry.get(&record.run_id), Some(record.clone()));
    assert_eq!(registry.for_host(&record.host_id), vec![record.clone()]);
    assert!(registry.expired(9).is_empty());
    assert_eq!(registry.expired(10), vec![record.clone()]);
    assert_eq!(registry.remove(&record.run_id), Some(record));
    assert!(registry.is_empty());
}

#[test]
fn a_thread_is_claimed_by_one_run() {
    let mut registry = RunRegistry::new();
    assert_eq!(registry.claim_thread("thr_1", "run_1".to_owned()), Ok(()));
    assert_eq!(
        registry.claim_thread("thr_1", "run_2".to_owned()),
        Err("run_1".to_owned())
    );
    assert!(!registry.release_thread("thr_1", "run_2"));
    assert!(registry.release_thread("thr_1", "run_1"));
    assert_eq!(registry.claim_thread("thr_1", "run_2".to_owned()), Ok(()));
}

#[test]
fn restored_runs_are_listed_in_the_order_of_their_ids() {
    let mut registry = RunRegistry::new();
    registry.restore(vec![
        record("run_b", "thr_2", "host_1"),
        record("run_a", "thr_1", "host_2"),
    ]);
    let ids: Vec<String> = registry.all().into_iter().map(|r| r.run_id).collect();
    assert_eq!(ids, vec!["run_a", "run_b"]);
    assert_eq!(registry.len(), 2);
    assert_eq!(registry.for_thread("thr_2").unwrap().run_id, "run_b");
    assert!(registry.for_thread("thr_3").is_none());
}

#[test]
fn a_failed_run_starts_reports_and_ends_once() {
    let mut registry = RunRegistry::new();
    registry.insert(record("run_1", "thr_1", "host_1"));
    let wish = request("run_1", RunOutcome::Failed, Some("no host"));
    let stages = finish(&mut registry, &wish);
    assert_eq!(
        stages,
        vec![FinishStage::Start, FinishStage::Diagnostic, FinishStage::Terminal]
    );
    // The terminal event is in the log, so a second wish only settles.
    assert!(matches!(
        registry.next_finish_step(&wish),
        FinishStep::Settle { outcome: RunOutcome::Failed, .. }
    ));
    let change = match registry.begin_settlement("run_1", &facts("thr_1"), 9) {
        SettleStep::AppendStatus(change) => change,
        other => panic!("expected a status change, got {other:?}"),
    };
    assert_eq!(change.from, ThreadStatus::Working);
    assert_eq!(change.to, ThreadStatus::Error);
    assert_eq!(change.at_ms, 9);
    // A rejected append is retried as it was, at its own time.
    assert_eq!(
        registry.begin_settlement("run_1", &facts("thr_1"), 50),
        SettleStep::AppendStatus(change)
    );
    assert!(registry.complete_settlement("run_1").is_some());
    assert!(registry.is_empty());
    assert_eq!(registry.next_finish_step(&wish), FinishStep::AlreadyFinished);
    assert_eq!(registry.claim_thread("thr_1", "run_2".to_owned()), Ok(()));
}

#[test]
fn a_completed_run_needs_no_error_event() {
    let mut registry = RunRegistry::new();
    registry.insert(record("run_1", "thr_1", "host_1"));
    registry.mark_started("run_1", "session".to_owned());
    let stages = finish(&mut registry, &request("run_1", RunOutcome::Completed, None));
    assert_eq!(stages, vec![FinishStage::Terminal]);
}

#[test]
fn an_out_of_order_report_is_given_a_start_first() {
    let mut registry = RunRegistry::new();
    registry.insert(record("run_1", "thr_1", "host_1"));
    let early = event("run_1", "thr_1", "item/agentMessage/delta");
    match registry.apply_run_report("host_1", &early, "synthetic", 6) {
        ReportStep::Anchor(append) => assert_eq!(
            append.body,
            RunBody::Started { provider_thread_id: "synthetic".to_owned() }
        ),
        other => panic!("expected a start, got {other:?}"),
    }
    registry.report_anchored(&early, "synthetic");
    assert!(matches!(
        registry.apply_run_report("host_1", &early, "synthetic", 6),
        ReportStep::Forward(_)
    ));
    // A start that comes late is already in the log.
    assert_eq!(
        registry.apply_run_report("host_1", &event("run_1", "thr_1", "turn/started"), "s", 6),
        ReportStep::Done(ReportOutcome::Applied)
    );
}

#[test]
fn a_terminal_report_ends_the_run_as_the_host_says() {
    let mut registry = RunRegistry::new();
    registry.insert(record("run_1", "thr_1", "host_1"));
    let mut done = event("run_1", "thr_1", "turn/completed");
    done.status = Some(TurnStatus::Interrupted);
    match registry.apply_run_report("host_1", &done, "synthetic", 6) {
        ReportStep::Finish(request) => {
            assert_eq!(request.outcome, RunOutcome::Cancelled);
            assert_eq!(finish(&mut registry, &request).len(), 2);
        }
        other => panic!("expected an end, got {other:?}"),
    }
    registry.complete_settlement("run_1");
    assert_eq!(
        registry.apply_run_report("host_1", &done, "synthetic", 6),
        ReportStep::Done(ReportOutcome::Unknown)
    );
}

#[test]
fn a_report_from_another_host_is_refused_with_the_reason() {
    let mut registry = RunRegistry::new();
    registry.insert(record("run_1", "thr_1", "host_1"));
    assert_eq!(
        registry.apply_run_report("host_2", &event("run_1", "thr_1", "turn/started"), "s", 6),
        ReportStep::Done(ReportOutcome::Mismatch(
            "run run_1 is owned by host host_1, not host_2".to_owned()
        ))
    );
    assert_eq!(
        registry.apply_run_report("host_1", &event("run_1", "thr_9", "turn/started"), "s", 6),
        ReportStep::Done(ReportOutcome::Mismatch(
            "run run_1 belongs to thread thr_1, not thr_9".to_owned()
        ))
    );
}

#[test]
fn reports_are_marked_once_they_are_in_the_log() {
    let mut registry = RunRegistry::new();
    registry.insert(record("run_1", "thr_1", "host_1"));
    let mut started = event("run_1", "thr_1", "turn/started");
    started.provider_thread_id = Some("session".to_owned());
    registry.report_forwarded(&started, "synthetic");
    let held = registry.get("run_1").unwrap();
    assert!(held.turn_started);
    assert_eq!(held.provider_thread_id.as_deref(), Some("session"));
    registry.report_forwarded(&event("run_1", "thr_1", "provider/error"), "synthetic");
    assert!(registry.get("run_1").unwrap().provider_error_reported);
}

#[test]
fn outcomes_are_told_as_they_are() {
    assert_eq!(report_outcome(FinishRunResult::Finished), ReportOutcome::Applied);
    assert_eq!(report_outcome(FinishRunResult::AlreadyFinished), ReportOutcome::Unknown);
    assert_eq!(
        report_outcome(FinishRunResult::PublishFailed("disk".to_owned())),
        ReportOutcome::PublishFailed { error: "disk".to_owned() }
    );
    assert_eq!(stop_outcome(FinishRunResult::Finished), StopOutcome::Stopped);
    assert_eq!(stop_outcome(FinishRunResult::AlreadyFinished), StopOutcome::NoRun);
    assert_eq!(
        stop_outcome(FinishRunResult::PublishFailed("disk".to_owned())),
        StopOutcome::PublishFailed { error: "disk".to_owned() }
    );
}

#[test]
fn verdicts_name_their_reason() {
    let held = record("run_1", "thr_1", "host_1");
    let stale = stale_verdict("host_1");
    assert_eq!(stale.outcome, RunOutcome::HostStale);
    assert_eq!(stale.error.as_deref(), Some("host host_1 stopped heartbeating"));
    let late = overdue_verdict(&held);
    assert_eq!(late.outcome, RunOutcome::TimedOut);
    assert_eq!(late.error.as_deref(), Some("run exceeded its deadline"));
    let mut failed = held.clone();
    failed.failure_reason = Some("no workspace".to_owned());
    assert_eq!(overdue_verdict(&failed).outcome, RunOutcome::Failed);
    assert_eq!(stop_verdict().outcome, RunOutcome::Cancelled);
    assert!(restart_verdict(&held).error.is_some());
    let wish = verdict_request(&held, stop_verdict(), "synthetic", 3);
    assert_eq!(wish.run_id, "run_1");
    assert_eq!(wish.now_ms, 3);
}

#[test]
fn a_host_that_stopped_heartbeating_is_stale() {
    let hosts = vec![
        host("host_1", HostStatus::Connected, 10),
        host("host_2", HostStatus::Connected, 95),
        host("host_3", HostStatus::Disconnected, 10),
    ];
    assert_eq!(stale_hosts(&hosts, 100, 30), vec!["host_1".to_owned()]);
}

#[test]
fn runs_are_stranded_unsettled_or_overdue() {
    let mut registry = RunRegistry::new();
    let mut ended = record("run_2", "thr_2", "host_1");
    ended.terminal_published = true;
    ended.terminal_outcome = Some(RunOutcome::Completed);
    ended.turn_started = true;
    registry.restore(vec![record("run_1", "thr_1", "host_1"), ended]);
    let ids = |list: Vec<RunRecord>| list.into_iter().map(|r| r.run_id).collect::<Vec<_>>();
    assert_eq!(ids(registry.stranded("host_1")), vec!["run_1"]);
    assert_eq!(ids(registry.unsettled()), vec!["run_2"]);
    assert_eq!(ids(registry.overdue(10)), vec!["run_1"]);
    assert!(registry.overdue(9).is_empty());
}

#[test]
fn a_pending_status_change_matches_only_itself() {
    let change = PendingStatusChange {
        thread_id: "thr_1".to_owned(),
        project_id: "proj_1".to_owned(),
        from: ThreadStatus::Working,
        to: ThreadStatus::Idle,
        at_ms: 4,
    };
    assert!(change.matches_event(&change.event()));
    let mut later = change.clone();
    later.at_ms = 5;
    assert!(!change.matches_event(&later.event()));
    let created = DomainEvent::ThreadCreated {
        thread_id: "thr_1".to_owned(),
        project_id: "proj_1".to_owned(),
    };
    assert!(!change.matches_event(&created));
    assert_eq!(
        change.event(),
        DomainEvent::ThreadStatusChanged {
            thread_id: "thr_1".to_owned(),
            project_id: "proj_1".to_owned(),
            from: ThreadStatus::Working,
            to: ThreadStatus::Idle,
            at_ms: 4,
        }
    );
}

#[test]
fn a_pending_status_change_is_kept_until_it_is_cleared() {
    let change = PendingStatusChange {
        thread_id: "thr_1".to_owned(),
        project_id: "proj_1".to_owned(),
        from: ThreadStatus::Working,
        to: ThreadStatus::Idle,
        at_ms: 4,
    };
    let mut registry = RunRegistry::new();
    registry.insert(record("run_1", "thr_1", "host_1"));
    assert!(registry.set_pending_status_event("run_1", change.clone()));
    assert_eq!(registry.get("run_1").unwrap().pending_status_event, Some(change.clone()));
    assert!(registry.clear_pending_status_event("run_1"));
    assert_eq!(registry.get("run_1").unwrap().pending_status_event, None);
    assert!(!registry.set_pending_status_event("run_9", change));
    assert!(!registry.clear_pending_status_event("run_9"));
}

#[test]
fn a_dispatch_carries_the_workspace_of_its_thread() {
    let mut registry = RunRegistry::new();
    let environments = vec![environment("env_1", "host_1", "ready", Some("/srv/a"))];
    let hosts = vec![host("host_1", HostStatus::Connected, 1)];
    match registry.dispatch_thread(
        &thread("thr_1", Some("env_1")),
        "go",
        &environments,
        &hosts,
        context("run_1"),
    ) {
        DispatchStep::Publish { record, dispatch } => {
            assert_eq!(record.cwd, "/srv/a");
            assert_eq!(dispatch.provider.cwd.as_deref(), Some("/srv/a"));
            assert_eq!(dispatch.prompt, "go");
            assert_eq!(dispatch.host_id, "host_1");
            assert_eq!(dispatch.deadline_ms, 60_100);
            let (outcome, wish) = publish_outcome(record, Ok(()), "synthetic", 101);
            assert!(matches!(outcome, DispatchOutcome::Dispatched(_)));
            assert!(wish.is_none());
        }
        other => panic!("expected a dispatch, got {other:?}"),
    }
    // A second dispatch finds the thread claimed.
    assert_eq!(
        registry.dispatch_thread(
            &thread("thr_1", Some("env_1")),
            "go",
            &environments,
            &hosts,
            context("run_2"),
        ),
        DispatchStep::Done(DispatchOutcome::AlreadyInFlight { run_id: "run_1".to_owned() })
    );
}

#[test]
fn a_thread_that_cannot_run_is_failed_on_the_spot() {
    let mut registry = RunRegistry::new();
    let step = registry.dispatch_thread(
        &thread("thr_1", None),
        "go",
        &Vec::new(),
        &Vec::new(),
        context("run_1"),
    );
    match step {
        DispatchStep::Fail { preflight, reason, request } => {
            assert_eq!(preflight, Preflight::NoEnvironment);
            assert_eq!(
                reason,
                "thread has no environment bound; bind one before dispatching"
            );
            let stages = finish(&mut registry, &request);
            assert_eq!(stages.len(), 3);
            assert_eq!(
                preflight_outcome(
                    preflight,
                    "run_1".to_owned(),
                    reason.clone(),
                    FinishRunResult::Finished
                ),
                DispatchOutcome::NoEnvironment { run_id: "run_1".to_owned(), reason }
            );
        }
        other => panic!("expected a failure, got {other:?}"),
    }
}

#[test]
fn a_workspace_whose_machine_is_away_cannot_run() {
    let mut registry = RunRegistry::new();
    let step = registry.dispatch_thread(
        &thread("thr_1", Some("env_1")),
        "go",
        &vec![environment("env_1", "host_1", "ready", Some("/srv/a"))],
        &vec![host("host_1", HostStatus::Disconnected, 1)],
        context("run_1"),
    );
    assert!(matches!(
        step,
        DispatchStep::Fail { preflight: Preflight::NoHost, .. }
    ));
}

#[test]
fn a_session_is_learned_with_what_it_belongs_to() {
    let mut identity = event("run_1", "thr_1", "thread/identity");
    identity.provider_thread_id = Some("session".to_owned());
    let learned = learned_session(&identity, &Some(record("run_1", "thr_1", "host_1")), "pi");
    let learned = learned.unwrap();
    assert_eq!(learned.session_id, "session");
    assert_eq!(learned.binding.unwrap().cwd, "/srv/project-a");
    assert!(learned_session(&event("run_1", "thr_1", "turn/started"), &None, "pi").is_none());
}

#[test]
fn an_automation_ends_as_its_run_did() {
    let held = record("run_1", "thr_1", "host_1");
    assert_eq!(
        automation_outcome(&held, RunOutcome::Completed, &None),
        AutomationRunOutcome::Succeeded { thread_id: "thr_1".to_owned() }
    );
    assert_eq!(
        automation_outcome(&held, RunOutcome::Cancelled, &None),
        AutomationRunOutcome::Cancelled {
            reason: "the run was stopped before it finished".to_owned()
        }
    );
    assert_eq!(
        automation_outcome(&held, RunOutcome::Failed, &Some("boom".to_owned())),
        AutomationRunOutcome::Failed {
            error: "boom".to_owned(),
            thread_id: "thr_1".to_owned()
        }
    );
}

fn ended_run(run: &str, thread: &str, host: &str) -> RunRecord {
    let mut ended = record(run, thread, host);
    ended.terminal_published = true;
    ended.terminal_outcome = Some(RunOutcome::Completed);
    ended.turn_started = true;
    ended
}

fn finish_of(step: SweepStep) -> (String, RunOutcome, Option<String>) {
    match step {
        SweepStep::Finish { record, verdict } => (record.run_id, verdict.outcome, verdict.error),
        other => panic!("expected a run to end, got {other:?}"),
    }
}

#[test]
fn a_sweep_ends_what_cannot_go_on_in_order() {
    let mut registry = RunRegistry::new();
    let mut reasoned = record("run_4", "thr_4", "host_2");
    reasoned.failure_reason = Some("no workspace".to_owned());
    registry.restore(vec![
        record("run_1", "thr_1", "host_1"),
        ended_run("run_2", "thr_2", "host_1"),
        record("run_3", "thr_3", "host_2"),
        reasoned,
    ]);
    let hosts = vec![
        host("host_1", HostStatus::Connected, 10),
        host("host_2", HostStatus::Connected, 95),
    ];
    let mut sweep = Sweep::new(100, 30);
    assert_eq!(sweep.next(&registry, &hosts), SweepStep::Purge);
    assert_eq!(sweep.next(&registry, &hosts), SweepStep::RetryInteractions);
    assert_eq!(sweep.next(&registry, &hosts), SweepStep::Detach("host_1".to_owned()));
    assert_eq!(
        finish_of(sweep.next(&registry, &hosts)),
        (
            "run_1".to_owned(),
            RunOutcome::HostStale,
            Some("host host_1 stopped heartbeating".to_owned())
        )
    );
    registry.remove("run_1");
    sweep.ended(&FinishRunResult::Finished);
    assert_eq!(
        finish_of(sweep.next(&registry, &hosts)),
        ("run_2".to_owned(), RunOutcome::Completed, None)
    );
    registry.remove("run_2");
    sweep.ended(&FinishRunResult::Finished);
    assert_eq!(
        finish_of(sweep.next(&registry, &hosts)),
        (
            "run_3".to_owned(),
            RunOutcome::TimedOut,
            Some("run exceeded its deadline".to_owned())
        )
    );
    sweep.ended(&FinishRunResult::Finished);
    assert_eq!(
        finish_of(sweep.next(&registry, &hosts)),
        ("run_4".to_owned(), RunOutcome::Failed, Some("no workspace".to_owned()))
    );
    sweep.ended(&FinishRunResult::Finished);
    assert_eq!(sweep.next(&registry, &hosts), SweepStep::DrainQueues);
    sweep.drained(2);
    let summary = ReconcileSummary {
        stale_hosts: 1,
        stale_runs: 1,
        timed_out_runs: 1,
        sent_queued_messages: 2,
    };
    assert_eq!(sweep.next(&registry, &hosts), SweepStep::Done(summary));
    assert_eq!(sweep.next(&registry, &hosts), SweepStep::Done(summary));
}

#[test]
fn a_sweep_counts_only_what_it_ended() {
    let mut registry = RunRegistry::new();
    registry.restore(vec![record("run_1", "thr_1", "host_1")]);
    let hosts = vec![host("host_1", HostStatus::Connected, 10)];
    let mut sweep = Sweep::new(100, 30);
    let mut handed = Vec::new();
    loop {
        match sweep.next(&registry, &hosts) {
            SweepStep::Finish { record, verdict } => {
                handed.push((record.run_id, verdict.outcome));
                sweep.ended(&FinishRunResult::PublishFailed("disk".to_owned()));
            }
            SweepStep::Done(summary) => {
                assert_eq!(summary.stale_hosts, 1);
                assert_eq!(summary.stale_runs, 0);
                assert_eq!(summary.timed_out_runs, 0);
                assert_eq!(summary.sent_queued_messages, 0);
                break;
            }
            _ => {}
        }
    }
    assert_eq!(
        handed,
        vec![
            ("run_1".to_owned(), RunOutcome::HostStale),
            ("run_1".to_owned(), RunOutcome::TimedOut),
        ]
    );
}

#[test]
fn an_idle_sweep_ends_no_run() {
    let registry = RunRegistry::new();
    let mut sweep = Sweep::new(100, 30);
    assert_eq!(sweep.next(&registry, &Vec::new()), SweepStep::Purge);
    assert_eq!(sweep.next(&registry, &Vec::new()), SweepStep::RetryInteractions);
    assert_eq!(sweep.next(&registry, &Vec::new()), SweepStep::DrainQueues);
    assert!(matches!(sweep.next(&registry, &Vec::new()), SweepStep::Done(_)));
}
