//! What a host reports of a run, and what the control plane decides without a report.

use vstd::prelude::*;

use crate::domain::{Host, HostStatus, ReportedEvent, RunOutcome, Thread, TurnStatus};
use crate::lifecycle::{
    identity_of, start_identity, FinishRequest, FinishRunResult, RunAppend, RunBody,
};
use crate::runs::{selected, RunRecord, RunRegistry, RunTable};
use crate::text::{copy_opt, joined3, opt_view, same_text, texts};

verus! {

/// Whether a report was applied.
#[derive(Debug, PartialEq, Eq)]
pub enum ReportOutcome {
    /// The event was published (and, for a terminal event, the thread moved).
    Applied,
    /// The run is not in flight. Normal under redelivery: the daemon may report a terminal event
    /// twice after a reconnect.
    Unknown,
    /// The report named a run this host does not own, or a different thread.
    Mismatch(String),
    /// The report was valid, but the relay rejected its append.
    PublishFailed {
        /// Why the relay rejected the event.
        error: String,
    },
}

/// What a reconciliation pass found and repaired.
#[derive(Clone, Copy, Debug, PartialEq, Eq, Structural)]
pub struct ReconcileSummary {
    /// Hosts marked disconnected for missing their heartbeat window.
    pub stale_hosts: usize,
    /// Runs failed because their host went stale.
    pub stale_runs: usize,
    /// Runs failed because their deadline passed.
    pub timed_out_runs: usize,
    /// Queued messages that became due and were delivered.
    pub sent_queued_messages: usize,
}

/// What a request to stop a thread found.
#[derive(Debug, PartialEq, Eq)]
pub enum StopOutcome {
    /// A run was in flight and has been terminated.
    Stopped,
    /// The thread had no run in flight; there was nothing to terminate.
    NoRun,
    /// The terminal lifecycle could not be published, so the run remains in flight and a later
    /// stop or reconciliation can retry it.
    PublishFailed {
        /// Why the relay rejected the lifecycle event.
        error: String,
    },
}

/// What to do next with a report.
#[derive(Debug, PartialEq, Eq)]
pub enum ReportStep {
    /// Nothing: this is the outcome.
    Done(ReportOutcome),
    /// The report ends the run; finish it.
    Finish(FinishRequest),
    /// The turn has no start in the log yet. Append this one, say that it was taken, and ask
    /// again.
    Anchor(RunAppend),
    /// Append the report itself, and say that it was taken.
    Forward(RunAppend),
}

/// Why a report is refused, or that it is not: the run must be in flight, on the host that
/// reports, and of the thread that the report names.
pub ghost enum Standing {
    /// No such run is in flight.
    Unknown,
    /// The run is another host's, or another thread's.
    Mismatch(Seq<char>),
    /// The report is the run's own.
    Own(RunRecord),
}

/// How a report stands to the runs in flight.
pub open spec fn standing(
    records: Map<Seq<char>, RunRecord>,
    host_id: Seq<char>,
    run_id: Seq<char>,
    thread_id: Seq<char>,
) -> Standing {
    if !records.dom().contains(run_id) {
        Standing::Unknown
    } else {
        let record = records[run_id];
        if record.host_id@ != host_id {
            Standing::Mismatch(
                "run "@ + run_id + " is owned by host "@ + record.host_id@ + ", not "@ + host_id,
            )
        } else if record.thread_id@ != thread_id {
            Standing::Mismatch(
                "run "@ + run_id + " belongs to thread "@ + record.thread_id@ + ", not "@
                    + thread_id,
            )
        } else {
            Standing::Own(record)
        }
    }
}

/// How a report stands, found.
pub enum Ownership {
    /// No such run is in flight.
    Unknown,
    /// The run is another host's, or another thread's.
    Mismatch(String),
    /// The report is the run's own.
    Own(RunRecord),
}

/// The sentence that a run is not what a report takes it for.
fn mismatch(run_id: &str, relation: &str, actual: &str, claimed: &str) -> (result: String)
    ensures
        result@ == "run "@ + run_id@ + relation@ + actual@ + ", not "@ + claimed@,
{
    let mut text: String = joined3("run ", run_id, relation);
    text.append(actual);
    text.append(", not ");
    text.append(claimed);
    text
}

/// The start that a report's turn is given, where it has none: under the identity the report
/// names, else the one on record, else the stand-in.
pub open spec fn anchor_identity(
    event: ReportedEvent,
    record: RunRecord,
    synthetic: Seq<char>,
) -> Seq<char> {
    start_identity(event.provider_thread_id, record.provider_thread_id, synthetic)
}

/// Whether a report has to be preceded by a start: it belongs to the turn, and the turn has none.
pub open spec fn needs_anchor(event: ReportedEvent, record: RunRecord) -> bool {
    event.kind@ != "turn/started"@ && !event.thread_scoped && !record.turn_started
}

/// Whether a request ends a run as its host reported it.
pub open spec fn reported_request(
    request: FinishRequest,
    event: ReportedEvent,
    synthetic: Seq<char>,
    now_ms: u64,
) -> bool {
    &&& request.run_id@ == event.run_id@
    &&& request.outcome == event.spec_terminal_outcome()
    &&& opt_view(request.error) == opt_view(event.error)
    &&& request.event matches Some(reported) && reported.same(&event)
    &&& request.synthetic_identity@ == synthetic
    &&& request.now_ms == now_ms
}

/// Whether an append is the report itself under the run's own identity, its body verbatim.
pub open spec fn forwards(append: RunAppend, event: ReportedEvent, record: RunRecord) -> bool {
    &&& identity_of(append, record)
    &&& append.at_ms == event.at_ms
    &&& append.body matches RunBody::Reported(reported) && reported.same(&event)
}

/// Whether a host's report of a run leads to this.
pub open spec fn report_decides(
    records: Map<Seq<char>, RunRecord>,
    host_id: Seq<char>,
    event: ReportedEvent,
    synthetic: Seq<char>,
    now_ms: u64,
    result: ReportStep,
) -> bool {
    match standing(records, host_id, event.run_id@, event.thread_id@) {
        Standing::Unknown => result == ReportStep::Done(ReportOutcome::Unknown),
        Standing::Mismatch(reason) => result matches ReportStep::Done(
            ReportOutcome::Mismatch(text),
        ) && text@ == reason,
        Standing::Own(record) => if event.spec_is_terminal() {
            result matches ReportStep::Finish(request) && reported_request(
                request,
                event,
                synthetic,
                now_ms,
            )
        } else if event.kind@ == "turn/started"@ && record.turn_started {
            result == ReportStep::Done(ReportOutcome::Applied)
        } else if needs_anchor(event, record) {
            result matches ReportStep::Anchor(append) && identity_of(append, record)
                && append.at_ms == now_ms && (append.body matches RunBody::Started {
                provider_thread_id,
            } && provider_thread_id@ == anchor_identity(event, record, synthetic))
        } else {
            result matches ReportStep::Forward(append) && forwards(append, event, record)
        },
    }
}

impl RunRegistry {
    /// How a report stands to the runs in flight.
    pub fn ownership(&self, host_id: &str, run_id: &str, thread_id: &str) -> (result: Ownership)
        requires
            self.wf(),
        ensures
            match standing(self@.records, host_id@, run_id@, thread_id@) {
                Standing::Unknown => result is Unknown,
                Standing::Mismatch(reason) => result matches Ownership::Mismatch(text) && text@
                    == reason,
                Standing::Own(record) => result == Ownership::Own(record),
            },
    {
        match self.get(run_id) {
            None => Ownership::Unknown,
            Some(record) => {
                if !same_text(record.host_id.as_str(), host_id) {
                    return Ownership::Mismatch(
                        mismatch(
                            run_id,
                            " is owned by host ",
                            record.host_id.as_str(),
                            host_id,
                        ),
                    );
                }
                if !same_text(record.thread_id.as_str(), thread_id) {
                    return Ownership::Mismatch(
                        mismatch(
                            run_id,
                            " belongs to thread ",
                            record.thread_id.as_str(),
                            thread_id,
                        ),
                    );
                }
                Ownership::Own(record)
            },
        }
    }

    /// The next step to apply one report. A report of an unknown run is dropped, which makes a
    /// redelivery idempotent. One of a run that the host does not own is refused, so that one
    /// machine cannot end another's turn.
    pub fn apply_run_report(
        &self,
        host_id: &str,
        event: &ReportedEvent,
        synthetic_identity: &str,
        now_ms: u64,
    ) -> (result: ReportStep)
        requires
            self.wf(),
        ensures
            report_decides(
                self@.records,
                host_id@,
                *event,
                synthetic_identity@,
                now_ms,
                result,
            ),
    {
        let record: RunRecord = match self.ownership(
            host_id,
            event.run_id.as_str(),
            event.thread_id.as_str(),
        ) {
            Ownership::Unknown => {
                return ReportStep::Done(ReportOutcome::Unknown);
            },
            Ownership::Mismatch(reason) => {
                return ReportStep::Done(ReportOutcome::Mismatch(reason));
            },
            Ownership::Own(record) => record,
        };
        if event.is_terminal() {
            return ReportStep::Finish(
                FinishRequest {
                    run_id: event.run_id.clone(),
                    outcome: event.terminal_outcome(),
                    error: copy_opt(&event.error),
                    event: Some(event.clone()),
                    synthetic_identity: synthetic_identity.to_owned(),
                    now_ms,
                },
            );
        }
        let is_start: bool = same_text(event.kind.as_str(), "turn/started");
        if is_start && record.turn_started {
            return ReportStep::Done(ReportOutcome::Applied);
        }
        if !is_start && !event.thread_scoped && !record.turn_started {
            let identity: String = anchor_identity_text(event, &record, synthetic_identity);
            return ReportStep::Anchor(
                RunAppend {
                    thread_id: record.thread_id.clone(),
                    project_id: record.project_id.clone(),
                    run_id: record.run_id.clone(),
                    at_ms: now_ms,
                    body: RunBody::Started { provider_thread_id: identity },
                },
            );
        }
        ReportStep::Forward(
            RunAppend {
                thread_id: record.thread_id.clone(),
                project_id: record.project_id.clone(),
                run_id: record.run_id.clone(),
                at_ms: event.at_ms,
                body: RunBody::Reported(event.clone()),
            },
        )
    }

    /// Records that the relay took the start that a report was given.
    pub fn report_anchored(&mut self, event: &ReportedEvent, synthetic_identity: &str)
        requires
            old(self).wf(),
        ensures
            final(self).wf(),
            match final(self)@.records.dom().contains(event.run_id@) && !old(
                self
            )@.records[event.run_id@].turn_started {
                true => {
                    let record = old(self)@.records[event.run_id@];
                    let after = final(self)@.records[event.run_id@];
                    &&& after == (RunRecord {
                        turn_started: true,
                        provider_thread_id: after.provider_thread_id,
                        ..record
                    })
                    &&& opt_view(after.provider_thread_id) == Some(
                        anchor_identity(*event, record, synthetic_identity@),
                    )
                    &&& final(self)@ == old(self)@.with_changed(event.run_id@, after)
                },
                false => final(self)@ == old(self)@,
            },
    {
        if let Some(record) = self.get(event.run_id.as_str()) {
            let identity: String = anchor_identity_text(event, &record, synthetic_identity);
            let _ = self.mark_started(event.run_id.as_str(), identity);
        }
    }

    /// Records that the relay took a report: a start is marked, under the identity it names or
    /// else the stand-in, and so is a provider error.
    pub fn report_forwarded(&mut self, event: &ReportedEvent, synthetic_identity: &str)
        requires
            old(self).wf(),
        ensures
            final(self).wf(),
            !old(self)@.records.dom().contains(event.run_id@) ==> final(self)@ == old(self)@,
            old(self)@.records.dom().contains(event.run_id@) ==> ({
                let record = old(self)@.records[event.run_id@];
                let after = final(self)@.records[event.run_id@];
                if event.kind@ == "turn/started"@ && !record.turn_started {
                    &&& after == (RunRecord {
                        turn_started: true,
                        provider_thread_id: after.provider_thread_id,
                        ..record
                    })
                    &&& opt_view(after.provider_thread_id) == Some(
                        start_identity(event.provider_thread_id, None, synthetic_identity@),
                    )
                    &&& final(self)@ == old(self)@.with_changed(event.run_id@, after)
                } else if event.kind@ != "turn/started"@ && event.kind@ == "provider/error"@ {
                    final(self)@ == old(self)@.with_changed(
                        event.run_id@,
                        (RunRecord { provider_error_reported: true, ..record }),
                    )
                } else {
                    final(self)@ == old(self)@
                }
            }),
    {
        if same_text(event.kind.as_str(), "turn/started") {
            let identity: String = match &event.provider_thread_id {
                Some(text) => text.clone(),
                None => synthetic_identity.to_owned(),
            };
            let _ = self.mark_started(event.run_id.as_str(), identity);
        } else if same_text(event.kind.as_str(), "provider/error") {
            self.mark_provider_error(event.run_id.as_str());
        }
    }
}

/// The start that a report's turn is given.
fn anchor_identity_text(event: &ReportedEvent, record: &RunRecord, synthetic: &str) -> (result:
    String)
    ensures
        result@ == anchor_identity(*event, *record, synthetic@),
{
    match &event.provider_thread_id {
        Some(text) => text.clone(),
        None => match &record.provider_thread_id {
            Some(text) => text.clone(),
            None => synthetic.to_owned(),
        },
    }
}

/// What a terminal report came to.
pub fn report_outcome(result: FinishRunResult) -> (outcome: ReportOutcome)
    ensures
        outcome == (match result {
            FinishRunResult::Finished => ReportOutcome::Applied,
            FinishRunResult::AlreadyFinished => ReportOutcome::Unknown,
            FinishRunResult::PublishFailed(error) => ReportOutcome::PublishFailed { error },
        }),
{
    match result {
        FinishRunResult::Finished => ReportOutcome::Applied,
        FinishRunResult::AlreadyFinished => ReportOutcome::Unknown,
        FinishRunResult::PublishFailed(error) => ReportOutcome::PublishFailed { error },
    }
}

/// What a request to stop a thread came to.
pub fn stop_outcome(result: FinishRunResult) -> (outcome: StopOutcome)
    ensures
        outcome == (match result {
            FinishRunResult::Finished => StopOutcome::Stopped,
            FinishRunResult::AlreadyFinished => StopOutcome::NoRun,
            FinishRunResult::PublishFailed(error) => StopOutcome::PublishFailed { error },
        }),
{
    match result {
        FinishRunResult::Finished => StopOutcome::Stopped,
        FinishRunResult::AlreadyFinished => StopOutcome::NoRun,
        FinishRunResult::PublishFailed(error) => StopOutcome::PublishFailed { error },
    }
}

/// The agent's conversation that an event makes known, with what it belongs to.
#[derive(Debug, PartialEq, Eq)]
pub struct LearnedSession {
    /// The thread that it is the conversation of.
    pub thread_id: String,
    /// The agent's own id for it.
    pub session_id: String,
    /// The agent and the directory, where the run that opened it is still in flight.
    pub binding: Option<LearnedBinding>,
}

/// What a conversation belongs to.
#[derive(Debug, PartialEq, Eq)]
pub struct LearnedBinding {
    /// The agent that issued it.
    pub agent: String,
    /// The directory that it was opened in.
    pub cwd: String,
}

/// Whether an event makes this known of its thread's conversation.
pub open spec fn learns(
    event: ReportedEvent,
    run: Option<RunRecord>,
    agent: Seq<char>,
    result: Option<LearnedSession>,
) -> bool {
    &&& result is Some <==> event.kind@ == "thread/identity"@ && event.provider_thread_id is Some
    &&& result matches Some(learned) ==> {
        &&& learned.thread_id@ == event.thread_id@
        &&& Some(learned.session_id) == event.provider_thread_id
        &&& learned.binding is Some <==> run is Some
        &&& run matches Some(record) ==> learned.binding->0.agent@ == agent
            && learned.binding->0.cwd@ == record.cwd@
    }
}

/// What an event makes known of its thread's conversation. Only an identity event that names one
/// does; the binding is that of the run in flight, and unknown where there is none.
pub fn learned_session(
    event: &ReportedEvent,
    run: &Option<RunRecord>,
    agent: &str,
) -> (result: Option<LearnedSession>)
    ensures
        learns(*event, *run, agent@, result),
{
    if !same_text(event.kind.as_str(), "thread/identity") {
        return None;
    }
    match &event.provider_thread_id {
        None => None,
        Some(session) => {
            let binding: Option<LearnedBinding> = match run {
                Some(record) => Some(
                    LearnedBinding { agent: agent.to_owned(), cwd: record.cwd.clone() },
                ),
                None => None,
            };
            Some(
                LearnedSession {
                    thread_id: event.thread_id.clone(),
                    session_id: session.clone(),
                    binding,
                },
            )
        },
    }
}

/// A verdict that the control plane reaches without a report.
#[derive(Debug, PartialEq, Eq)]
pub struct Verdict {
    /// How the run ends.
    pub outcome: RunOutcome,
    /// What went wrong.
    pub error: Option<String>,
}

/// The verdict on a run whose host stopped heartbeating.
pub fn stale_verdict(host_id: &str) -> (result: Verdict)
    ensures
        result.outcome == RunOutcome::HostStale,
        opt_view(result.error) == Some("host "@ + host_id@ + " stopped heartbeating"@),
{
    Verdict {
        outcome: RunOutcome::HostStale,
        error: Some(joined3("host ", host_id, " stopped heartbeating")),
    }
}

/// The verdict on a run whose deadline passed: the failure it was recorded with, else a timeout.
pub fn overdue_verdict(record: &RunRecord) -> (result: Verdict)
    ensures
        match record.failure_reason {
            Some(reason) => result.outcome == RunOutcome::Failed && opt_view(result.error) == Some(
                reason@,
            ),
            None => result.outcome == RunOutcome::TimedOut && opt_view(result.error) == Some(
                "run exceeded its deadline"@,
            ),
        },
{
    match &record.failure_reason {
        Some(reason) => Verdict { outcome: RunOutcome::Failed, error: Some(reason.clone()) },
        None => Verdict {
            outcome: RunOutcome::TimedOut,
            error: Some("run exceeded its deadline".to_owned()),
        },
    }
}

/// The verdict on a run that ended and whose thread is still to be settled: the outcome that its
/// terminal event carried.
pub fn settle_verdict(record: &RunRecord) -> (result: Verdict)
    ensures
        result.outcome == (match record.terminal_outcome {
            Some(outcome) => outcome,
            None => RunOutcome::Failed,
        }),
        result.error is None,
{
    let outcome: RunOutcome = match record.terminal_outcome {
        Some(outcome) => outcome,
        None => RunOutcome::Failed,
    };
    Verdict { outcome, error: None }
}

/// The verdict on a run that the server finds in flight when it starts.
pub fn restart_verdict(record: &RunRecord) -> (result: Verdict)
    ensures
        result.outcome == RunOutcome::Failed,
        opt_view(result.error) == Some(
            match record.failure_reason {
                Some(reason) => reason@,
                None => "server restarted while the run was in flight"@,
            },
        ),
{
    let error: String = match &record.failure_reason {
        Some(reason) => reason.clone(),
        None => "server restarted while the run was in flight".to_owned(),
    };
    Verdict { outcome: RunOutcome::Failed, error: Some(error) }
}

/// The verdict on a run that a client stops.
pub fn stop_verdict() -> (result: Verdict)
    ensures
        result.outcome == RunOutcome::Cancelled,
        opt_view(result.error) == Some("stopped by a client"@),
{
    Verdict {
        outcome: RunOutcome::Cancelled,
        error: Some("stopped by a client".to_owned()),
    }
}

/// The request that carries a verdict out.
pub fn verdict_request(
    record: &RunRecord,
    verdict: Verdict,
    synthetic_identity: &str,
    now_ms: u64,
) -> (result: FinishRequest)
    ensures
        result.run_id@ == record.run_id@,
        result.outcome == verdict.outcome,
        result.error == verdict.error,
        result.event is None,
        result.synthetic_identity@ == synthetic_identity@,
        result.now_ms == now_ms,
{
    FinishRequest {
        run_id: record.run_id.clone(),
        outcome: verdict.outcome,
        error: verdict.error,
        event: None,
        synthetic_identity: synthetic_identity.to_owned(),
        now_ms,
    }
}

/// Whether a connected host has been quiet for longer than it may be.
pub open spec fn is_stale(host: Host, now_ms: u64, stale_after_ms: u64) -> bool {
    let seen = match host.last_seen_at_ms {
        Some(at) => at,
        None => host.updated_at_ms,
    };
    host.status == HostStatus::Connected && now_ms - seen > stale_after_ms
}

/// The hosts that went quiet, in order.
pub open spec fn stale_ids(hosts: Seq<Host>, now_ms: u64, stale_after_ms: u64) -> Seq<Seq<char>>
    decreases hosts.len(),
{
    if hosts.len() == 0 {
        Seq::empty()
    } else {
        let rest = stale_ids(hosts.drop_last(), now_ms, stale_after_ms);
        if is_stale(hosts.last(), now_ms, stale_after_ms) {
            rest.push(hosts.last().id@)
        } else {
            rest
        }
    }
}

/// The hosts that have not heartbeat within the staleness window.
pub fn stale_hosts(hosts: &Vec<Host>, now_ms: u64, stale_after_ms: u64) -> (result: Vec<String>)
    ensures
        texts(result@) == stale_ids(hosts@, now_ms, stale_after_ms),
{
    let mut stale: Vec<String> = Vec::new();
    assert(hosts@.take(0) =~= Seq::<Host>::empty());
    assert(texts(stale@) =~= stale_ids(hosts@.take(0), now_ms, stale_after_ms));
    for i in 0..hosts.len()
        invariant
            texts(stale@) == stale_ids(hosts@.take(i as int), now_ms, stale_after_ms),
    {
        let host: &Host = &hosts[i];
        let ghost before = texts(stale@);
        assert(hosts@.take(i + 1).drop_last() =~= hosts@.take(i as int));
        assert(hosts@.take(i + 1).last() == *host);
        let seen: u64 = match host.last_seen_at_ms {
            Some(at) => at,
            None => host.updated_at_ms,
        };
        if host.status == HostStatus::Connected && now_ms > seen && now_ms - seen > stale_after_ms {
            stale.push(host.id.clone());
            assert(texts(stale@) =~= before.push(host.id@));
        }
    }
    assert(hosts@.take(hosts@.len() as int) =~= hosts@);
    stale
}

/// How the automation run behind a provider run ends.
#[derive(Debug, PartialEq, Eq)]
pub enum AutomationRunOutcome {
    /// It succeeded.
    Succeeded {
        /// The thread it ran in.
        thread_id: String,
    },
    /// It was stopped.
    Cancelled {
        /// Why.
        reason: String,
    },
    /// It failed.
    Failed {
        /// Why.
        error: String,
        /// The thread it ran in.
        thread_id: String,
    },
}

/// Whether the automation run behind a provider run ends so.
pub open spec fn automation_ends(
    record: RunRecord,
    outcome: RunOutcome,
    error: Option<String>,
    result: AutomationRunOutcome,
) -> bool {
    match outcome {
        RunOutcome::Completed => result matches AutomationRunOutcome::Succeeded { thread_id }
            && thread_id@ == record.thread_id@,
        RunOutcome::Cancelled => result matches AutomationRunOutcome::Cancelled { reason }
            && reason@ == (match error {
            Some(text) => text@,
            None => "the run was stopped before it finished"@,
        }),
        _ => result matches AutomationRunOutcome::Failed { error: e, thread_id } && thread_id@
            == record.thread_id@ && e@ == (match error {
            Some(text) => text@,
            None => outcome.spec_as_str(),
        }),
    }
}

/// How the automation run behind a provider run ends: as the run did, with what went wrong.
pub fn automation_outcome(record: &RunRecord, outcome: RunOutcome, error: &Option<String>) -> (
result: AutomationRunOutcome)
    ensures
        automation_ends(*record, outcome, *error, result),
{
    match outcome {
        RunOutcome::Completed => AutomationRunOutcome::Succeeded {
            thread_id: record.thread_id.clone(),
        },
        RunOutcome::Cancelled => {
            let reason: String = match error {
                Some(text) => text.clone(),
                None => "the run was stopped before it finished".to_owned(),
            };
            AutomationRunOutcome::Cancelled { reason }
        },
        RunOutcome::Failed | RunOutcome::TimedOut | RunOutcome::HostStale => {
            let reason: String = match error {
                Some(text) => text.clone(),
                None => outcome.as_str().to_owned(),
            };
            AutomationRunOutcome::Failed { error: reason, thread_id: record.thread_id.clone() }
        },
    }
}

/// One machine cannot end or extend another's turn: a report from a host that does not own the
/// run, or for a thread that the run is not of, is refused whatever it says.
pub proof fn foreign_reports_are_refused(
    records: Map<Seq<char>, RunRecord>,
    host_id: Seq<char>,
    run_id: Seq<char>,
    thread_id: Seq<char>,
)
    requires
        records.dom().contains(run_id),
        records[run_id].host_id@ != host_id || records[run_id].thread_id@ != thread_id,
    ensures
        standing(records, host_id, run_id, thread_id) is Mismatch,
{
}

/// A report of a run that left the table is unknown, so a redelivery changes nothing.
pub proof fn late_reports_are_unknown(
    table: RunTable,
    host_id: Seq<char>,
    run_id: Seq<char>,
    thread_id: Seq<char>,
)
    ensures
        standing(table.without_run(run_id).records, host_id, run_id, thread_id) is Unknown,
{
}

/// No run outlives its deadline: each that is past it is either to be ended or to be settled, so a
/// sweep over both reaches it, whatever its machine does or does not report.
pub proof fn sweeps_reach_every_late_run(
    table: RunTable,
    overdue: Seq<RunRecord>,
    unsettled: Seq<RunRecord>,
    run: Seq<char>,
    now_ms: u64,
)
    requires
        selected(
            table,
            |record: RunRecord| record.deadline_ms <= now_ms && !record.terminal_published,
            overdue,
        ),
        selected(table, |record: RunRecord| record.terminal_published, unsettled),
        table.records.dom().contains(run),
        table.records[run].deadline_ms <= now_ms,
    ensures
        overdue.contains(table.records[run]) || unsettled.contains(table.records[run]),
{
}

/// Nor does one outlive its machine: each run of a host that went quiet is either stranded or to be
/// settled.
pub proof fn sweeps_reach_every_stranded_run(
    table: RunTable,
    host_id: Seq<char>,
    stranded: Seq<RunRecord>,
    unsettled: Seq<RunRecord>,
    run: Seq<char>,
)
    requires
        selected(
            table,
            |record: RunRecord| record.host_id@ == host_id && !record.terminal_published,
            stranded,
        ),
        selected(table, |record: RunRecord| record.terminal_published, unsettled),
        table.records.dom().contains(run),
        table.records[run].host_id@ == host_id,
    ensures
        stranded.contains(table.records[run]) || unsettled.contains(table.records[run]),
{
}

/// A run ends as its own host says. A terminal report finishes the run with the verdict that it
/// carries, whichever that is; where it carries none, a completed turn completed the run, an
/// interrupted one cancelled it, and a failed one, or one of no status, failed it. What went wrong is
/// what the report says, and the report itself is what ends the run in the log.
pub proof fn runs_end_as_their_host_says(
    records: Map<Seq<char>, RunRecord>,
    host_id: Seq<char>,
    event: ReportedEvent,
    synthetic: Seq<char>,
    now_ms: u64,
    result: ReportStep,
)
    requires
        report_decides(records, host_id, event, synthetic, now_ms, result),
        records.dom().contains(event.run_id@),
        records[event.run_id@].host_id@ == host_id,
        records[event.run_id@].thread_id@ == event.thread_id@,
        event.kind@ == "turn/completed"@,
    ensures
        result matches ReportStep::Finish(request) && {
            &&& request.run_id@ == event.run_id@
            &&& event.outcome matches Some(verdict) ==> request.outcome == verdict
            &&& event.outcome is None && event.status == Some(TurnStatus::Completed)
                ==> request.outcome == RunOutcome::Completed
            &&& event.outcome is None && event.status == Some(TurnStatus::Interrupted)
                ==> request.outcome == RunOutcome::Cancelled
            &&& event.outcome is None && event.status == Some(TurnStatus::Failed)
                ==> request.outcome == RunOutcome::Failed
            &&& event.outcome is None && event.status is None ==> request.outcome
                == RunOutcome::Failed
            &&& request.error is Some <==> event.error is Some
            &&& event.error matches Some(text) ==> request.error->0@ == text@
            &&& request.event matches Some(reported) && reported.kind@ == event.kind@
                && reported.body@ == event.body@ && reported.at_ms == event.at_ms
                && reported.outcome == event.outcome
        },
{
}

/// Only a terminal report of a run's own host for the run's own thread ends the run.
pub proof fn nothing_else_ends_a_run(
    records: Map<Seq<char>, RunRecord>,
    host_id: Seq<char>,
    event: ReportedEvent,
    synthetic: Seq<char>,
    now_ms: u64,
    result: ReportStep,
)
    requires
        report_decides(records, host_id, event, synthetic, now_ms, result),
    ensures
        result is Finish ==> event.kind@ == "turn/completed"@ && records.dom().contains(
            event.run_id@,
        ) && records[event.run_id@].host_id@ == host_id && records[event.run_id@].thread_id@
            == event.thread_id@,
        !records.dom().contains(event.run_id@) ==> result == ReportStep::Done(
            ReportOutcome::Unknown,
        ),
        records.dom().contains(event.run_id@) && records[event.run_id@].host_id@ != host_id ==> (
        result matches ReportStep::Done(ReportOutcome::Mismatch(text)) && text@ == "run "@
            + event.run_id@ + " is owned by host "@ + records[event.run_id@].host_id@ + ", not "@
            + host_id),
        records.dom().contains(event.run_id@) && records[event.run_id@].host_id@ == host_id
            && records[event.run_id@].thread_id@ != event.thread_id@ ==> (
        result matches ReportStep::Done(ReportOutcome::Mismatch(text)) && text@ == "run "@
            + event.run_id@ + " belongs to thread "@ + records[event.run_id@].thread_id@
            + ", not "@ + event.thread_id@),
{
}

/// What a run's own host reports reaches its thread's log as it was reported, behind a start: a
/// report of the turn before the turn has one is given one first, under the conversation that the
/// report names, else the one on record, else the stand-in; a second start is taken and not logged.
pub proof fn reports_reach_the_log_behind_a_start(
    records: Map<Seq<char>, RunRecord>,
    host_id: Seq<char>,
    event: ReportedEvent,
    synthetic: Seq<char>,
    now_ms: u64,
    result: ReportStep,
)
    requires
        report_decides(records, host_id, event, synthetic, now_ms, result),
        records.dom().contains(event.run_id@),
        records[event.run_id@].host_id@ == host_id,
        records[event.run_id@].thread_id@ == event.thread_id@,
        event.kind@ != "turn/completed"@,
    ensures
        event.kind@ == "turn/started"@ && records[event.run_id@].turn_started ==> result
            == ReportStep::Done(ReportOutcome::Applied),
        event.kind@ == "turn/started"@ && !records[event.run_id@].turn_started ==> result is Forward,
        event.kind@ != "turn/started"@ && (event.thread_scoped
            || records[event.run_id@].turn_started) ==> result is Forward,
        event.kind@ != "turn/started"@ && !event.thread_scoped
            && !records[event.run_id@].turn_started ==> (result matches ReportStep::Anchor(append)
            && (append.body matches RunBody::Started { provider_thread_id } && {
            &&& event.provider_thread_id matches Some(named) ==> provider_thread_id@ == named@
            &&& event.provider_thread_id is None
                && records[event.run_id@].provider_thread_id is Some ==> provider_thread_id@
                == records[event.run_id@].provider_thread_id->0@
            &&& event.provider_thread_id is None
                && records[event.run_id@].provider_thread_id is None ==> provider_thread_id@
                == synthetic
        }) && append.at_ms == now_ms && append.thread_id@ == records[event.run_id@].thread_id@
            && append.run_id@ == records[event.run_id@].run_id@),
        result matches ReportStep::Forward(append) ==> {
            &&& append.thread_id@ == records[event.run_id@].thread_id@
            &&& append.project_id@ == records[event.run_id@].project_id@
            &&& append.run_id@ == records[event.run_id@].run_id@
            &&& append.at_ms == event.at_ms
            &&& append.body matches RunBody::Reported(reported) && reported.kind@ == event.kind@
                && reported.body@ == event.body@
        },
{
}

/// A conversation that a run made known is continued by the next turn of its thread under the same
/// agent in the same directory, and by none elsewhere.
pub proof fn learned_conversations_are_continued(
    event: ReportedEvent,
    run: RunRecord,
    agent: Seq<char>,
    learned: LearnedSession,
    thread: Thread,
    next_agent: Seq<char>,
    cwd: Seq<char>,
)
    requires
        learns(event, Some(run), agent, Some(learned)),
        thread.provider_session_id == Some(learned.session_id),
        thread.provider_session_binding matches Some(binding) && learned.binding is Some
            && binding.agent@ == learned.binding->0.agent@ && binding.cwd@
            == learned.binding->0.cwd@,
    ensures
        event.provider_thread_id is Some,
        learned.thread_id@ == event.thread_id@,
        thread.spec_resumable(next_agent, cwd) is Some <==> next_agent == agent && cwd == run.cwd@,
        thread.spec_resumable(next_agent, cwd) matches Some(session) ==> session@
            == event.provider_thread_id->0@,
{
}

/// An automation succeeds exactly where its run completed, is cancelled exactly where its run was,
/// and otherwise fails with what went wrong.
pub proof fn automations_end_as_their_runs(
    record: RunRecord,
    outcome: RunOutcome,
    error: Option<String>,
    result: AutomationRunOutcome,
)
    requires
        automation_ends(record, outcome, error, result),
    ensures
        result is Succeeded <==> outcome == RunOutcome::Completed,
        result is Cancelled <==> outcome == RunOutcome::Cancelled,
        result is Failed <==> outcome == RunOutcome::Failed || outcome == RunOutcome::TimedOut
            || outcome == RunOutcome::HostStale,
        result matches AutomationRunOutcome::Succeeded { thread_id } ==> thread_id@
            == record.thread_id@,
        result matches AutomationRunOutcome::Cancelled { reason } ==> {
            &&& error matches Some(text) ==> reason@ == text@
            &&& error is None ==> reason@ == "the run was stopped before it finished"@
        },
        result matches AutomationRunOutcome::Failed { error: shown, thread_id } ==> {
            &&& thread_id@ == record.thread_id@
            &&& error matches Some(text) ==> shown@ == text@
            &&& error is None && outcome == RunOutcome::Failed ==> shown@ == "failed"@
            &&& error is None && outcome == RunOutcome::TimedOut ==> shown@ == "timed_out"@
            &&& error is None && outcome == RunOutcome::HostStale ==> shown@ == "host_stale"@
        },
{
}

/// Whether a machine is attached and was last heard of longer ago than it may be. One that was never
/// heard of counts from its last change.
pub open spec fn is_overdue(host: Host, now_ms: u64, stale_after_ms: u64) -> bool {
    &&& host.status == HostStatus::Connected
    &&& host.last_seen_at_ms matches Some(seen) ==> now_ms > seen + stale_after_ms
    &&& host.last_seen_at_ms is None ==> now_ms > host.updated_at_ms + stale_after_ms
}

/// The machines that went quiet are those that are attached and were last heard of longer ago than
/// they may be, and no others.
pub proof fn quiet_machines_are_found(
    hosts: Seq<Host>,
    now_ms: u64,
    stale_after_ms: u64,
    id: Seq<char>,
)
    ensures
        stale_ids(hosts, now_ms, stale_after_ms).contains(id) <==> exists|i: int|
            0 <= i < hosts.len() && (#[trigger] hosts[i]).id@ == id && is_overdue(
                hosts[i],
                now_ms,
                stale_after_ms,
            ),
    decreases hosts.len(),
{
    let found = stale_ids(hosts, now_ms, stale_after_ms);
    if hosts.len() > 0 {
        let rest = hosts.drop_last();
        let last = hosts[hosts.len() - 1];
        let before = stale_ids(rest, now_ms, stale_after_ms);
        quiet_machines_are_found(rest, now_ms, stale_after_ms, id);
        assert(is_stale(last, now_ms, stale_after_ms) == is_overdue(last, now_ms, stale_after_ms));
        if found.contains(id) {
            let k = choose|k: int| 0 <= k < found.len() && found[k] == id;
            if k < before.len() {
                assert(before[k] == id);
                assert(before.contains(id));
                let i = choose|i: int|
                    0 <= i < rest.len() && (#[trigger] rest[i]).id@ == id && is_overdue(
                        rest[i],
                        now_ms,
                        stale_after_ms,
                    );
                assert(hosts[i] == rest[i]);
            } else {
                assert(hosts[hosts.len() - 1].id@ == id);
            }
        }
        if exists|i: int|
            0 <= i < hosts.len() && (#[trigger] hosts[i]).id@ == id && is_overdue(
                hosts[i],
                now_ms,
                stale_after_ms,
            ) {
            let i = choose|i: int|
                0 <= i < hosts.len() && (#[trigger] hosts[i]).id@ == id && is_overdue(
                    hosts[i],
                    now_ms,
                    stale_after_ms,
                );
            if i < rest.len() {
                assert(rest[i] == hosts[i]);
                assert(before.contains(id));
                let k = choose|k: int| 0 <= k < before.len() && before[k] == id;
                assert(found[k] == id);
            } else {
                assert(found[before.len() as int] == id);
            }
        }
    }
}

// How reports and verdicts are taken.

/// A report is a run's own exactly where the run is in flight on that machine and for that thread;
/// otherwise it says whose the run is.
pub proof fn reports_stand_to_their_run(
    registry: RunRegistry,
    host_id: &str,
    run_id: &str,
    thread_id: &str,
    answer: Ownership,
)
    requires
        call_ensures(RunRegistry::ownership, (&registry, host_id, run_id, thread_id), answer),
    ensures
        ({
            let known = registry@.records.dom().contains(run_id@);
            let record = registry@.records[run_id@];
            &&& answer is Unknown <==> !known
            &&& answer is Own <==> known && record.host_id@ == host_id@ && record.thread_id@ == thread_id@
            &&& answer matches Ownership::Own(own) ==> own == record
            &&& (known && record.host_id@ != host_id@) ==> (answer matches Ownership::Mismatch(why) && why@ == "run "@ + run_id@ + " is owned by host "@ + record.host_id@ + ", not "@ + host_id@)
            &&& (known && record.host_id@ == host_id@ && record.thread_id@ != thread_id@) ==> (answer matches Ownership::Mismatch(why) && why@ == "run "@ + run_id@ + " belongs to thread "@ + record.thread_id@ + ", not "@ + thread_id@)
        }),
{
}

/// A run that was anchored has started, once, under the conversation that the report names, else
/// the one on record, else the stand-in; nothing else changes.
pub proof fn anchored_runs_have_started(
    registry: &mut RunRegistry,
    event: ReportedEvent,
    synthetic: &str,
    other: Seq<char>,
)
    requires
        call_ensures(RunRegistry::report_anchored, (registry, &event, synthetic), ()),
    ensures
        ({
            let known = final(registry)@.records.dom().contains(event.run_id@);
            let record = old(registry)@.records[event.run_id@];
            let after = final(registry)@.records[event.run_id@];
            &&& (known && !record.turn_started) ==> {
                &&& after.turn_started
                &&& after.provider_thread_id is Some
                &&& event.provider_thread_id is Some ==> after.provider_thread_id->0@ == event.provider_thread_id->0@
                &&& event.provider_thread_id is None && record.provider_thread_id is Some ==> after.provider_thread_id->0@ == record.provider_thread_id->0@
                &&& event.provider_thread_id is None && record.provider_thread_id is None ==> after.provider_thread_id->0@ == synthetic@
                &&& after.terminal_published == record.terminal_published
                &&& after.deadline_ms == record.deadline_ms
            }
            &&& !(known && !record.turn_started) ==> final(registry)@ == old(registry)@
            &&& other != event.run_id@ && old(registry)@.records.dom().contains(other) ==> final(registry)@.records[other] == old(registry)@.records[other]
            &&& final(registry)@.claims == old(registry)@.claims
        }),
{
}

/// A forwarded start notes that its run started, a forwarded error that an error was told; any
/// other report changes nothing.
pub proof fn forwarded_reports_are_noted(
    registry: &mut RunRegistry,
    event: ReportedEvent,
    synthetic: &str,
)
    requires
        call_ensures(RunRegistry::report_forwarded, (registry, &event, synthetic), ()),
    ensures
        ({
            let known = old(registry)@.records.dom().contains(event.run_id@);
            let record = old(registry)@.records[event.run_id@];
            let after = final(registry)@.records[event.run_id@];
            &&& !known ==> final(registry)@ == old(registry)@
            &&& (known && event.kind@ == "turn/started"@ && !record.turn_started) ==> {
                &&& after.turn_started
                &&& after.provider_thread_id is Some
                &&& event.provider_thread_id is Some ==> after.provider_thread_id->0@ == event.provider_thread_id->0@
                &&& event.provider_thread_id is None ==> after.provider_thread_id->0@ == synthetic@
                &&& after.provider_error_reported == record.provider_error_reported
            }
            &&& (known && event.kind@ == "provider/error"@) ==> after.provider_error_reported && after.turn_started == record.turn_started && after.terminal_published == record.terminal_published
            &&& (known && event.kind@ != "provider/error"@ && (event.kind@ != "turn/started"@ || record.turn_started)) ==> final(registry)@ == old(registry)@
        }),
{
    reveal_strlit("turn/started");
    reveal_strlit("provider/error");
    assert("turn/started"@.len() == 12);
    assert("provider/error"@.len() == 14);
}

/// A run that was finished answers its report as applied and its stop as done; one that was
/// finished before is unknown to the one and no run to the other; a failed append says why.
pub proof fn finishes_answer_the_report_and_the_stop(
    result: FinishRunResult,
    report: ReportOutcome,
    stop: StopOutcome,
)
    requires
        call_ensures(report_outcome, (result,), report),
        call_ensures(stop_outcome, (result,), stop),
    ensures
        result is Finished ==> report is Applied && stop is Stopped,
        result is AlreadyFinished ==> report is Unknown && stop is NoRun,
        result matches FinishRunResult::PublishFailed(why) ==> report == (ReportOutcome::PublishFailed { error: why }) && stop == (StopOutcome::PublishFailed { error: why }),
{
}

/// A verdict says how a run ended and why: its machine went quiet, it passed its deadline or had
/// failed before that, the server restarted, a client stopped it, or it had ended already.
pub proof fn verdicts_say_why(
    host_id: &str,
    record: RunRecord,
    stale: Verdict,
    overdue: Verdict,
    settle: Verdict,
    restart: Verdict,
    stop: Verdict,
)
    requires
        call_ensures(stale_verdict, (host_id,), stale),
        call_ensures(overdue_verdict, (&record,), overdue),
        call_ensures(settle_verdict, (&record,), settle),
        call_ensures(restart_verdict, (&record,), restart),
        call_ensures(stop_verdict, (), stop),
    ensures
        stale.outcome == RunOutcome::HostStale,
        stale.error is Some,
        stale.error->0@ == "host "@ + host_id@ + " stopped heartbeating"@,
        record.failure_reason is None ==> overdue.outcome == RunOutcome::TimedOut && overdue.error is Some && overdue.error->0@ == "run exceeded its deadline"@,
        record.failure_reason matches Some(why) ==> overdue.outcome == RunOutcome::Failed && overdue.error is Some && overdue.error->0@ == why@,
        record.terminal_outcome matches Some(outcome) ==> settle.outcome == outcome,
        record.terminal_outcome is None ==> settle.outcome == RunOutcome::Failed,
        settle.error is None,
        restart.outcome == RunOutcome::Failed,
        restart.error is Some,
        record.failure_reason is None ==> restart.error->0@ == "server restarted while the run was in flight"@,
        record.failure_reason matches Some(why) ==> restart.error->0@ == why@,
        stop.outcome == RunOutcome::Cancelled,
        stop.error is Some,
        stop.error->0@ == "stopped by a client"@,
{
}

/// A verdict asks for its run's end as it says, without a report.
pub proof fn verdicts_ask_for_their_end(
    record: RunRecord,
    verdict: Verdict,
    synthetic: &str,
    now_ms: u64,
    request: FinishRequest,
)
    requires
        call_ensures(verdict_request, (&record, verdict, synthetic, now_ms), request),
    ensures
        request.run_id@ == record.run_id@,
        request.outcome == verdict.outcome,
        request.error == verdict.error,
        request.event is None,
        request.synthetic_identity@ == synthetic@,
        request.now_ms == now_ms,
{
}

/// The machines that went quiet are listed in their order.
pub proof fn quiet_machines_are_listed_in_order(
    hosts: Seq<Host>,
    now_ms: u64,
    stale_after_ms: u64,
)
    ensures
        stale_ids(hosts, now_ms, stale_after_ms) == hosts.filter(|host: Host| is_overdue(host, now_ms, stale_after_ms)).map_values(|host: Host| host.id@),
    decreases hosts.len(),
{
    let kept = |host: Host| is_overdue(host, now_ms, stale_after_ms);
    let row = |host: Host| host.id@;
    reveal(Seq::filter);
    if hosts.len() == 0 {
        assert(hosts.filter(kept).map_values(row) =~= Seq::<Seq<char>>::empty());
    } else {
        let rest = hosts.drop_last();
        quiet_machines_are_listed_in_order(rest, now_ms, stale_after_ms);
        if kept(hosts.last()) {
            assert(rest.filter(kept).push(hosts.last()).map_values(row) =~= rest.filter(kept).map_values(row).push(row(hosts.last())));
        }
    }
}

} // verus!
