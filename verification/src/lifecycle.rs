//! Finishing a run: which event to append next, and what the log then holds of the run.
//!
//! The relay decides whether an append is taken. So each function here either says what to append
//! or records that an append was taken, and the caller does the appending in between.

use vstd::prelude::*;

use crate::domain::{ReportedEvent, RunOutcome, ThreadStatus, TurnStatus};
use crate::runs::{PendingStatusChange, RunRecord, RunRegistry, RunTable};
use crate::text::{copy_opt, opt_view};

verus! {

/// The three events that the control plane itself appends while it finishes a run.
#[derive(Clone, Copy, Debug, PartialEq, Eq, Structural)]
pub enum FinishStage {
    /// The start of the turn.
    Start,
    /// The reason of a failure that the control plane owns.
    Diagnostic,
    /// The terminal event.
    Terminal,
}

/// What an appended run event says.
#[derive(Debug, PartialEq, Eq)]
pub enum RunBody {
    /// The turn started under a provider identity.
    Started {
        /// The agent's conversation, or a stand-in for the timeline alone.
        provider_thread_id: String,
    },
    /// Why the control plane failed the run.
    ProviderError {
        /// The identity that the run started under.
        provider_thread_id: String,
        /// The reason.
        message: String,
    },
    /// The turn ended by the control plane's own verdict.
    Terminal {
        /// The verdict.
        outcome: RunOutcome,
        /// The turn status that it is reported under.
        status: TurnStatus,
        /// What went wrong, unless the turn completed.
        error: Option<String>,
    },
    /// What the host reported, its body verbatim.
    Reported(ReportedEvent),
}

/// One event to append to a thread's room.
#[derive(Debug, PartialEq, Eq)]
pub struct RunAppend {
    /// The thread whose room it goes to.
    pub thread_id: String,
    /// Its project.
    pub project_id: String,
    /// The run that it is of.
    pub run_id: String,
    /// When it happened.
    pub at_ms: u64,
    /// What it says.
    pub body: RunBody,
}

/// A wish to end a run.
#[derive(Debug, PartialEq, Eq)]
pub struct FinishRequest {
    /// The run to end.
    pub run_id: String,
    /// How it ends.
    pub outcome: RunOutcome,
    /// What went wrong, where something is known.
    pub error: Option<String>,
    /// The host's own terminal event, where it reported one.
    pub event: Option<ReportedEvent>,
    /// The stand-in identity to start the turn under, where none is known.
    pub synthetic_identity: String,
    /// The time.
    pub now_ms: u64,
}

/// The result of claiming a run's terminal transition.
#[derive(Debug, PartialEq, Eq)]
pub enum FinishRunResult {
    /// The run was claimed and its lifecycle was settled.
    Finished,
    /// Another caller already claimed the terminal transition.
    AlreadyFinished,
    /// An append was rejected. The run remains in flight with progress flags advanced for the
    /// events that did append.
    PublishFailed(String),
}

/// What to do next to finish a run.
#[derive(Debug, PartialEq, Eq)]
pub enum FinishStep {
    /// The run is not in flight.
    AlreadyFinished,
    /// Append this event, then say that it was taken.
    Append {
        /// Which of the three events it is.
        stage: FinishStage,
        /// The event.
        append: RunAppend,
    },
    /// The terminal event is in the log; settle the thread.
    Settle {
        /// The outcome that the log holds.
        outcome: RunOutcome,
        /// What went wrong, where something is known.
        error: Option<String>,
    },
}

/// A thread as its settlement reads it.
#[derive(Debug, PartialEq, Eq)]
pub struct ThreadFacts {
    /// The thread.
    pub thread_id: String,
    /// Its project.
    pub project_id: String,
    /// Where it is.
    pub status: ThreadStatus,
    /// Where the run's trigger leads, if anywhere.
    pub next: Option<ThreadStatus>,
}

/// What to do next to settle a thread.
#[derive(Debug, PartialEq, Eq)]
pub enum SettleStep {
    /// The run is not in flight.
    AlreadyFinished,
    /// Append this status change, then complete.
    AppendStatus(PendingStatusChange),
    /// There is no status to change; complete.
    Complete,
}

/// Whether a failure is the control plane's own: no host reported it.
pub open spec fn server_failure(request: FinishRequest) -> bool {
    request.event is None && (request.outcome is Failed || request.outcome is TimedOut
        || request.outcome is HostStale)
}

/// What went wrong: what the request says, else what the record says.
pub open spec fn effective_error(record: RunRecord, request: FinishRequest) -> Option<Seq<char>> {
    match request.error {
        Some(text) => Some(text@),
        None => opt_view(record.failure_reason),
    }
}

/// The identity that a run's start carries: the one the event names, else the one on record, else
/// the stand-in.
pub open spec fn start_identity(
    named: Option<String>,
    recorded: Option<String>,
    synthetic: Seq<char>,
) -> Seq<char> {
    match named {
        Some(text) => text@,
        None => match recorded {
            Some(text) => text@,
            None => synthetic,
        },
    }
}

/// The identity that finishing starts a run under.
pub open spec fn finish_identity(record: RunRecord, request: FinishRequest) -> Seq<char> {
    let named = match request.event {
        Some(event) => event.provider_thread_id,
        None => None,
    };
    start_identity(named, record.provider_thread_id, request.synthetic_identity@)
}

/// The event that comes next, or none once the terminal event is in the log: first the start,
/// then the reason where the failure is the control plane's own and none was published, then the
/// terminal event.
pub open spec fn finish_stage(record: RunRecord, request: FinishRequest) -> Option<FinishStage> {
    if record.terminal_published {
        None
    } else if !record.turn_started {
        Some(FinishStage::Start)
    } else if server_failure(request) && !record.provider_error_reported {
        Some(FinishStage::Diagnostic)
    } else {
        Some(FinishStage::Terminal)
    }
}

/// Whether an append carries the identity that a run was recorded with.
pub open spec fn identity_of(append: RunAppend, record: RunRecord) -> bool {
    &&& append.thread_id@ == record.thread_id@
    &&& append.project_id@ == record.project_id@
    &&& append.run_id@ == record.run_id@
}

/// Whether an append is the event of a stage.
pub open spec fn append_fits(
    record: RunRecord,
    request: FinishRequest,
    stage: FinishStage,
    append: RunAppend,
) -> bool {
    &&& identity_of(append, record)
    &&& match stage {
        FinishStage::Start => {
            &&& append.at_ms == request.now_ms
            &&& append.body matches RunBody::Started { provider_thread_id }
                && provider_thread_id@ == finish_identity(record, request)
        },
        FinishStage::Diagnostic => {
            &&& append.at_ms == request.now_ms
            &&& append.body matches RunBody::ProviderError { provider_thread_id, message }
                && provider_thread_id@ == finish_identity(record, request) && message@ == (
            match effective_error(record, request) {
                Some(text) => text,
                None => ""@,
            })
        },
        FinishStage::Terminal => match request.event {
            Some(event) => append.at_ms == event.at_ms && (append.body matches RunBody::Reported(
                reported,
            ) && reported.same(&event)),
            None => append.at_ms == request.now_ms && (append.body matches RunBody::Terminal {
                outcome,
                status,
                error,
            } && outcome == request.outcome && status == request.outcome.spec_turn_status()
                && opt_view(error) == (if request.outcome is Completed {
                None
            } else {
                Some(
                    match effective_error(record, request) {
                        Some(text) => text,
                        None => ""@,
                    },
                )
            })),
        },
    }
}

/// Whether a record is the one that follows once the append of a stage was taken.
pub open spec fn advanced(
    record: RunRecord,
    request: FinishRequest,
    stage: FinishStage,
    after: RunRecord,
) -> bool {
    match stage {
        FinishStage::Start => {
            &&& after == (RunRecord {
                turn_started: true,
                provider_thread_id: after.provider_thread_id,
                ..record
            })
            &&& opt_view(after.provider_thread_id) == Some(finish_identity(record, request))
        },
        FinishStage::Diagnostic => after == (RunRecord { provider_error_reported: true, ..record }),
        FinishStage::Terminal => after == (RunRecord {
            terminal_published: true,
            terminal_outcome: Some(request.outcome),
            ..record
        }),
    }
}

/// What went wrong: what the request says, else what the record says.
fn error_of(record: &RunRecord, request: &FinishRequest) -> (result: Option<String>)
    ensures
        opt_view(result) == effective_error(*record, *request),
{
    match &request.error {
        Some(text) => Some(text.clone()),
        None => copy_opt(&record.failure_reason),
    }
}

/// The identity that a run's start carries.
fn identity_text(named: &Option<String>, recorded: &Option<String>, synthetic: &str) -> (result:
    String)
    ensures
        result@ == start_identity(*named, *recorded, synthetic@),
{
    match named {
        Some(text) => text.clone(),
        None => match recorded {
            Some(text) => text.clone(),
            None => synthetic.to_owned(),
        },
    }
}

/// The identity that finishing starts a run under.
fn finish_identity_text(record: &RunRecord, request: &FinishRequest) -> (result: String)
    ensures
        result@ == finish_identity(*record, *request),
{
    match &request.event {
        Some(event) => identity_text(
            &event.provider_thread_id,
            &record.provider_thread_id,
            request.synthetic_identity.as_str(),
        ),
        None => identity_text(
            &None,
            &record.provider_thread_id,
            request.synthetic_identity.as_str(),
        ),
    }
}

/// An event under the identity of a run's record.
fn append_for(record: &RunRecord, at_ms: u64, body: RunBody) -> (result: RunAppend)
    ensures
        identity_of(result, *record),
        result.at_ms == at_ms,
        result.body == body,
{
    RunAppend {
        thread_id: record.thread_id.clone(),
        project_id: record.project_id.clone(),
        run_id: record.run_id.clone(),
        at_ms,
        body,
    }
}

/// The text, or the empty one.
fn text_or_empty(value: Option<String>) -> (result: String)
    ensures
        result@ == (match opt_view(value) {
            Some(text) => text,
            None => ""@,
        }),
{
    match value {
        Some(text) => text,
        None => "".to_owned(),
    }
}

/// The next step to finish a run whose record is at hand.
pub fn finish_action(record: &RunRecord, request: &FinishRequest) -> (result: FinishStep)
    ensures
        match finish_stage(*record, *request) {
            Some(stage) => result matches FinishStep::Append { stage: s, append } && s == stage
                && append_fits(*record, *request, stage, append),
            None => result matches FinishStep::Settle { outcome, error } && outcome == (
            match record.terminal_outcome {
                Some(published) => published,
                None => request.outcome,
            }) && opt_view(error) == effective_error(*record, *request),
        },
{
    if record.terminal_published {
        let outcome: RunOutcome = match record.terminal_outcome {
            Some(published) => published,
            None => request.outcome,
        };
        return FinishStep::Settle { outcome, error: error_of(record, request) };
    }
    if !record.turn_started {
        let append = append_for(
            record,
            request.now_ms,
            RunBody::Started { provider_thread_id: finish_identity_text(record, request) },
        );
        return FinishStep::Append { stage: FinishStage::Start, append };
    }
    let own_failure: bool = request.event.is_none() && (match request.outcome {
        RunOutcome::Failed | RunOutcome::TimedOut | RunOutcome::HostStale => true,
        _ => false,
    });
    if own_failure && !record.provider_error_reported {
        let append = append_for(
            record,
            request.now_ms,
            RunBody::ProviderError {
                provider_thread_id: finish_identity_text(record, request),
                message: text_or_empty(error_of(record, request)),
            },
        );
        return FinishStep::Append { stage: FinishStage::Diagnostic, append };
    }
    let append = match &request.event {
        Some(event) => append_for(record, event.at_ms, RunBody::Reported(event.clone())),
        None => {
            let error: Option<String> = match request.outcome {
                RunOutcome::Completed => None,
                _ => Some(text_or_empty(error_of(record, request))),
            };
            append_for(
                record,
                request.now_ms,
                RunBody::Terminal {
                    outcome: request.outcome,
                    status: request.outcome.turn_status(),
                    error,
                },
            )
        },
    };
    FinishStep::Append { stage: FinishStage::Terminal, append }
}

/// The status change that settling a run publishes: the one it already keeps, else the one that
/// its thread's status leads to, else none.
pub open spec fn status_change(
    record: RunRecord,
    thread: Option<ThreadFacts>,
    now_ms: u64,
) -> Option<PendingStatusChange> {
    match record.pending_status_event {
        Some(kept) => Some(kept),
        None => match thread {
            Some(facts) => match facts.next {
                Some(to) => Some(
                    PendingStatusChange {
                        thread_id: facts.thread_id,
                        project_id: facts.project_id,
                        from: facts.status,
                        to,
                        at_ms: now_ms,
                    },
                ),
                None => None,
            },
            None => None,
        },
    }
}

impl RunRegistry {
    /// The next step to finish a run.
    pub fn next_finish_step(&self, request: &FinishRequest) -> (result: FinishStep)
        requires
            self.wf(),
        ensures
            !self@.records.dom().contains(request.run_id@) ==> result is AlreadyFinished,
            self@.records.dom().contains(request.run_id@) ==> ({
                let record = self@.records[request.run_id@];
                match finish_stage(record, *request) {
                    Some(stage) => result matches FinishStep::Append { stage: s, append } && s
                        == stage && append_fits(record, *request, stage, append),
                    None => result matches FinishStep::Settle { outcome, error } && outcome == (
                    match record.terminal_outcome {
                        Some(published) => published,
                        None => request.outcome,
                    }) && opt_view(error) == effective_error(record, *request),
                }
            }),
    {
        match self.get(request.run_id.as_str()) {
            Some(record) => finish_action(&record, request),
            None => FinishStep::AlreadyFinished,
        }
    }

    /// Records that the relay took the append of the stage that came next.
    pub fn finish_append_accepted(&mut self, request: &FinishRequest, stage: FinishStage)
        requires
            old(self).wf(),
            old(self)@.records.dom().contains(request.run_id@),
            finish_stage(old(self)@.records[request.run_id@], *request) == Some(stage),
        ensures
            final(self).wf(),
            advanced(
                old(self)@.records[request.run_id@],
                *request,
                stage,
                final(self)@.records[request.run_id@],
            ),
            final(self)@ == old(self)@.with_changed(
                request.run_id@,
                final(self)@.records[request.run_id@],
            ),
    {
        match stage {
            FinishStage::Start => {
                if let Some(record) = self.get(request.run_id.as_str()) {
                    let identity: String = finish_identity_text(&record, request);
                    let _ = self.mark_started(request.run_id.as_str(), identity);
                }
            },
            FinishStage::Diagnostic => {
                self.mark_provider_error(request.run_id.as_str());
            },
            FinishStage::Terminal => {
                let _ = self.mark_terminal(request.run_id.as_str(), request.outcome);
            },
        }
    }

    /// Begins to settle the thread of a run whose terminal event is in the log. The status change
    /// is kept on the record before it is appended, so that a rejected append is retried as it
    /// was rather than built anew.
    pub fn begin_settlement(
        &mut self,
        run_id: &str,
        thread: &Option<ThreadFacts>,
        now_ms: u64,
    ) -> (result: SettleStep)
        requires
            old(self).wf(),
        ensures
            final(self).wf(),
            !old(self)@.records.dom().contains(run_id@) ==> result is AlreadyFinished && final(self)@ == old(self)@,
            old(self)@.records.dom().contains(run_id@) ==> ({
                let record = old(self)@.records[run_id@];
                match status_change(record, *thread, now_ms) {
                    Some(change) => result == SettleStep::AppendStatus(change) && final(self)@
                        == old(self)@.with_changed(
                        run_id@,
                        (RunRecord { pending_status_event: Some(change), ..record }),
                    ),
                    None => result is Complete && final(self)@ == old(self)@,
                }
            }),
    {
        match self.get(run_id) {
            None => SettleStep::AlreadyFinished,
            Some(record) => {
                let change: Option<PendingStatusChange> = match &record.pending_status_event {
                    Some(kept) => Some(kept.clone()),
                    None => match thread {
                        Some(facts) => match facts.next {
                            Some(to) => Some(
                                PendingStatusChange {
                                    thread_id: facts.thread_id.clone(),
                                    project_id: facts.project_id.clone(),
                                    from: facts.status,
                                    to,
                                    at_ms: now_ms,
                                },
                            ),
                            None => None,
                        },
                        None => None,
                    },
                };
                match change {
                    Some(change) => {
                        let _ = self.set_pending_status_event(run_id, change.clone());
                        SettleStep::AppendStatus(change)
                    },
                    None => SettleStep::Complete,
                }
            },
        }
    }

    /// Completes a settlement: the run leaves the table and gives up its thread.
    pub fn complete_settlement(&mut self, run_id: &str) -> (result: Option<RunRecord>)
        requires
            old(self).wf(),
        ensures
            final(self).wf(),
            final(self)@ == old(self)@.without_run(run_id@),
            match result {
                Some(record) => old(self)@.records.dom().contains(run_id@)
                    && old(self)@.records[run_id@] == record,
                None => !old(self)@.records.dom().contains(run_id@),
            },
    {
        self.remove(run_id)
    }
}

/// One lifecycle event of a run in the log.
pub ghost struct LogEntry {
    /// The run.
    pub run: Seq<char>,
    /// Which event.
    pub stage: FinishStage,
}

/// How many events of a stage the log holds of a run.
pub open spec fn logged(log: Seq<LogEntry>, run: Seq<char>, stage: FinishStage) -> nat
    decreases log.len(),
{
    if log.len() == 0 {
        0
    } else {
        logged(log.drop_last(), run, stage) + (if log.last().run == run && log.last().stage == stage {
            1nat
        } else {
            0nat
        })
    }
}

/// What the log holds of a run is what its record says: a start exactly where the turn started,
/// a terminal event exactly where one was published, and a reason of the control plane's own at
/// most where an error was reported.
pub open spec fn record_agrees(log: Seq<LogEntry>, run: Seq<char>, record: RunRecord) -> bool {
    &&& logged(log, run, FinishStage::Start) == (if record.turn_started {
        1nat
    } else {
        0nat
    })
    &&& logged(log, run, FinishStage::Terminal) == (if record.terminal_published {
        1nat
    } else {
        0nat
    })
    &&& logged(log, run, FinishStage::Diagnostic) <= (if record.provider_error_reported {
        1nat
    } else {
        0nat
    })
}

/// The log holds at most one start of a run, no more terminal events than starts, and at most one
/// reason of the control plane's own.
pub open spec fn at_most_once(log: Seq<LogEntry>, run: Seq<char>) -> bool {
    &&& logged(log, run, FinishStage::Start) <= 1
    &&& logged(log, run, FinishStage::Terminal) <= logged(log, run, FinishStage::Start)
    &&& logged(log, run, FinishStage::Diagnostic) <= 1
}

/// The log and the table agree on every run in flight, and no run started or ended twice.
pub open spec fn log_agrees(log: Seq<LogEntry>, table: RunTable) -> bool {
    &&& forall|run: Seq<char>| #[trigger]
        table.records.dom().contains(run) ==> record_agrees(log, run, table.records[run])
    &&& forall|run: Seq<char>| #[trigger] at_most_once(log, run)
}

/// Before every terminal event stands the start of its run.
pub open spec fn starts_first(log: Seq<LogEntry>) -> bool {
    forall|i: int|
        0 <= i < log.len() && (#[trigger] log[i]).stage == FinishStage::Terminal ==> exists|j: int|
            0 <= j < i && (#[trigger] log[j]).run == log[i].run && log[j].stage
                == FinishStage::Start
}

/// A count that is not zero has an event behind it.
proof fn logged_somewhere(log: Seq<LogEntry>, run: Seq<char>, stage: FinishStage) -> (j: int)
    requires
        logged(log, run, stage) > 0,
    ensures
        0 <= j < log.len(),
        log[j].run == run,
        log[j].stage == stage,
    decreases log.len(),
{
    if log.last().run == run && log.last().stage == stage {
        log.len() - 1
    } else {
        logged_somewhere(log.drop_last(), run, stage)
    }
}

/// One event more raises the count of its own run and stage and no other.
proof fn logged_push(log: Seq<LogEntry>, entry: LogEntry)
    ensures
        forall|run: Seq<char>, stage: FinishStage|
            #[trigger] logged(log.push(entry), run, stage) == logged(log, run, stage) + (
            if entry.run == run && entry.stage == stage {
                1nat
            } else {
                0nat
            }),
{
    assert(log.push(entry).drop_last() =~= log);
}

/// The start comes first, and no event of a run is appended twice: whatever finishing appends
/// next keeps the log in agreement with the table, and keeps every start before its terminal
/// event.
pub proof fn finishing_keeps_the_log(
    log: Seq<LogEntry>,
    table: RunTable,
    request: FinishRequest,
    stage: FinishStage,
    after: RunRecord,
)
    requires
        table.records.dom().contains(request.run_id@),
        log_agrees(log, table),
        starts_first(log),
        finish_stage(table.records[request.run_id@], request) == Some(stage),
        advanced(table.records[request.run_id@], request, stage, after),
    ensures
        log_agrees(
            log.push(LogEntry { run: request.run_id@, stage }),
            table.with_changed(request.run_id@, after),
        ),
        starts_first(log.push(LogEntry { run: request.run_id@, stage })),
{
    let run = request.run_id@;
    let record = table.records[run];
    let entry = LogEntry { run, stage };
    let more = log.push(entry);
    logged_push(log, entry);
    let next = table.with_changed(run, after);
    assert forall|r: Seq<char>| #[trigger] next.records.dom().contains(r) implies record_agrees(
        more,
        r,
        next.records[r],
    ) by {
        if r != run {
            assert(table.records.dom().contains(r));
        }
    }
    assert forall|r: Seq<char>| #[trigger] at_most_once(more, r) by {
        assert(at_most_once(log, r));
    }
    assert forall|i: int|
        0 <= i < more.len() && (#[trigger] more[i]).stage == FinishStage::Terminal implies exists|
        j: int,
    | 0 <= j < i && (#[trigger] more[j]).run == more[i].run && more[j].stage == FinishStage::Start by {
        if i < log.len() {
            assert(log[i] == more[i]);
            let j = choose|j: int|
                0 <= j < i && (#[trigger] log[j]).run == log[i].run && log[j].stage
                    == FinishStage::Start;
            assert(more[j] == log[j]);
        } else {
            assert(record.turn_started);
            let j = logged_somewhere(log, run, FinishStage::Start);
            assert(more[j] == log[j]);
        }
    }
}

/// A turn starts once: a start that is appended where the record has none, by finishing or for a
/// report, keeps the log in agreement with the table and ahead of every terminal event.
pub proof fn starting_keeps_the_log(
    log: Seq<LogEntry>,
    table: RunTable,
    run: Seq<char>,
    after: RunRecord,
)
    requires
        table.records.dom().contains(run),
        !table.records[run].turn_started,
        log_agrees(log, table),
        starts_first(log),
        after == (RunRecord {
            turn_started: true,
            provider_thread_id: after.provider_thread_id,
            ..table.records[run]
        }),
    ensures
        log_agrees(
            log.push(LogEntry { run, stage: FinishStage::Start }),
            table.with_changed(run, after),
        ),
        starts_first(log.push(LogEntry { run, stage: FinishStage::Start })),
{
    let entry = LogEntry { run, stage: FinishStage::Start };
    let more = log.push(entry);
    logged_push(log, entry);
    let next = table.with_changed(run, after);
    assert(at_most_once(log, run));
    assert forall|r: Seq<char>| #[trigger] next.records.dom().contains(r) implies record_agrees(
        more,
        r,
        next.records[r],
    ) by {
        if r != run {
            assert(table.records.dom().contains(r));
        }
    }
    assert forall|r: Seq<char>| #[trigger] at_most_once(more, r) by {
        assert(at_most_once(log, r));
    }
    assert forall|i: int|
        0 <= i < more.len() && (#[trigger] more[i]).stage == FinishStage::Terminal implies exists|
        j: int,
    | 0 <= j < i && (#[trigger] more[j]).run == more[i].run && more[j].stage == FinishStage::Start by {
        assert(i < log.len());
        assert(log[i] == more[i]);
        let j = choose|j: int|
            0 <= j < i && (#[trigger] log[j]).run == log[i].run && log[j].stage
                == FinishStage::Start;
        assert(more[j] == log[j]);
    }
}

/// How many appends a request still takes to bring the terminal event into the log.
pub open spec fn appends_left(record: RunRecord, request: FinishRequest) -> nat {
    if record.terminal_published {
        0
    } else {
        1 + (if record.turn_started {
            0nat
        } else {
            1nat
        }) + (if server_failure(request) && !record.provider_error_reported {
            1nat
        } else {
            0nat
        })
    }
}

/// Every run can be brought to its end: each append that is taken leaves one fewer to make, at
/// most three are ever needed, and when none is left the run is settled.
pub proof fn finishing_makes_progress(
    record: RunRecord,
    request: FinishRequest,
    stage: FinishStage,
    after: RunRecord,
)
    requires
        finish_stage(record, request) == Some(stage),
        advanced(record, request, stage, after),
    ensures
        appends_left(record, request) <= 3,
        appends_left(after, request) + 1 == appends_left(record, request),
        finish_stage(after, request) is None <==> appends_left(after, request) == 0,
{
}

/// A run that is settled left exactly one start, exactly one terminal event and at most one reason
/// of the control plane's own in the log, and both it and its claim are gone.
pub proof fn settled_runs_ended_once(log: Seq<LogEntry>, table: RunTable, run: Seq<char>)
    requires
        table.consistent(),
        table.records.dom().contains(run),
        table.records[run].terminal_published,
        log_agrees(log, table),
    ensures
        logged(log, run, FinishStage::Start) == 1,
        logged(log, run, FinishStage::Terminal) == 1,
        logged(log, run, FinishStage::Diagnostic) <= 1,
        !table.without_run(run).records.dom().contains(run),
        !table.without_run(run).claims.dom().contains(table.records[run].thread_id@),
        log_agrees(log, table.without_run(run)),
        table.without_run(run).consistent(),
{
    let next = table.without_run(run);
    assert(at_most_once(log, run));
    assert(table.holds(table.records[run].thread_id@, run));
    assert forall|r: Seq<char>| #[trigger] next.records.dom().contains(r) implies next.holds(
        next.records[r].thread_id@,
        r,
    ) && next.records[r].run_id@ == r && record_agrees(log, r, next.records[r]) by {
        assert(table.records.dom().contains(r));
        assert(table.holds(table.records[r].thread_id@, r));
    }
}

/// A thread has at most one run in flight: a run that is recorded under a claim of its own keeps
/// every run in flight in possession of its thread, and of two runs in flight no two share one.
pub proof fn one_run_per_thread(table: RunTable, record: RunRecord)
    requires
        table.consistent(),
        !table.records.dom().contains(record.run_id@),
        !table.claims.dom().contains(record.thread_id@) || table.holds(
            record.thread_id@,
            record.run_id@,
        ),
    ensures
        table.with_record(record).consistent(),
        forall|a: Seq<char>, b: Seq<char>|
            #![trigger table.with_record(record).records[a], table.with_record(record).records[b]]
            table.with_record(record).records.dom().contains(a) && table.with_record(
                record,
            ).records.dom().contains(b) && table.with_record(record).records[a].thread_id@
                == table.with_record(record).records[b].thread_id@ ==> a == b,
{
    let next = table.with_record(record);
    assert forall|r: Seq<char>| #[trigger] next.records.dom().contains(r) implies next.holds(
        next.records[r].thread_id@,
        r,
    ) && next.records[r].run_id@ == r by {
        if r != record.run_id@ {
            assert(table.records.dom().contains(r));
            assert(table.holds(table.records[r].thread_id@, r));
        }
    }
    assert(next.consistent());
    assert forall|a: Seq<char>, b: Seq<char>|
        next.records.dom().contains(a) && next.records.dom().contains(b) && (
        #[trigger] next.records[a]).thread_id@ == (#[trigger] next.records[b]).thread_id@ implies a
        == b by {
        assert(next.holds(next.records[a].thread_id@, a));
        assert(next.holds(next.records[b].thread_id@, b));
    }
}

/// A run that is new to the log starts it in agreement: nothing of it is in the log, and its
/// record says so.
pub proof fn a_new_run_agrees(log: Seq<LogEntry>, table: RunTable, record: RunRecord)
    requires
        log_agrees(log, table),
        !record.turn_started,
        !record.terminal_published,
        logged(log, record.run_id@, FinishStage::Start) == 0,
        logged(log, record.run_id@, FinishStage::Diagnostic) == 0,
    ensures
        log_agrees(log, table.with_record(record)),
{
    let next = table.with_record(record);
    assert(at_most_once(log, record.run_id@));
    assert forall|r: Seq<char>| #[trigger] next.records.dom().contains(r) implies record_agrees(
        log,
        r,
        next.records[r],
    ) by {
        if r != record.run_id@ {
            assert(table.records.dom().contains(r));
        }
    }
}

/// A rejected status append is retried as it was: once a change is kept on the record, it stays
/// the one to append, whatever the thread has become and whatever the time is.
pub proof fn a_kept_status_change_stays(
    record: RunRecord,
    first: Option<ThreadFacts>,
    first_ms: u64,
    later: Option<ThreadFacts>,
    later_ms: u64,
)
    requires
        status_change(record, first, first_ms) is Some,
    ensures
        status_change(
            (RunRecord { pending_status_event: status_change(record, first, first_ms), ..record }),
            later,
            later_ms,
        ) == status_change(record, first, first_ms),
{
}

/// The control plane's state, as far as the lifecycle of runs reads and changes it.
pub ghost struct RunState {
    /// The runs in flight.
    pub table: RunTable,
    /// The log.
    pub log: Seq<LogEntry>,
    /// Where each thread is.
    pub threads: Map<Seq<char>, ThreadStatus>,
}

/// Whether one accepted append of finishing a run leads from a state to another.
pub open spec fn append_moves(before: RunState, after: RunState, request: FinishRequest) -> bool {
    let run = request.run_id@;
    before.table.records.dom().contains(run) && match finish_stage(
        before.table.records[run],
        request,
    ) {
        Some(stage) => {
            &&& advanced(before.table.records[run], request, stage, after.table.records[run])
            &&& after.table == before.table.with_changed(run, after.table.records[run])
            &&& after.log == before.log.push(LogEntry { run, stage })
            &&& after.threads == before.threads
        },
        None => false,
    }
}

/// Where the threads are once a run's thread was settled, where a status leads to another by the
/// outcome of a run as the domain says: the change that the record keeps, else the one that the
/// thread's status leads to.
pub open spec fn settled_threads(
    state: RunState,
    record: RunRecord,
    next: spec_fn(ThreadStatus, RunOutcome) -> Option<ThreadStatus>,
    outcome: RunOutcome,
) -> Map<Seq<char>, ThreadStatus> {
    let thread = record.thread_id@;
    match record.pending_status_event {
        Some(kept) => state.threads.insert(kept.thread_id@, kept.to),
        None => if state.threads.dom().contains(thread) {
            match next(state.threads[thread], outcome) {
                Some(to) => state.threads.insert(thread, to),
                None => state.threads,
            }
        } else {
            state.threads
        },
    }
}

/// Whether a list of states is a run being finished, with every append taken, up to where its
/// terminal event is in the log.
pub open spec fn finishing(states: Seq<RunState>, request: FinishRequest) -> bool {
    &&& states.len() > 0
    &&& forall|i: int|
        0 <= i < states.len() - 1 ==> append_moves(#[trigger] states[i], states[i + 1], request)
    &&& states.last().table.records.dom().contains(request.run_id@)
    &&& finish_stage(states.last().table.records[request.run_id@], request) is None
}

/// Whether finishing a run, with every append taken, leads from a state to another.
pub open spec fn ends_run(
    before: RunState,
    after: RunState,
    request: FinishRequest,
    next: spec_fn(ThreadStatus, RunOutcome) -> Option<ThreadStatus>,
) -> bool {
    exists|states: Seq<RunState>|
        {
            let last = states.last();
            let record = last.table.records[request.run_id@];
            &&& #[trigger] finishing(states, request)
            &&& states[0] == before
            &&& after.log == last.log
            &&& after.table == last.table.without_run(request.run_id@)
            &&& after.threads == settled_threads(
                last,
                record,
                next,
                match record.terminal_outcome {
                    Some(outcome) => outcome,
                    None => request.outcome,
                },
            )
        }
}

/// Whether a run is over: it left the table, and the log shows one start of it, one end, and at
/// most one reason of the control plane's own.
pub open spec fn run_is_over(state: RunState, run: Seq<char>) -> bool {
    &&& !state.table.records.dom().contains(run)
    &&& logged(state.log, run, FinishStage::Start) == 1
    &&& logged(state.log, run, FinishStage::Terminal) == 1
    &&& logged(state.log, run, FinishStage::Diagnostic) <= 1
}

/// Whether what is known of a run is the same in two states: its record, or that it has none, and
/// what the log shows of it.
pub open spec fn same_run(a: RunState, b: RunState, run: Seq<char>) -> bool {
    &&& a.table.records.dom().contains(run) == b.table.records.dom().contains(run)
    &&& a.table.records.dom().contains(run) ==> a.table.records[run] == b.table.records[run]
    &&& forall|stage: FinishStage| #[trigger] logged(a.log, run, stage) == logged(b.log, run, stage)
}

/// Whether a domain's transitions lead out of work and never into it when a run ends.
pub open spec fn leaves_work(next: spec_fn(ThreadStatus, RunOutcome) -> Option<ThreadStatus>) -> bool {
    &&& forall|outcome: RunOutcome| (#[trigger] next(ThreadStatus::Working, outcome)) is Some
    &&& forall|status: ThreadStatus, outcome: RunOutcome|
        (#[trigger] next(status, outcome)) != Some(ThreadStatus::Working)
}

/// Whether a run that keeps a status change keeps one for its own thread, out of work.
pub open spec fn settles_its_own(record: RunRecord) -> bool {
    record.pending_status_event matches Some(kept) ==> kept.thread_id@ == record.thread_id@
        && kept.to != ThreadStatus::Working
}

/// What is kept of a settlement is a change of the run's own thread, out of work: where the facts
/// are those of its thread and a run's end leads out of work, the record that keeps the change
/// still settles its own.
pub proof fn settlements_keep_their_own_change(
    record: RunRecord,
    thread: Option<ThreadFacts>,
    next: spec_fn(ThreadStatus, RunOutcome) -> Option<ThreadStatus>,
    outcome: RunOutcome,
    now_ms: u64,
)
    requires
        settles_its_own(record),
        leaves_work(next),
        thread matches Some(facts) ==> facts.thread_id@ == record.thread_id@ && facts.next == next(
            facts.status,
            outcome,
        ),
    ensures
        settles_its_own(
            (RunRecord { pending_status_event: status_change(record, thread, now_ms), ..record }),
        ),
{
}

/// Whether a thread is at work.
pub open spec fn is_working(state: RunState, thread: Seq<char>) -> bool {
    state.threads.dom().contains(thread) && state.threads[thread] == ThreadStatus::Working
}

/// The states of a run being finished agree with their logs, and differ in that run alone.
proof fn finishing_agrees(states: Seq<RunState>, request: FinishRequest, i: int)
    requires
        finishing(states, request),
        log_agrees(states[0].log, states[0].table),
        0 <= i < states.len(),
    ensures
        log_agrees(states[i].log, states[i].table),
        states[i].table.records.dom().contains(request.run_id@),
        states[i].threads == states[0].threads,
        states[i].table.records[request.run_id@].thread_id
            == states[0].table.records[request.run_id@].thread_id,
        states[i].table.records[request.run_id@].pending_status_event
            == states[0].table.records[request.run_id@].pending_status_event,
        forall|run: Seq<char>|
            run != request.run_id@ ==> #[trigger] same_run(states[0], states[i], run),
    decreases i,
{
    let run = request.run_id@;
    if i == 0 {
        if states.len() > 1 {
            assert(append_moves(states[i], states[i + 1], request));
        }
    } else {
        finishing_agrees(states, request, i - 1);
        let (a, b) = (states[i - 1], states[i]);
        assert(append_moves(states[i - 1], states[i - 1 + 1], request));
        let stage = finish_stage(a.table.records[run], request)->0;
        let entry = LogEntry { run, stage };
        logged_push(a.log, entry);
        assert forall|r: Seq<char>| #[trigger] b.table.records.dom().contains(r) implies
            record_agrees(b.log, r, b.table.records[r]) by {
            if r != run {
                assert(a.table.records.dom().contains(r));
            }
        }
        assert forall|r: Seq<char>| #[trigger] at_most_once(b.log, r) by {
            assert(at_most_once(a.log, r));
        }
        assert forall|r: Seq<char>| r != run implies #[trigger] same_run(states[0], b, r) by {
            assert(same_run(states[0], a, r));
            assert forall|s: FinishStage| #[trigger] logged(states[0].log, r, s) == logged(
                b.log,
                r,
                s,
            ) by {
                assert(logged(a.log, r, s) == logged(b.log, r, s));
            }
        }
    }
}

/// A run that is finished with every append taken is over, whatever of it an earlier attempt had
/// brought into the log: it left the table, and over its whole life the log shows one start, one
/// end and at most one reason of the control plane's own. No other run is touched, its thread is not
/// at work, and every other thread is at work as it was.
pub proof fn finished_runs_are_over(
    before: RunState,
    after: RunState,
    request: FinishRequest,
    next: spec_fn(ThreadStatus, RunOutcome) -> Option<ThreadStatus>,
)
    requires
        log_agrees(before.log, before.table),
        ends_run(before, after, request, next),
    ensures
        before.table.records.dom().contains(request.run_id@),
        run_is_over(after, request.run_id@),
        log_agrees(after.log, after.table),
        forall|run: Seq<char>|
            run != request.run_id@ ==> #[trigger] same_run(before, after, run),
        leaves_work(next) && settles_its_own(before.table.records[request.run_id@])
            ==> !is_working(after, before.table.records[request.run_id@].thread_id@),
        settles_its_own(before.table.records[request.run_id@]) ==> forall|thread: Seq<char>|
            thread != before.table.records[request.run_id@].thread_id@ ==> #[trigger] is_working(
                after,
                thread,
            ) == is_working(before, thread),
{
    let run = request.run_id@;
    let states = choose|states: Seq<RunState>|
        {
            let last = states.last();
            let record = last.table.records[request.run_id@];
            &&& #[trigger] finishing(states, request)
            &&& states[0] == before
            &&& after.log == last.log
            &&& after.table == last.table.without_run(request.run_id@)
            &&& after.threads == settled_threads(
                last,
                record,
                next,
                match record.terminal_outcome {
                    Some(outcome) => outcome,
                    None => request.outcome,
                },
            )
        };
    let last = states.last();
    finishing_agrees(states, request, 0);
    finishing_agrees(states, request, states.len() - 1);
    assert(last == states[states.len() - 1]);
    let record = last.table.records[run];
    assert(record.terminal_published);
    assert(record_agrees(last.log, run, record));
    assert(at_most_once(last.log, run));
    assert forall|r: Seq<char>| #[trigger] after.table.records.dom().contains(r) implies
        record_agrees(after.log, r, after.table.records[r]) by {
        assert(last.table.records.dom().contains(r));
    }
    assert forall|r: Seq<char>| #[trigger] at_most_once(after.log, r) by {
        assert(at_most_once(last.log, r));
    }
    assert forall|r: Seq<char>| r != run implies #[trigger] same_run(before, after, r) by {
        assert(same_run(states[0], last, r));
    }
}

/// A run that ends shows three things in its thread's log, in this order and no other: that it
/// started, unless it did; why the control plane failed it, where no host reported its end and no
/// reason is there yet; and its end.
pub proof fn ends_are_told_in_order(record: RunRecord, request: FinishRequest)
    ensures
        record.terminal_published ==> finish_stage(record, request) is None,
        !record.terminal_published && !record.turn_started ==> finish_stage(record, request)
            == Some(FinishStage::Start),
        !record.terminal_published && record.turn_started && request.event is None && (
        request.outcome == RunOutcome::Failed || request.outcome == RunOutcome::TimedOut
            || request.outcome == RunOutcome::HostStale) && !record.provider_error_reported
            ==> finish_stage(record, request) == Some(FinishStage::Diagnostic),
        !record.terminal_published && record.turn_started && (request.event is Some
            || request.outcome == RunOutcome::Completed || request.outcome
            == RunOutcome::Cancelled || record.provider_error_reported) ==> finish_stage(
            record,
            request,
        ) == Some(FinishStage::Terminal),
{
}

/// What ends a run in the log says how it ended and why. The host's own report stands as it came.
/// Without one the end carries the verdict and the turn status that goes with it, and every verdict
/// but completion says what went wrong: what the request says, else what is on record, else nothing.
/// The reason that is told before it says the same.
pub proof fn ends_say_how_and_why(
    record: RunRecord,
    request: FinishRequest,
    stage: FinishStage,
    append: RunAppend,
)
    requires
        append_fits(record, request, stage, append),
    ensures
        append.thread_id@ == record.thread_id@ && append.project_id@ == record.project_id@
            && append.run_id@ == record.run_id@,
        stage == FinishStage::Start ==> (append.body matches RunBody::Started {
            provider_thread_id,
        } && {
            &&& request.event is Some && request.event->0.provider_thread_id is Some
                ==> provider_thread_id@ == request.event->0.provider_thread_id->0@
            &&& (request.event is None || request.event->0.provider_thread_id is None)
                && record.provider_thread_id is Some ==> provider_thread_id@
                == record.provider_thread_id->0@
            &&& (request.event is None || request.event->0.provider_thread_id is None)
                && record.provider_thread_id is None ==> provider_thread_id@
                == request.synthetic_identity@
        }),
        stage == FinishStage::Diagnostic ==> (append.body matches RunBody::ProviderError {
            message,
            ..
        } && {
            &&& request.error matches Some(text) ==> message@ == text@
            &&& request.error is None && record.failure_reason is Some ==> message@
                == record.failure_reason->0@
            &&& request.error is None && record.failure_reason is None ==> message@.len() == 0
        }),
        stage == FinishStage::Terminal && request.event is Some ==> (
        append.body matches RunBody::Reported(reported) && reported.body@
            == request.event->0.body@ && reported.kind@ == request.event->0.kind@)
            && append.at_ms == request.event->0.at_ms,
        stage == FinishStage::Terminal && request.event is None ==> (
        append.body matches RunBody::Terminal { outcome, status, error } && {
            &&& outcome == request.outcome
            &&& outcome == RunOutcome::Completed <==> status == TurnStatus::Completed
            &&& outcome == RunOutcome::Cancelled <==> status == TurnStatus::Interrupted
            &&& outcome == RunOutcome::Completed <==> error is None
            &&& error is Some && request.error is Some ==> error->0@ == request.error->0@
            &&& error is Some && request.error is None && record.failure_reason is Some
                ==> error->0@ == record.failure_reason->0@
            &&& error is Some && request.error is None && record.failure_reason is None
                ==> error->0@.len() == 0
        }) && append.at_ms == request.now_ms,
{
    reveal_strlit("");
}

/// What is noted of an append that was taken is that append and no more: a start that it started
/// and under which conversation, a reason that it was told, an end that it ended and how.
pub proof fn progress_is_what_was_taken(
    record: RunRecord,
    request: FinishRequest,
    stage: FinishStage,
    after: RunRecord,
)
    requires
        advanced(record, request, stage, after),
    ensures
        after.run_id == record.run_id && after.thread_id == record.thread_id && after.host_id
            == record.host_id && after.cwd == record.cwd && after.deadline_ms
            == record.deadline_ms && after.failure_reason == record.failure_reason
            && after.pending_status_event == record.pending_status_event,
        after.turn_started == (record.turn_started || stage == FinishStage::Start),
        after.provider_error_reported == (record.provider_error_reported || stage
            == FinishStage::Diagnostic),
        after.terminal_published == (record.terminal_published || stage == FinishStage::Terminal),
        stage == FinishStage::Terminal ==> after.terminal_outcome == Some(request.outcome),
        stage != FinishStage::Terminal ==> after.terminal_outcome == record.terminal_outcome,
{
}

/// A run's end moves its thread to where its status leads, from where it is; a change that was kept
/// is told again as it was.
pub proof fn ends_move_the_thread(record: RunRecord, thread: Option<ThreadFacts>, now_ms: u64)
    ensures
        record.pending_status_event is Some ==> status_change(record, thread, now_ms)
            == record.pending_status_event,
        record.pending_status_event is None && thread is Some && thread->0.next is Some ==> (
        status_change(record, thread, now_ms) matches Some(change) && change.thread_id@
            == thread->0.thread_id@ && change.project_id@ == thread->0.project_id@ && change.from
            == thread->0.status && change.to == thread->0.next->0 && change.at_ms == now_ms),
        record.pending_status_event is None && (thread is None || thread->0.next is None)
            ==> status_change(record, thread, now_ms) is None,
{
}

// How a run is finished.

/// A run that is in flight is finished step by step: the next append that its end still needs, and
/// when nothing is left to append its settlement, with the outcome that was published. A run that
/// is not in flight is finished.
pub proof fn finishing_goes_step_by_step(
    registry: RunRegistry,
    request: FinishRequest,
    step: FinishStep,
)
    requires
        call_ensures(RunRegistry::next_finish_step, (&registry, &request), step),
    ensures
        ({
            let known = registry@.records.dom().contains(request.run_id@);
            let record = registry@.records[request.run_id@];
            &&& step is AlreadyFinished <==> !known
            &&& step is Settle <==> known && record.terminal_published
            &&& step matches FinishStep::Settle { outcome, error } ==> (record.terminal_outcome is Some ==> outcome == record.terminal_outcome->0) && (record.terminal_outcome is None ==> outcome == request.outcome) && (request.error is Some ==> error is Some && error->0@ == request.error->0@) && (request.error is None && record.failure_reason is Some ==> error is Some && error->0@ == record.failure_reason->0@) && (request.error is None && record.failure_reason is None ==> error is None)
            &&& step is Append ==> known && !record.terminal_published
            &&& step matches FinishStep::Append { stage, append } ==> finish_stage(record, request) == Some(stage) && append_fits(record, request, stage, append)
        }),
{
}

/// What is to be done for a run's end is what its record still lacks.
pub proof fn actions_are_the_next_step(
    record: RunRecord,
    request: FinishRequest,
    step: FinishStep,
)
    requires
        call_ensures(finish_action, (&record, &request), step),
    ensures
        step is Settle <==> record.terminal_published,
        step is Append <==> !record.terminal_published,
        step matches FinishStep::Append { stage, append } ==> finish_stage(record, request) == Some(stage) && append_fits(record, request, stage, append),
        step matches FinishStep::Settle { outcome, error } ==> (record.terminal_outcome is Some ==> outcome == record.terminal_outcome->0) && (record.terminal_outcome is None ==> outcome == request.outcome),
{
}

/// What was taken is noted on its run, and no other run or claim changes.
pub proof fn taken_appends_move_their_run_alone(
    registry: &mut RunRegistry,
    request: FinishRequest,
    stage: FinishStage,
    other: Seq<char>,
)
    requires
        call_ensures(RunRegistry::finish_append_accepted, (registry, &request, stage), ()),
        old(registry)@.records.dom().contains(request.run_id@),
    ensures
        advanced(old(registry)@.records[request.run_id@], request, stage, final(registry)@.records[request.run_id@]),
        other != request.run_id@ ==> (final(registry)@.records.dom().contains(other) <==> old(registry)@.records.dom().contains(other)),
        other != request.run_id@ && old(registry)@.records.dom().contains(other) ==> final(registry)@.records[other] == old(registry)@.records[other],
        final(registry)@.claims == old(registry)@.claims,
{
}

/// A run is settled by telling where its thread goes, where it goes anywhere, and the change is
/// kept with the run until it was told; where there is none the settlement is complete.
pub proof fn settlements_tell_the_change_first(
    registry: &mut RunRegistry,
    run_id: &str,
    thread: Option<ThreadFacts>,
    now_ms: u64,
    step: SettleStep,
    other: Seq<char>,
)
    requires
        call_ensures(RunRegistry::begin_settlement, (registry, run_id, &thread, now_ms), step),
    ensures
        ({
            let known = old(registry)@.records.dom().contains(run_id@);
            let record = old(registry)@.records[run_id@];
            let after = final(registry)@.records[run_id@];
            &&& step is AlreadyFinished <==> !known
            &&& (known && record.pending_status_event is Some) ==> step == SettleStep::AppendStatus(record.pending_status_event->0)
            &&& (known && record.pending_status_event is None && thread is Some && thread->0.next is Some) ==> (step matches SettleStep::AppendStatus(change) && change.thread_id == thread->0.thread_id && change.project_id == thread->0.project_id && change.from == thread->0.status && change.to == thread->0.next->0 && change.at_ms == now_ms)
            &&& (known && record.pending_status_event is None && (thread is None || thread->0.next is None)) ==> step is Complete && final(registry)@ == old(registry)@
            &&& step matches SettleStep::AppendStatus(change) ==> after.pending_status_event == Some(change) && after.run_id == record.run_id && after.terminal_outcome == record.terminal_outcome && after.thread_id == record.thread_id
            &&& other != run_id@ && old(registry)@.records.dom().contains(other) ==> final(registry)@.records[other] == old(registry)@.records[other]
            &&& final(registry)@.claims == old(registry)@.claims
        }),
{
}

/// A settled run is handed back, and neither it nor its hold on its thread is left.
pub proof fn settled_runs_are_gone(
    registry: &mut RunRegistry,
    run_id: &str,
    settled: Option<RunRecord>,
    other: Seq<char>,
)
    requires
        call_ensures(RunRegistry::complete_settlement, (registry, run_id), settled),
    ensures
        settled is Some <==> old(registry)@.records.dom().contains(run_id@),
        settled is Some ==> settled->0 == old(registry)@.records[run_id@],
        !final(registry)@.records.dom().contains(run_id@),
        settled is Some ==> !(final(registry)@.claims.dom().contains(settled->0.thread_id@) && final(registry)@.claims[settled->0.thread_id@] == run_id@),
        other != run_id@ && old(registry)@.records.dom().contains(other) ==> final(registry)@.records.dom().contains(other) && final(registry)@.records[other] == old(registry)@.records[other],
{
}

} // verus!
