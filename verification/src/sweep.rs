//! A sweep over what cannot go on: machines that went quiet, runs that they leave behind, runs
//! whose end is in the log but not settled, runs past their deadline, and messages that are due.
//!
//! The sweep says what to do next, and the caller does it and says what became of it.

use vstd::prelude::*;

use crate::domain::{Host, RunOutcome, ThreadStatus};
use crate::lifecycle::{
    ends_run, finished_runs_are_over, is_working, leaves_work, log_agrees, logged, run_is_over,
    same_run, settles_its_own, FinishRequest, FinishRunResult, FinishStage, RunState,
};
use crate::reports::{
    overdue_verdict, settle_verdict, stale_hosts, stale_ids, stale_verdict, ReconcileSummary,
    Verdict,
};
use crate::runs::{selected, selections_exist, RunRecord, RunRegistry, RunTable};
use crate::text::{opt_view, precedes, precedes_irreflexive, precedes_transitive, texts};

verus! {

/// Where a sweep is.
#[derive(Clone, Copy, Debug, PartialEq, Eq, Structural)]
pub enum SweepPhase {
    /// Codes that expired are to be forgotten.
    Purge,
    /// Answers that did not reach their machine are to be sent again.
    Retry,
    /// The machines are to be looked at.
    Look,
    /// Machines that went quiet are to be detached.
    Detach,
    /// Runs are to be ended.
    Runs,
    /// Messages that are due are to be sent.
    Drain,
    /// All is done.
    Over,
}

/// What is to be counted of the run that was handed out last.
#[derive(Clone, Copy, Debug, PartialEq, Eq, Structural)]
pub enum Owed {
    /// Nothing.
    Nothing,
    /// Its machine went quiet.
    Stale,
    /// Its deadline passed.
    Late {
        /// Whether it had been recorded with a failure of its own.
        had_reason: bool,
    },
}

/// What to do next.
#[derive(Debug, PartialEq, Eq)]
pub enum SweepStep {
    /// Forget the codes that expired.
    Purge,
    /// Send the answers again that did not reach their machine.
    RetryInteractions,
    /// Detach this machine.
    Detach(String),
    /// End this run, then say whether it was ended.
    Finish {
        /// The run.
        record: RunRecord,
        /// How it ends.
        verdict: Verdict,
    },
    /// Send the messages that are due, then say how many were sent.
    DrainQueues,
    /// There is nothing left to do.
    Done(ReconcileSummary),
}

/// A sweep.
pub ghost struct SweepView {
    /// The time.
    pub now_ms: u64,
    /// How long a machine may be quiet.
    pub stale_after_ms: u64,
    /// Where it is.
    pub phase: SweepPhase,
    /// The machines that went quiet.
    pub hosts: Seq<Seq<char>>,
    /// How many of them were detached.
    pub detached: int,
    /// Whose runs are being ended: those of the machine of this number, behind the machines those
    /// that ended, behind those the ones past their deadline.
    pub stage: int,
    /// The runs that are still to be ended at this stage.
    pub due: Seq<RunRecord>,
    /// What is to be counted of the run that was handed out last.
    pub owed: Owed,
    /// Which attempts to end a run of a quiet machine succeeded.
    pub stale: Seq<bool>,
    /// Which attempts to end a run past its deadline succeeded on one that had not failed before.
    pub timed_out: Seq<bool>,
    /// How many messages were sent.
    pub sent: usize,
}

/// The runs that a predicate selects from a table, in the order of their ids.
pub open spec fn picked(table: RunTable, pick: spec_fn(RunRecord) -> bool) -> Seq<RunRecord> {
    choose|runs: Seq<RunRecord>| selected(table, pick, runs)
}

/// Which runs a stage ends: those of a quiet machine that have not ended, then those that ended
/// and are to be settled, then those past their deadline that have not ended.
pub open spec fn stage_pick(hosts: Seq<Seq<char>>, stage: int, now_ms: u64) -> spec_fn(
    RunRecord,
) -> bool {
    if stage < hosts.len() {
        |record: RunRecord| record.host_id@ == hosts[stage] && !record.terminal_published
    } else if stage == hosts.len() {
        |record: RunRecord| record.terminal_published
    } else {
        |record: RunRecord| record.deadline_ms <= now_ms && !record.terminal_published
    }
}

/// A sweep at the first stage from its own on that has a run to end, or at the last. The runs of a
/// stage are those that the table holds when the stage is entered.
pub open spec fn at_work(sweep: SweepView, table: RunTable) -> SweepView
    decreases sweep.hosts.len() + 1 - sweep.stage,
{
    if sweep.due.len() > 0 || sweep.stage > sweep.hosts.len() {
        sweep
    } else {
        at_work(
            SweepView {
                stage: sweep.stage + 1,
                due: picked(table, stage_pick(sweep.hosts, sweep.stage + 1, sweep.now_ms)),
                ..sweep
            },
            table,
        )
    }
}

/// A sweep that has looked at the machines, where it was to.
pub open spec fn looked(sweep: SweepView, hosts: Seq<Host>) -> SweepView {
    if sweep.phase is Look {
        SweepView {
            phase: SweepPhase::Detach,
            hosts: stale_ids(hosts, sweep.now_ms, sweep.stale_after_ms),
            detached: 0,
            stage: 0,
            ..sweep
        }
    } else {
        sweep
    }
}

/// A sweep that has detached every machine that went quiet goes on to the runs.
pub open spec fn entered(sweep: SweepView, table: RunTable) -> SweepView {
    if sweep.phase is Detach && sweep.detached == sweep.hosts.len() {
        SweepView {
            phase: SweepPhase::Runs,
            stage: 0,
            due: picked(table, stage_pick(sweep.hosts, 0, sweep.now_ms)),
            ..sweep
        }
    } else {
        sweep
    }
}

/// A sweep at the runs goes on to the queues once no stage has a run to end.
pub open spec fn worked(sweep: SweepView, table: RunTable) -> SweepView {
    if sweep.phase is Runs {
        let working = at_work(sweep, table);
        if working.due.len() == 0 {
            SweepView { phase: SweepPhase::Drain, ..working }
        } else {
            working
        }
    } else {
        sweep
    }
}

/// A sweep where there is something to do.
pub open spec fn ready(sweep: SweepView, table: RunTable, hosts: Seq<Host>) -> SweepView {
    worked(entered(looked(sweep, hosts), table), table)
}

/// What is to be counted of a run that a stage hands out.
pub open spec fn owed_for(sweep: SweepView, record: RunRecord) -> Owed {
    if sweep.stage < sweep.hosts.len() {
        Owed::Stale
    } else if sweep.stage == sweep.hosts.len() {
        Owed::Nothing
    } else {
        Owed::Late { had_reason: record.failure_reason is Some }
    }
}

/// How a run ends that a stage hands out: a run of a quiet machine is stale; one that ended is
/// settled as it ended; one past its deadline failed for the reason it was recorded with, else
/// timed out.
pub open spec fn verdict_for(sweep: SweepView, record: RunRecord) -> (
    RunOutcome,
    Option<Seq<char>>,
) {
    if sweep.stage < sweep.hosts.len() {
        (
            RunOutcome::HostStale,
            Some("host "@ + sweep.hosts[sweep.stage] + " stopped heartbeating"@),
        )
    } else if sweep.stage == sweep.hosts.len() {
        (
            match record.terminal_outcome {
                Some(outcome) => outcome,
                None => RunOutcome::Failed,
            },
            None,
        )
    } else {
        match record.failure_reason {
            Some(reason) => (RunOutcome::Failed, Some(reason@)),
            None => (RunOutcome::TimedOut, Some("run exceeded its deadline"@)),
        }
    }
}

/// A sweep once it said what to do.
pub open spec fn stepped(sweep: SweepView) -> SweepView {
    match sweep.phase {
        SweepPhase::Purge => SweepView { phase: SweepPhase::Retry, ..sweep },
        SweepPhase::Retry => SweepView { phase: SweepPhase::Look, ..sweep },
        SweepPhase::Detach => SweepView { detached: sweep.detached + 1, ..sweep },
        SweepPhase::Runs => SweepView {
            due: sweep.due.drop_first(),
            owed: owed_for(sweep, sweep.due[0]),
            ..sweep
        },
        SweepPhase::Drain => SweepView { phase: SweepPhase::Over, ..sweep },
        _ => sweep,
    }
}

/// How many of the flags are set.
pub open spec fn count_true(flags: Seq<bool>) -> nat
    decreases flags.len(),
{
    if flags.len() == 0 {
        0
    } else {
        count_true(flags.drop_last()) + (if flags.last() {
            1nat
        } else {
            0nat
        })
    }
}

/// Whether a summary tells what a sweep found and repaired.
pub open spec fn summarizes(summary: ReconcileSummary, sweep: SweepView) -> bool {
    &&& summary.stale_hosts == sweep.hosts.len()
    &&& summary.stale_runs == count_true(sweep.stale)
    &&& summary.timed_out_runs == count_true(sweep.timed_out)
    &&& summary.sent_queued_messages == sweep.sent
}

/// Whether a step is the one that a sweep is ready for.
pub open spec fn step_fits(sweep: SweepView, step: SweepStep) -> bool {
    match sweep.phase {
        SweepPhase::Purge => step is Purge,
        SweepPhase::Retry => step is RetryInteractions,
        SweepPhase::Look => false,
        SweepPhase::Detach => step matches SweepStep::Detach(host) && host@
            == sweep.hosts[sweep.detached],
        SweepPhase::Runs => step matches SweepStep::Finish { record, verdict } && record
            == sweep.due[0] && (verdict.outcome, opt_view(verdict.error)) == verdict_for(
            sweep,
            record,
        ),
        SweepPhase::Drain => step is DrainQueues,
        SweepPhase::Over => step matches SweepStep::Done(summary) && summarizes(summary, sweep),
    }
}

/// A sweep that was told what became of the run that it handed out.
pub open spec fn told(sweep: SweepView, finished: bool) -> SweepView {
    match sweep.owed {
        Owed::Nothing => sweep,
        Owed::Stale => SweepView {
            owed: Owed::Nothing,
            stale: sweep.stale.push(finished),
            ..sweep
        },
        Owed::Late { had_reason } => SweepView {
            owed: Owed::Nothing,
            timed_out: sweep.timed_out.push(finished && !had_reason),
            ..sweep
        },
    }
}

/// Two selections by one predicate agree on every run that both have.
proof fn selections_agree(
    table: RunTable,
    pick: spec_fn(RunRecord) -> bool,
    a: Seq<RunRecord>,
    b: Seq<RunRecord>,
    upto: int,
)
    requires
        selected(table, pick, a),
        selected(table, pick, b),
        0 <= upto <= a.len(),
    ensures
        upto <= b.len(),
        forall|i: int| 0 <= i < upto ==> a[i] == b[i],
    decreases upto,
{
    if upto > 0 {
        let i = upto - 1;
        selections_agree(table, pick, a, b, i);
        assert(table.records.dom().contains(a[i].run_id@));
        assert(b.contains(a[i]));
        let j = choose|j: int| 0 <= j < b.len() && b[j] == a[i];
        if j < i {
            assert(a[j] == b[j]);
            assert(precedes(a[j].run_id@, a[i].run_id@));
            precedes_irreflexive(a[i].run_id@);
        }
        if i < j {
            assert(table.records.dom().contains(b[i].run_id@));
            assert(a.contains(b[i]));
            let k = choose|k: int| 0 <= k < a.len() && a[k] == b[i];
            assert(precedes(b[i].run_id@, b[j].run_id@));
            if k < i {
                assert(a[k] == b[k]);
                assert(precedes(b[k].run_id@, b[i].run_id@));
                precedes_irreflexive(b[i].run_id@);
            } else if k == i {
                precedes_irreflexive(a[i].run_id@);
            } else {
                assert(precedes(a[i].run_id@, a[k].run_id@));
                precedes_transitive(a[i].run_id@, a[k].run_id@, a[i].run_id@);
                precedes_irreflexive(a[i].run_id@);
            }
        }
    }
}

/// A predicate selects one list from a table: a selection is the one that is picked.
pub proof fn selections_are_one(
    table: RunTable,
    pick: spec_fn(RunRecord) -> bool,
    runs: Seq<RunRecord>,
)
    requires
        selected(table, pick, runs),
    ensures
        runs == picked(table, pick),
{
    let other = picked(table, pick);
    selections_agree(table, pick, runs, other, runs.len() as int);
    selections_agree(table, pick, other, runs, other.len() as int);
    assert(runs =~= other);
}

/// A sweep that is ready has something at hand in every phase.
proof fn ready_has_work(sweep: SweepView, table: RunTable, hosts: Seq<Host>)
    ensures
        !(ready(sweep, table, hosts).phase is Look),
        ready(sweep, table, hosts).phase is Detach ==> ready(sweep, table, hosts).detached != ready(
            sweep,
            table,
            hosts,
        ).hosts.len(),
        ready(sweep, table, hosts).phase is Runs ==> ready(sweep, table, hosts).due.len() > 0,
{
    let there = entered(looked(sweep, hosts), table);
    assert(!(looked(sweep, hosts).phase is Look));
    work_keeps_the_rest(there, table);
}

/// Going on to the next stage leaves the rest of a sweep as it is.
proof fn work_keeps_the_rest(sweep: SweepView, table: RunTable)
    ensures
        at_work(sweep, table).phase == sweep.phase,
        at_work(sweep, table).hosts == sweep.hosts,
        at_work(sweep, table).detached == sweep.detached,
        at_work(sweep, table).now_ms == sweep.now_ms,
        at_work(sweep, table).stale_after_ms == sweep.stale_after_ms,
        at_work(sweep, table).stage >= sweep.stage,
    decreases sweep.hosts.len() + 1 - sweep.stage,
{
    if sweep.due.len() == 0 && sweep.stage <= sweep.hosts.len() {
        work_keeps_the_rest(
            SweepView {
                stage: sweep.stage + 1,
                due: picked(table, stage_pick(sweep.hosts, sweep.stage + 1, sweep.now_ms)),
                ..sweep
            },
            table,
        );
    }
}

/// How many of the flags are set.
fn count_set(flags: &Vec<bool>) -> (result: usize)
    ensures
        result == count_true(flags@),
{
    let mut count: usize = 0;
    assert(flags@.take(0) =~= Seq::<bool>::empty());
    for i in 0..flags.len()
        invariant
            count == count_true(flags@.take(i as int)),
            count <= i,
    {
        assert(flags@.take(i + 1).drop_last() =~= flags@.take(i as int));
        if flags[i] {
            count += 1;
        }
    }
    assert(flags@.take(flags@.len() as int) =~= flags@);
    count
}

/// A sweep.
pub struct Sweep {
    now_ms: u64,
    stale_after_ms: u64,
    phase: SweepPhase,
    hosts: Vec<String>,
    detached: usize,
    searched: usize,
    late: bool,
    due: Vec<RunRecord>,
    at: usize,
    owed: Owed,
    stale: Vec<bool>,
    timed_out: Vec<bool>,
    sent: usize,
}

impl View for Sweep {
    type V = SweepView;

    closed spec fn view(&self) -> SweepView {
        SweepView {
            now_ms: self.now_ms,
            stale_after_ms: self.stale_after_ms,
            phase: self.phase,
            hosts: texts(self.hosts@),
            detached: self.detached as int,
            stage: self.searched + (if self.late {
                1int
            } else {
                0int
            }),
            due: self.due@.skip(self.at as int),
            owed: self.owed,
            stale: self.stale@,
            timed_out: self.timed_out@,
            sent: self.sent,
        }
    }
}

impl Sweep {
    /// Whether a sweep has not gone past the end of its own lists.
    pub closed spec fn wf(&self) -> bool {
        &&& self.detached <= self.hosts@.len()
        &&& self.at <= self.due@.len()
        &&& self.searched <= self.hosts@.len()
        &&& self.late ==> self.searched == self.hosts@.len()
    }

    /// A sweep that has yet to begin.
    pub fn new(now_ms: u64, stale_after_ms: u64) -> (result: Sweep)
        ensures
            result.wf(),
            result@ == (SweepView {
                now_ms,
                stale_after_ms,
                phase: SweepPhase::Purge,
                hosts: Seq::empty(),
                detached: 0,
                stage: 0,
                due: Seq::empty(),
                owed: Owed::Nothing,
                stale: Seq::empty(),
                timed_out: Seq::empty(),
                sent: 0,
            }),
    {
        let sweep = Sweep {
            now_ms,
            stale_after_ms,
            phase: SweepPhase::Purge,
            hosts: Vec::new(),
            detached: 0,
            searched: 0,
            late: false,
            due: Vec::new(),
            at: 0,
            owed: Owed::Nothing,
            stale: Vec::new(),
            timed_out: Vec::new(),
            sent: 0,
        };
        assert(texts(sweep.hosts@) =~= Seq::<Seq<char>>::empty());
        assert(sweep.due@.skip(0) =~= Seq::<RunRecord>::empty());
        sweep
    }

    /// Takes the runs of the stage from the table.
    fn enter(&mut self, runs: &RunRegistry)
        requires
            old(self).wf(),
            runs.wf(),
        ensures
            final(self).wf(),
            final(self)@ == (SweepView {
                due: picked(
                    runs@,
                    stage_pick(old(self)@.hosts, old(self)@.stage, old(self)@.now_ms),
                ),
                ..old(self)@
            }),
            final(self).phase == old(self).phase,
            final(self).hosts == old(self).hosts,
    {
        let ghost pick = stage_pick(self@.hosts, self@.stage, self.now_ms);
        let due: Vec<RunRecord> = if self.searched < self.hosts.len() {
            let found: Vec<RunRecord> = runs.stranded(self.hosts[self.searched].as_str());
            let ghost host = self.hosts@[self.searched as int]@;
            assert(pick =~= |record: RunRecord| record.host_id@ == host && !record.terminal_published);
            found
        } else if !self.late {
            runs.unsettled()
        } else {
            runs.overdue(self.now_ms)
        };
        proof {
            selections_are_one(runs@, pick, due@);
        }
        self.due = due;
        self.at = 0;
        assert(self.due@.skip(0) =~= self.due@);
    }

    /// Goes on to the first stage that has a run to end, or to the last.
    fn search(&mut self, runs: &RunRegistry)
        requires
            old(self).wf(),
            runs.wf(),
        ensures
            final(self).wf(),
            final(self)@ == at_work(old(self)@, runs@),
    {
        while self.at == self.due.len() && !self.late
            invariant
                self.wf(),
                runs.wf(),
                at_work(self@, runs@) == at_work(old(self)@, runs@),
            decreases self@.hosts.len() + 1 - self@.stage,
        {
            let ghost before = self@;
            if self.searched < self.hosts.len() {
                self.searched = self.searched + 1;
            } else {
                self.late = true;
            }
            assert(self@ == (SweepView { stage: before.stage + 1, ..before }));
            self.enter(runs);
        }
    }

    /// Goes on to where there is something to do.
    fn prepare(&mut self, runs: &RunRegistry, hosts: &Vec<Host>)
        requires
            old(self).wf(),
            runs.wf(),
        ensures
            final(self).wf(),
            final(self)@ == ready(old(self)@, runs@, hosts@),
    {
        if self.phase == SweepPhase::Look {
            self.hosts = stale_hosts(hosts, self.now_ms, self.stale_after_ms);
            self.detached = 0;
            self.searched = 0;
            self.late = false;
            self.phase = SweepPhase::Detach;
        }
        assert(self@ == looked(old(self)@, hosts@));
        if self.phase == SweepPhase::Detach && self.detached == self.hosts.len() {
            self.phase = SweepPhase::Runs;
            self.searched = 0;
            self.late = false;
            self.enter(runs);
        }
        assert(self@ == entered(looked(old(self)@, hosts@), runs@));
        if self.phase == SweepPhase::Runs {
            self.search(runs);
            if self.at == self.due.len() {
                self.phase = SweepPhase::Drain;
            }
        }
    }

    /// What to do next, given the runs in flight and the machines.
    pub fn next(&mut self, runs: &RunRegistry, hosts: &Vec<Host>) -> (result: SweepStep)
        requires
            old(self).wf(),
            runs.wf(),
        ensures
            final(self).wf(),
            step_fits(ready(old(self)@, runs@, hosts@), result),
            final(self)@ == stepped(ready(old(self)@, runs@, hosts@)),
    {
        self.prepare(runs, hosts);
        let ghost at_hand = self@;
        proof {
            ready_has_work(old(self)@, runs@, hosts@);
        }
        assert(at_hand.hosts.len() == self.hosts.len());
        assert(at_hand.due.len() == self.due.len() - self.at);
        match self.phase {
            SweepPhase::Purge => {
                self.phase = SweepPhase::Retry;
                SweepStep::Purge
            },
            SweepPhase::Retry | SweepPhase::Look => {
                self.phase = SweepPhase::Look;
                SweepStep::RetryInteractions
            },
            SweepPhase::Detach => {
                let host: String = self.hosts[self.detached].clone();
                self.detached = self.detached + 1;
                SweepStep::Detach(host)
            },
            SweepPhase::Runs => {
                let record: RunRecord = self.due[self.at].clone();
                let (verdict, owed): (Verdict, Owed) = if self.searched < self.hosts.len() {
                    (stale_verdict(self.hosts[self.searched].as_str()), Owed::Stale)
                } else if !self.late {
                    (settle_verdict(&record), Owed::Nothing)
                } else {
                    (
                        overdue_verdict(&record),
                        Owed::Late { had_reason: record.failure_reason.is_some() },
                    )
                };
                self.owed = owed;
                self.at = self.at + 1;
                assert(self@.due =~= at_hand.due.drop_first());
                SweepStep::Finish { record, verdict }
            },
            SweepPhase::Drain => {
                self.phase = SweepPhase::Over;
                SweepStep::DrainQueues
            },
            SweepPhase::Over => SweepStep::Done(
                ReconcileSummary {
                    stale_hosts: self.hosts.len(),
                    stale_runs: count_set(&self.stale),
                    timed_out_runs: count_set(&self.timed_out),
                    sent_queued_messages: self.sent,
                },
            ),
        }
    }

    /// Says what became of the run that was handed out last.
    pub fn ended(&mut self, result: &FinishRunResult)
        requires
            old(self).wf(),
        ensures
            final(self).wf(),
            final(self)@ == told(old(self)@, *result is Finished),
    {
        let finished: bool = matches!(result, FinishRunResult::Finished);
        match self.owed {
            Owed::Nothing => {},
            Owed::Stale => {
                self.stale.push(finished);
                self.owed = Owed::Nothing;
            },
            Owed::Late { had_reason } => {
                self.timed_out.push(finished && !had_reason);
                self.owed = Owed::Nothing;
            },
        }
    }

    /// Says how many messages were sent.
    pub fn drained(&mut self, sent: usize)
        requires
            old(self).wf(),
        ensures
            final(self).wf(),
            final(self)@ == (SweepView { sent, ..old(self)@ }),
    {
        self.sent = sent;
    }
}

/// How far a phase is from the start of a sweep.
pub open spec fn phase_rank(phase: SweepPhase) -> int {
    match phase {
        SweepPhase::Purge => 0,
        SweepPhase::Retry => 1,
        SweepPhase::Look => 2,
        SweepPhase::Detach => 3,
        SweepPhase::Runs => 4,
        SweepPhase::Drain => 5,
        SweepPhase::Over => 6,
    }
}

/// Whether a sweep got further: to a later phase, or in the same one to a later machine or stage,
/// or in the same stage to fewer runs.
pub open spec fn further(before: SweepView, after: SweepView) -> bool {
    ||| phase_rank(after.phase) > phase_rank(before.phase)
    ||| after.phase == before.phase && after.detached > before.detached
    ||| after.phase == before.phase && after.detached == before.detached && after.stage
        > before.stage
    ||| after.phase == before.phase && after.detached == before.detached && after.stage
        == before.stage && after.due.len() < before.due.len()
}

/// A sweep comes to its end: each of its steps brings it further, whatever became of the runs and
/// the machines meanwhile.
pub proof fn sweeps_come_to_an_end(sweep: SweepView, table: RunTable, hosts: Seq<Host>)
    requires
        !(sweep.phase is Over),
    ensures
        further(sweep, stepped(ready(sweep, table, hosts))),
{
    ready_has_work(sweep, table, hosts);
    let there = entered(looked(sweep, hosts), table);
    work_keeps_the_rest(there, table);
    if sweep.phase is Runs && sweep.due.len() == 0 && sweep.stage <= sweep.hosts.len() {
        work_keeps_the_rest(
            SweepView {
                stage: sweep.stage + 1,
                due: picked(table, stage_pick(sweep.hosts, sweep.stage + 1, sweep.now_ms)),
                ..sweep
            },
            table,
        );
    }
}

/// A stage hands out each of its runs, in order: as long as it has one, that one comes next,
/// whatever became of the table meanwhile.
pub proof fn stages_leave_no_run_out(sweep: SweepView, table: RunTable, hosts: Seq<Host>)
    requires
        sweep.phase is Runs,
        sweep.due.len() > 0,
    ensures
        ready(sweep, table, hosts) == sweep,
        stepped(ready(sweep, table, hosts)).due == sweep.due.drop_first(),
{
}

/// A run that ended is settled before any deadline is looked at: a sweep that comes to the
/// deadlines has nothing left of its stage, and where it passed over the settling there was
/// nothing to settle.
pub proof fn settling_comes_before_deadlines(sweep: SweepView, table: RunTable)
    requires
        0 <= sweep.stage <= sweep.hosts.len(),
        at_work(sweep, table).stage > sweep.hosts.len(),
    ensures
        sweep.due.len() == 0,
        sweep.stage < sweep.hosts.len() ==> picked(
            table,
            |record: RunRecord| record.terminal_published,
        ).len() == 0,
    decreases sweep.hosts.len() - sweep.stage,
{
    if sweep.due.len() == 0 && sweep.stage < sweep.hosts.len() {
        let onward = SweepView {
            stage: sweep.stage + 1,
            due: picked(table, stage_pick(sweep.hosts, sweep.stage + 1, sweep.now_ms)),
            ..sweep
        };
        settling_comes_before_deadlines(onward, table);
    }
}

/// A sweep, and what it works on.
pub ghost struct SweepState {
    /// The sweep.
    pub sweep: SweepView,
    /// The runs, the log and the threads.
    pub world: RunState,
    /// The runs in flight, as they are held.
    pub runs: RunRegistry,
}

/// Whether a run in flight is of a thread.
pub open spec fn is_run_of(state: RunState, thread: Seq<char>, run: Seq<char>) -> bool {
    state.table.records.dom().contains(run) && state.table.records[run].thread_id@ == thread
}

/// Whether a thread is at work only for a run in flight.
pub open spec fn works_for_a_run(state: RunState, thread: Seq<char>) -> bool {
    is_working(state, thread) ==> exists|run: Seq<char>| #[trigger] is_run_of(state, thread, run)
}

/// Whether every run that keeps a status change keeps one for its own thread, out of work.
pub open spec fn settle_their_own(state: RunState) -> bool {
    forall|run: Seq<char>| #[trigger]
        state.table.records.dom().contains(run) ==> settles_its_own(state.table.records[run])
}

/// Whether nothing that was known was lost between two states: every run in flight is as it was,
/// the log shows of every run that it knew what it showed, a run that came since is new to it and
/// keeps nothing unsettled, and a thread that went to work since did so for a run.
pub open spec fn grown(before: RunState, after: RunState) -> bool {
    &&& log_agrees(after.log, after.table)
    &&& forall|run: Seq<char>| #[trigger]
        after.table.records.dom().contains(run) && !before.table.records.dom().contains(run)
            ==> after.table.records[run].pending_status_event is None
    &&& forall|thread: Seq<char>|
        !is_working(before, thread) ==> #[trigger] works_for_a_run(after, thread)
    &&& forall|run: Seq<char>|
        before.table.records.dom().contains(run) || logged(before.log, run, FinishStage::Start) > 0
            ==> #[trigger] same_run(before, after, run)
}

/// Whether a step of a sweep leads from a state to another, where every append is taken: what it
/// hands out is finished, unless it is over already, and meanwhile new runs may have started.
pub open spec fn sweep_moves(
    before: SweepState,
    after: SweepState,
    hosts: Seq<Host>,
    next: spec_fn(ThreadStatus, RunOutcome) -> Option<ThreadStatus>,
) -> bool {
    exists|then: RunState, request: FinishRequest, finished: bool, sent: usize| #[trigger]
        sweep_moves_by(before, after, hosts, next, then, request, finished, sent)
}

/// Whether a step of a sweep leads from a state to another by way of a third, in which what was
/// handed out is finished.
pub open spec fn sweep_moves_by(
    before: SweepState,
    after: SweepState,
    hosts: Seq<Host>,
    next: spec_fn(ThreadStatus, RunOutcome) -> Option<ThreadStatus>,
    then: RunState,
    request: FinishRequest,
    finished: bool,
    sent: usize,
) -> bool {
    let at_hand = ready(before.sweep, before.world.table, hosts);
    let record = at_hand.due[0];
    &&& grown(then, after.world)
    &&& after.sweep == told(SweepView { sent, ..stepped(at_hand) }, finished)
    &&& if at_hand.phase is Runs && before.world.table.records.dom().contains(record.run_id@) {
        ends_run(before.world, then, request, next) && request.run_id@ == record.run_id@
    } else {
        then == before.world
    }
}

/// Whether a list of states is a sweep from its start to its end.
pub open spec fn whole_sweep(
    states: Seq<SweepState>,
    hosts: Seq<Host>,
    next: spec_fn(ThreadStatus, RunOutcome) -> Option<ThreadStatus>,
) -> bool {
    &&& states.len() > 0
    &&& states[0].sweep.phase is Purge
    &&& states.last().sweep.phase is Over
    &&& log_agrees(states[0].world.log, states[0].world.table)
    &&& forall|i: int|
        0 <= i < states.len() ==> (#[trigger] states[i]).runs.wf() && states[i].runs@
            == states[i].world.table
    &&& forall|i: int|
        0 <= i < states.len() - 1 ==> sweep_moves(#[trigger] states[i], states[i + 1], hosts, next)
}

/// Whether a sweep is to end a run: its deadline passed, its machine went quiet, or it ended and is
/// not settled.
pub open spec fn to_be_ended(record: RunRecord, quiet: Seq<Seq<char>>, now_ms: u64) -> bool {
    record.terminal_published || record.deadline_ms <= now_ms || quiet.contains(record.host_id@)
}

/// The last stage that picks a run.
spec fn stage_for(record: RunRecord, quiet: Seq<Seq<char>>, now_ms: u64) -> int {
    if record.terminal_published {
        quiet.len() as int
    } else if record.deadline_ms <= now_ms {
        quiet.len() + 1int
    } else {
        choose|i: int| 0 <= i < quiet.len() && quiet[i] == record.host_id@
    }
}

/// Whether a sweep has a run still before it.
spec fn is_ahead(sweep: SweepView, record: RunRecord, quiet: Seq<Seq<char>>) -> bool {
    let stage = stage_for(record, quiet, sweep.now_ms);
    match sweep.phase {
        SweepPhase::Purge | SweepPhase::Retry | SweepPhase::Look => true,
        SweepPhase::Detach => sweep.hosts == quiet,
        SweepPhase::Runs => sweep.hosts == quiet && 0 <= sweep.stage && (sweep.stage < stage || (
        sweep.stage == stage && sweep.due.contains(record))),
        _ => false,
    }
}

/// The stage of a run picks it from every table that holds it.
proof fn stages_pick_their_runs(
    runs: RunRegistry,
    record: RunRecord,
    quiet: Seq<Seq<char>>,
    now_ms: u64,
)
    requires
        runs.wf(),
        runs@.records.dom().contains(record.run_id@),
        runs@.records[record.run_id@] == record,
        to_be_ended(record, quiet, now_ms),
    ensures
        0 <= stage_for(record, quiet, now_ms) <= quiet.len() + 1,
        picked(
            runs@,
            stage_pick(quiet, stage_for(record, quiet, now_ms), now_ms),
        ).contains(record),
{
    let stage = stage_for(record, quiet, now_ms);
    let pick = stage_pick(quiet, stage, now_ms);
    assert(pick(record));
    let listed = selections_exist(runs, pick);
    selections_are_one(runs@, pick, listed);
}

/// A sweep that goes on to a stage with work does not pass over a run that it has before it.
proof fn work_passes_no_run_over(
    sweep: SweepView,
    runs: RunRegistry,
    record: RunRecord,
    quiet: Seq<Seq<char>>,
)
    requires
        runs.wf(),
        runs@.records.dom().contains(record.run_id@),
        runs@.records[record.run_id@] == record,
        to_be_ended(record, quiet, sweep.now_ms),
        sweep.phase is Runs,
        is_ahead(sweep, record, quiet),
    ensures
        is_ahead(at_work(sweep, runs@), record, quiet),
        at_work(sweep, runs@).due.len() > 0,
        at_work(sweep, runs@).phase is Runs,
        at_work(sweep, runs@).now_ms == sweep.now_ms,
    decreases sweep.hosts.len() + 1 - sweep.stage,
{
    stages_pick_their_runs(runs, record, quiet, sweep.now_ms);
    if sweep.due.len() == 0 {
        assert(sweep.stage < stage_for(record, quiet, sweep.now_ms));
        let onward = SweepView {
            stage: sweep.stage + 1,
            due: picked(runs@, stage_pick(sweep.hosts, sweep.stage + 1, sweep.now_ms)),
            ..sweep
        };
        work_passes_no_run_over(onward, runs, record, quiet);
    }
}

/// One step of a sweep either ends a run that it has before it, or keeps it there as it was.
proof fn steps_keep_runs_ahead(
    before: SweepState,
    after: SweepState,
    hosts: Seq<Host>,
    next: spec_fn(ThreadStatus, RunOutcome) -> Option<ThreadStatus>,
    record: RunRecord,
)
    requires
        sweep_moves(before, after, hosts, next),
        before.runs.wf(),
        before.runs@ == before.world.table,
        log_agrees(before.world.log, before.world.table),
        before.world.table.records.dom().contains(record.run_id@),
        before.world.table.records[record.run_id@] == record,
        to_be_ended(
            record,
            stale_ids(hosts, before.sweep.now_ms, before.sweep.stale_after_ms),
            before.sweep.now_ms,
        ),
        is_ahead(
            before.sweep,
            record,
            stale_ids(hosts, before.sweep.now_ms, before.sweep.stale_after_ms),
        ),
    ensures
        log_agrees(after.world.log, after.world.table),
        after.sweep.now_ms == before.sweep.now_ms,
        after.sweep.stale_after_ms == before.sweep.stale_after_ms,
        run_is_over(after.world, record.run_id@) || (after.world.table.records.dom().contains(
            record.run_id@,
        ) && after.world.table.records[record.run_id@] == record && is_ahead(
            after.sweep,
            record,
            stale_ids(hosts, before.sweep.now_ms, before.sweep.stale_after_ms),
        )),
{
    let run = record.run_id@;
    let quiet = stale_ids(hosts, before.sweep.now_ms, before.sweep.stale_after_ms);
    let table = before.world.table;
    let there = entered(looked(before.sweep, hosts), table);
    let at_hand = ready(before.sweep, table, hosts);
    let first = at_hand.due[0];
    let (then, request, finished, sent) = choose|
        then: RunState,
        request: FinishRequest,
        finished: bool,
        sent: usize,
    | #[trigger]
        sweep_moves_by(before, after, hosts, next, then, request, finished, sent);
    stages_pick_their_runs(before.runs, record, quiet, before.sweep.now_ms);
    work_keeps_the_rest(there, table);
    if there.phase is Runs {
        assert(is_ahead(there, record, quiet));
        work_passes_no_run_over(there, before.runs, record, quiet);
    }
    assert(is_ahead(at_hand, record, quiet));
    if at_hand.phase is Runs && table.records.dom().contains(first.run_id@) {
        finished_runs_are_over(before.world, then, request, next);
        if first.run_id@ == run {
            assert(same_run(then, after.world, run));
        } else {
            assert(same_run(before.world, then, run));
            assert(same_run(then, after.world, run));
            if at_hand.due.contains(record) {
                let i = choose|i: int| 0 <= i < at_hand.due.len() && at_hand.due[i] == record;
                assert(at_hand.due.drop_first()[i - 1] == record);
            }
        }
    } else {
        assert(same_run(then, after.world, run));
        if at_hand.phase is Runs && at_hand.due.contains(record) {
            let i = choose|i: int| 0 <= i < at_hand.due.len() && at_hand.due[i] == record;
            assert(at_hand.due.drop_first()[i - 1] == record);
        }
    }
}

/// One step of a sweep keeps a run over that is over.
proof fn steps_keep_runs_over(
    before: SweepState,
    after: SweepState,
    hosts: Seq<Host>,
    next: spec_fn(ThreadStatus, RunOutcome) -> Option<ThreadStatus>,
    run: Seq<char>,
)
    requires
        sweep_moves(before, after, hosts, next),
        log_agrees(before.world.log, before.world.table),
        run_is_over(before.world, run),
    ensures
        log_agrees(after.world.log, after.world.table),
        run_is_over(after.world, run),
{
    let at_hand = ready(before.sweep, before.world.table, hosts);
    let first = at_hand.due[0];
    let (then, request, finished, sent) = choose|
        then: RunState,
        request: FinishRequest,
        finished: bool,
        sent: usize,
    | #[trigger]
        sweep_moves_by(before, after, hosts, next, then, request, finished, sent);
    if at_hand.phase is Runs && before.world.table.records.dom().contains(first.run_id@) {
        finished_runs_are_over(before.world, then, request, next);
        assert(same_run(before.world, then, run));
    }
    assert(same_run(then, after.world, run));
}

/// What became of a run after some steps of a sweep.
proof fn sweeps_lose_no_run(
    states: Seq<SweepState>,
    hosts: Seq<Host>,
    next: spec_fn(ThreadStatus, RunOutcome) -> Option<ThreadStatus>,
    record: RunRecord,
    i: int,
)
    requires
        whole_sweep(states, hosts, next),
        states[0].world.table.records.dom().contains(record.run_id@),
        states[0].world.table.records[record.run_id@] == record,
        to_be_ended(
            record,
            stale_ids(hosts, states[0].sweep.now_ms, states[0].sweep.stale_after_ms),
            states[0].sweep.now_ms,
        ),
        0 <= i < states.len(),
    ensures
        log_agrees(states[i].world.log, states[i].world.table),
        run_is_over(states[i].world, record.run_id@) || ({
            &&& states[i].sweep.now_ms == states[0].sweep.now_ms
            &&& states[i].sweep.stale_after_ms == states[0].sweep.stale_after_ms
            &&& states[i].world.table.records.dom().contains(record.run_id@)
            &&& states[i].world.table.records[record.run_id@] == record
            &&& is_ahead(
                states[i].sweep,
                record,
                stale_ids(hosts, states[0].sweep.now_ms, states[0].sweep.stale_after_ms),
            )
        }),
    decreases i,
{
    if i > 0 {
        sweeps_lose_no_run(states, hosts, next, record, i - 1);
        let (a, b) = (states[i - 1], states[i]);
        assert(sweep_moves(states[i - 1], states[i - 1 + 1], hosts, next));
        assert(a.runs.wf() && a.runs@ == a.world.table);
        if run_is_over(a.world, record.run_id@) {
            steps_keep_runs_over(a, b, hosts, next, record.run_id@);
        } else {
            steps_keep_runs_ahead(a, b, hosts, next, record);
        }
    }
}

/// A step of a sweep leaves no thread at work without a run: where a thread was at work only for a
/// run in flight, it is so after the step.
proof fn steps_leave_no_work_behind(
    before: SweepState,
    after: SweepState,
    hosts: Seq<Host>,
    next: spec_fn(ThreadStatus, RunOutcome) -> Option<ThreadStatus>,
    thread: Seq<char>,
)
    requires
        sweep_moves(before, after, hosts, next),
        log_agrees(before.world.log, before.world.table),
        leaves_work(next),
        settle_their_own(before.world),
        works_for_a_run(before.world, thread),
    ensures
        log_agrees(after.world.log, after.world.table),
        settle_their_own(after.world),
        works_for_a_run(after.world, thread),
{
    let at_hand = ready(before.sweep, before.world.table, hosts);
    let first = at_hand.due[0];
    let (then, request, finished, sent) = choose|
        then: RunState,
        request: FinishRequest,
        finished: bool,
        sent: usize,
    | #[trigger]
        sweep_moves_by(before, after, hosts, next, then, request, finished, sent);
    if at_hand.phase is Runs && before.world.table.records.dom().contains(first.run_id@) {
        finished_runs_are_over(before.world, then, request, next);
        let ended = before.world.table.records[request.run_id@];
        assert(settles_its_own(ended));
        assert forall|run: Seq<char>| #[trigger] then.table.records.dom().contains(run) implies
            settles_its_own(then.table.records[run]) by {
            assert(same_run(before.world, then, run));
        }
        if is_working(then, thread) {
            assert(thread != ended.thread_id@);
            let run = choose|run: Seq<char>| #[trigger] is_run_of(before.world, thread, run);
            assert(is_run_of(before.world, thread, run));
            assert(same_run(before.world, then, run));
            assert(is_run_of(then, thread, run));
        }
    }
    assert(works_for_a_run(then, thread));
    assert forall|run: Seq<char>| #[trigger] after.world.table.records.dom().contains(run) implies
        settles_its_own(after.world.table.records[run]) by {
        if then.table.records.dom().contains(run) {
            assert(same_run(then, after.world, run));
        }
    }
    if is_working(then, thread) {
        let run = choose|run: Seq<char>| #[trigger] is_run_of(then, thread, run);
        assert(is_run_of(then, thread, run));
        assert(same_run(then, after.world, run));
        assert(is_run_of(after.world, thread, run));
    }
}

/// A sweep leaves no thread at work without a run.
proof fn sweeps_leave_no_work_behind(
    states: Seq<SweepState>,
    hosts: Seq<Host>,
    next: spec_fn(ThreadStatus, RunOutcome) -> Option<ThreadStatus>,
    thread: Seq<char>,
    i: int,
)
    requires
        whole_sweep(states, hosts, next),
        leaves_work(next),
        settle_their_own(states[0].world),
        works_for_a_run(states[0].world, thread),
        0 <= i < states.len(),
    ensures
        log_agrees(states[i].world.log, states[i].world.table),
        settle_their_own(states[i].world),
        works_for_a_run(states[i].world, thread),
    decreases i,
{
    if i > 0 {
        sweeps_leave_no_work_behind(states, hosts, next, thread, i - 1);
        assert(sweep_moves(states[i - 1], states[i - 1 + 1], hosts, next));
        steps_leave_no_work_behind(states[i - 1], states[i], hosts, next, thread);
    }
}

/// No run outlives a sweep that was to end it: each run in flight whose deadline passed, whose
/// machine went quiet, or that ended and was not settled, left the table by the sweep's end where
/// every append was taken, whatever an earlier attempt had brought into the log and whatever
/// started meanwhile; and over its whole life the log shows for it exactly one start, exactly one
/// end, and at most one reason of the control plane's own. Its thread is not at work on its account:
/// where the end of a run leads a thread out of work, the thread is not at work at all, unless for
/// another run that is in flight.
pub proof fn sweeps_end_every_late_run(
    states: Seq<SweepState>,
    hosts: Seq<Host>,
    next: spec_fn(ThreadStatus, RunOutcome) -> Option<ThreadStatus>,
    run: Seq<char>,
)
    requires
        whole_sweep(states, hosts, next),
        states[0].world.table.records.dom().contains(run),
        to_be_ended(
            states[0].world.table.records[run],
            stale_ids(hosts, states[0].sweep.now_ms, states[0].sweep.stale_after_ms),
            states[0].sweep.now_ms,
        ),
    ensures
        run_is_over(states.last().world, run),
        leaves_work(next) && settle_their_own(states[0].world) && is_working(
            states.last().world,
            states[0].world.table.records[run].thread_id@,
        ) ==> exists|other: Seq<char>|
            other != run && #[trigger] is_run_of(
                states.last().world,
                states[0].world.table.records[run].thread_id@,
                other,
            ),
{
    let record = states[0].world.table.records[run];
    assert(states[0].runs.wf());
    states[0].runs.wf_is_keyed();
    sweeps_lose_no_run(states, hosts, next, record, states.len() - 1);
    assert(states.last() == states[states.len() - 1]);
    if leaves_work(next) && settle_their_own(states[0].world) {
        let thread = record.thread_id@;
        assert(is_run_of(states[0].world, thread, run));
        sweeps_leave_no_work_behind(states, hosts, next, thread, states.len() - 1);
        if is_working(states.last().world, thread) {
            let other = choose|other: Seq<char>| #[trigger]
                is_run_of(states.last().world, thread, other);
            assert(is_run_of(states.last().world, thread, other));
            assert(other != run);
        }
    }
}

// What a sweep promises.

/// The stages of a sweep are one for each machine that went quiet, then one for the runs whose end
/// was published, then one for those that are past their deadline; none of them takes another's
/// run.
pub proof fn stages_end_the_runs_they_are_for(
    hosts: Seq<Seq<char>>,
    stage: int,
    now_ms: u64,
    record: RunRecord,
)
    requires
        0 <= stage <= hosts.len() + 1,
    ensures
        stage < hosts.len() ==> (stage_pick(hosts, stage, now_ms)(record) <==> record.host_id@ == hosts[stage] && !record.terminal_published),
        stage == hosts.len() ==> (stage_pick(hosts, stage, now_ms)(record) <==> record.terminal_published),
        stage == hosts.len() + 1 ==> (stage_pick(hosts, stage, now_ms)(record) <==> record.deadline_ms <= now_ms && !record.terminal_published),
{
}

/// A run of a quiet machine ends because its machine went quiet, one that had ended is settled as
/// it ended, and a late one fails for its reason or times out.
pub proof fn sweeps_judge_by_their_stage(sweep: SweepView, record: RunRecord)
    ensures
        sweep.stage < sweep.hosts.len() ==> verdict_for(sweep, record) == (RunOutcome::HostStale, Some("host "@ + sweep.hosts[sweep.stage] + " stopped heartbeating"@)),
        sweep.stage == sweep.hosts.len() && record.terminal_outcome is Some ==> verdict_for(sweep, record).0 == record.terminal_outcome->0,
        sweep.stage == sweep.hosts.len() && record.terminal_outcome is None ==> verdict_for(sweep, record).0 == RunOutcome::Failed,
        sweep.stage == sweep.hosts.len() ==> verdict_for(sweep, record).1 is None,
        sweep.stage > sweep.hosts.len() && record.failure_reason is None ==> verdict_for(sweep, record) == (RunOutcome::TimedOut, Some("run exceeded its deadline"@)),
        sweep.stage > sweep.hosts.len() && record.failure_reason is Some ==> verdict_for(sweep, record) == (RunOutcome::Failed, Some(record.failure_reason->0@)),
{
}

/// A sweep begins by forgetting what ran out, then tries interactions again, then looks for quiet
/// machines.
pub proof fn sweeps_begin_with_what_ran_out(
    now_ms: u64,
    stale_after_ms: u64,
    fresh: Sweep,
    first: &mut Sweep,
    second: &mut Sweep,
    runs: RunRegistry,
    hosts: Vec<Host>,
    one: SweepStep,
    two: SweepStep,
)
    requires
        call_ensures(Sweep::new, (now_ms, stale_after_ms), fresh),
        call_ensures(Sweep::next, (first, &runs, &hosts), one),
        call_ensures(Sweep::next, (second, &runs, &hosts), two),
    ensures
        fresh@.phase is Purge,
        fresh@.now_ms == now_ms,
        fresh@.stale_after_ms == stale_after_ms,
        old(first)@.phase is Purge ==> one is Purge && final(first)@.phase is Retry,
        old(second)@.phase is Retry ==> two is RetryInteractions && final(second)@.phase is Look,
{
}

/// What a sweep does next is what its phase has at hand: detach the next quiet machine, end the
/// next run that is due by its stage's verdict, drain the queues, or sum up.
pub proof fn sweeps_step_through_their_work(
    sweep: &mut Sweep,
    runs: RunRegistry,
    hosts: Vec<Host>,
    step: SweepStep,
)
    requires
        call_ensures(Sweep::next, (sweep, &runs, &hosts), step),
    ensures
        ({
            let at_hand = ready(old(sweep)@, runs@, hosts@);
            let after = final(sweep)@;
            &&& at_hand.phase is Detach ==> (step matches SweepStep::Detach(host) && host@ == at_hand.hosts[at_hand.detached]) && after.detached == at_hand.detached + 1 && after.phase is Detach
            &&& at_hand.phase is Runs ==> (step matches SweepStep::Finish { record, verdict } && record == at_hand.due[0] && verdict.outcome == verdict_for(at_hand, record).0 && opt_view(verdict.error) == verdict_for(at_hand, record).1) && after.due == at_hand.due.drop_first()
            &&& at_hand.phase is Runs && at_hand.stage < at_hand.hosts.len() ==> after.owed is Stale
            &&& at_hand.phase is Runs && at_hand.stage == at_hand.hosts.len() ==> after.owed is Nothing
            &&& at_hand.phase is Runs && at_hand.stage > at_hand.hosts.len() ==> after.owed == (Owed::Late { had_reason: at_hand.due[0].failure_reason is Some })
            &&& at_hand.phase is Drain ==> step is DrainQueues && after.phase is Over
            &&& at_hand.phase is Over ==> step is Done
            &&& step matches SweepStep::Done(summary) ==> summary.stale_hosts == at_hand.hosts.len() && summary.sent_queued_messages == at_hand.sent && summary.stale_runs == count_true(at_hand.stale) && summary.timed_out_runs == count_true(at_hand.timed_out)
        }),
{
}

/// When a sweep looks it finds the machines that went quiet, and detaches them first.
pub proof fn looking_finds_the_quiet_machines(sweep: SweepView, hosts: Seq<Host>)
    requires
        sweep.phase is Look,
    ensures
        looked(sweep, hosts).hosts == stale_ids(hosts, sweep.now_ms, sweep.stale_after_ms),
        looked(sweep, hosts).phase is Detach,
        looked(sweep, hosts).detached == 0,
{
}

/// A run that a sweep ended counts as stale in a machine's stage, and as timed out in the last one
/// unless it had a reason; what was not ended by the sweep does not count.
pub proof fn ends_are_counted_by_their_stage(sweep: &mut Sweep, result: FinishRunResult)
    requires
        call_ensures(Sweep::ended, (sweep, &result), ()),
    ensures
        old(sweep)@.owed is Nothing ==> final(sweep)@ == old(sweep)@,
        old(sweep)@.owed is Stale ==> final(sweep)@.stale == old(sweep)@.stale.push(result is Finished) && final(sweep)@.timed_out == old(sweep)@.timed_out && final(sweep)@.owed is Nothing,
        old(sweep)@.owed matches Owed::Late { had_reason } ==> final(sweep)@.timed_out == old(sweep)@.timed_out.push(result is Finished && !had_reason) && final(sweep)@.stale == old(sweep)@.stale && final(sweep)@.owed is Nothing,
{
}

/// What a drain sent is noted, and nothing else changes.
pub proof fn drains_are_noted(sweep: &mut Sweep, sent: usize)
    requires
        call_ensures(Sweep::drained, (sweep, sent), ()),
    ensures
        final(sweep)@.sent == sent,
        final(sweep)@.phase == old(sweep)@.phase,
        final(sweep)@.stale == old(sweep)@.stale,
        final(sweep)@.timed_out == old(sweep)@.timed_out,
        final(sweep)@.hosts == old(sweep)@.hosts,
{
}

/// A count is how many are set.
pub proof fn counts_are_of_what_is_set(flags: Seq<bool>)
    ensures
        count_true(flags) == flags.filter(|flag: bool| flag).len(),
    decreases flags.len(),
{
    reveal(Seq::filter);
    if flags.len() > 0 {
        counts_are_of_what_is_set(flags.drop_last());
    }
}

// How a sweep goes on.

/// The stages of a sweep are taken in their order: once every quiet machine is detached the sweep
/// stands at the first stage that has a run to end, with all of that stage's runs, or it goes on to
/// the queues where no stage has any.
pub proof fn stages_are_taken_in_order(sweep: SweepView, table: RunTable, hosts: Seq<Host>, stage: int)
    requires
        sweep.phase is Detach,
        sweep.detached == sweep.hosts.len(),
    ensures
        ({
            let at_hand = ready(sweep, table, hosts);
            let due = picked(table, stage_pick(sweep.hosts, stage, sweep.now_ms));
            &&& at_hand.phase is Runs || at_hand.phase is Drain
            &&& at_hand.hosts == sweep.hosts
            &&& at_hand.phase is Runs ==> 0 <= at_hand.stage <= sweep.hosts.len() + 1
            &&& at_hand.phase is Runs && stage == at_hand.stage ==> at_hand.due == due && due.len() > 0
            &&& at_hand.phase is Runs && 0 <= stage < at_hand.stage ==> due.len() == 0
            &&& at_hand.phase is Drain && 0 <= stage <= sweep.hosts.len() + 1 ==> due.len() == 0
        }),
{
    let begun = entered(looked(sweep, hosts), table);
    work_is_found_in_order(begun, table, stage);
}

/// A sweep that looks for work from a stage on finds the first stage that has any.
proof fn work_is_found_in_order(sweep: SweepView, table: RunTable, stage: int)
    requires
        0 <= sweep.stage <= sweep.hosts.len() + 1,
        sweep.due == picked(table, stage_pick(sweep.hosts, sweep.stage, sweep.now_ms)),
        0 <= stage < sweep.stage ==> picked(table, stage_pick(sweep.hosts, stage, sweep.now_ms)).len()
            == 0,
    ensures
        ({
            let found = at_work(sweep, table);
            let due = picked(table, stage_pick(sweep.hosts, stage, sweep.now_ms));
            &&& found.hosts == sweep.hosts
            &&& found.phase == sweep.phase
            &&& 0 <= found.stage <= sweep.hosts.len() + 1
            &&& found.due == picked(table, stage_pick(sweep.hosts, found.stage, sweep.now_ms))
            &&& 0 <= stage < found.stage ==> due.len() == 0
            &&& found.due.len() == 0 ==> found.stage == sweep.hosts.len() + 1
        }),
    decreases sweep.hosts.len() + 1 - sweep.stage,
{
    if sweep.due.len() > 0 || sweep.stage > sweep.hosts.len() {
    } else {
        let next = SweepView {
            stage: sweep.stage + 1,
            due: picked(table, stage_pick(sweep.hosts, sweep.stage + 1, sweep.now_ms)),
            ..sweep
        };
        work_is_found_in_order(next, table, stage);
    }
}

/// A sweep that has a machine to detach or a run to end stays with it, and one that purges,
/// retries, drains or is over has no other work.
pub proof fn sweeps_keep_what_they_have_at_hand(
    sweep: SweepView,
    table: RunTable,
    hosts: Seq<Host>,
)
    ensures
        sweep.phase is Detach && sweep.detached < sweep.hosts.len() ==> ready(sweep, table, hosts) == sweep,
        sweep.phase is Runs && sweep.due.len() > 0 ==> ready(sweep, table, hosts) == sweep,
        sweep.phase is Purge || sweep.phase is Retry || sweep.phase is Drain || sweep.phase is Over ==> ready(sweep, table, hosts) == sweep,
{
}

} // verus!
