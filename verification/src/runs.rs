//! In-flight provider runs: dispatch, reporting, and reconciliation.
//!
//! 1. **Dispatch goes to the environment's host.** A thread without a usable workspace, or whose
//!    host is detached, is failed, never run somewhere else.
//! 2. **Reports become thread events**, under the identity the run was recorded with.
//! 3. **Every run reaches a terminal state.** Finishing is a small machine: it looks at how far a
//!    run's lifecycle is in the log and says which event to append next. The caller appends it and
//!    says whether the relay took it. Progress is kept on the run's record, so an attempt that
//!    failed part-way is continued rather than repeated: at most one start and at most one
//!    terminal event of a run ever reach the log, the start first.

use vstd::prelude::*;

use crate::domain::{DomainEvent, Host, RunOutcome, ThreadStatus};
use crate::strmap::{key_at, StrMap};
use crate::text::{copy_opt, precedes, same_text};

verus! {

/// A provider run or preflight attempt that has not reached a terminal event.
#[derive(Debug, PartialEq, Eq)]
pub struct RunRecord {
    /// The run's identity, also the idempotency key for dispatch delivery.
    pub run_id: String,
    /// The thread being advanced.
    pub thread_id: String,
    /// Its project.
    pub project_id: String,
    /// The host that owns the run. Only this host's reports are accepted.
    pub host_id: String,
    /// The workspace the provider was dispatched into.
    pub cwd: String,
    /// When the dispatch was published.
    pub started_at_ms: u64,
    /// When the run must be terminal, or the server reaps it.
    pub deadline_ms: u64,
    /// Whether a start of the turn has been published.
    pub turn_started: bool,
    /// The provider identity carried by the run's start, when known.
    pub provider_thread_id: Option<String>,
    /// Whether a provider error has already been published for this run.
    pub provider_error_reported: bool,
    /// Why the attempt failed before a provider could be dispatched.
    pub failure_reason: Option<String>,
    /// Whether the terminal run event has been published.
    pub terminal_published: bool,
    /// The outcome of the published terminal event.
    pub terminal_outcome: Option<RunOutcome>,
    /// The thread status event still waiting to be published, if any.
    pub pending_status_event: Option<PendingStatusChange>,
}

impl Clone for RunRecord {
    fn clone(&self) -> (result: RunRecord)
        ensures
            result == *self,
    {
        RunRecord {
            run_id: self.run_id.clone(),
            thread_id: self.thread_id.clone(),
            project_id: self.project_id.clone(),
            host_id: self.host_id.clone(),
            cwd: self.cwd.clone(),
            started_at_ms: self.started_at_ms,
            deadline_ms: self.deadline_ms,
            turn_started: self.turn_started,
            provider_thread_id: copy_opt(&self.provider_thread_id),
            provider_error_reported: self.provider_error_reported,
            failure_reason: copy_opt(&self.failure_reason),
            terminal_published: self.terminal_published,
            terminal_outcome: self.terminal_outcome,
            pending_status_event: copy_pending(&self.pending_status_event),
        }
    }
}

/// The durable data needed to retry one terminal thread-status append.
#[derive(Debug, PartialEq, Eq)]
pub struct PendingStatusChange {
    /// The thread whose status changes.
    pub thread_id: String,
    /// The project containing the thread.
    pub project_id: String,
    /// The status before the transition.
    pub from: ThreadStatus,
    /// The status after the transition.
    pub to: ThreadStatus,
    /// The original transition timestamp.
    pub at_ms: u64,
}

impl Clone for PendingStatusChange {
    fn clone(&self) -> (result: PendingStatusChange)
        ensures
            result == *self,
    {
        PendingStatusChange {
            thread_id: self.thread_id.clone(),
            project_id: self.project_id.clone(),
            from: self.from,
            to: self.to,
            at_ms: self.at_ms,
        }
    }
}

impl PendingStatusChange {
    /// Whether an event is this change: a status change that is the same in every field.
    pub open spec fn is_event(self, event: DomainEvent) -> bool {
        match event {
            DomainEvent::ThreadStatusChanged { thread_id, project_id, from, to, at_ms } => {
                &&& thread_id@ == self.thread_id@
                &&& project_id@ == self.project_id@
                &&& from == self.from
                &&& to == self.to
                &&& at_ms == self.at_ms
            },
            _ => false,
        }
    }

    /// The event that is appended for the change.
    pub fn event(&self) -> (result: DomainEvent)
        ensures
            self.is_event(result),
    {
        DomainEvent::ThreadStatusChanged {
            thread_id: self.thread_id.clone(),
            project_id: self.project_id.clone(),
            from: self.from,
            to: self.to,
            at_ms: self.at_ms,
        }
    }

    /// Whether an event read back from the log is the pending append.
    pub fn matches_event(&self, event: &DomainEvent) -> (result: bool)
        ensures
            result == self.is_event(*event),
    {
        match event {
            DomainEvent::ThreadStatusChanged { thread_id, project_id, from, to, at_ms } => {
                same_text(thread_id.as_str(), self.thread_id.as_str()) && same_text(
                    project_id.as_str(),
                    self.project_id.as_str(),
                ) && *from == self.from && *to == self.to && *at_ms == self.at_ms
            },
            _ => false,
        }
    }
}

fn copy_pending(value: &Option<PendingStatusChange>) -> (result: Option<PendingStatusChange>)
    ensures
        result == *value,
{
    match value {
        Some(change) => Some(change.clone()),
        None => None,
    }
}

/// The runs in flight and the threads they claim, as mathematics.
pub ghost struct RunTable {
    /// The record of each run.
    pub records: Map<Seq<char>, RunRecord>,
    /// The run that claims each thread.
    pub claims: Map<Seq<char>, Seq<char>>,
}

impl RunTable {
    /// Whether a run holds the claim on a thread.
    pub open spec fn holds(self, thread: Seq<char>, run: Seq<char>) -> bool {
        self.claims.dom().contains(thread) && self.claims[thread] == run
    }

    /// The claims after a run gave up the one it held on a thread.
    pub open spec fn unclaimed(self, thread: Seq<char>, run: Seq<char>) -> Map<
        Seq<char>,
        Seq<char>,
    > {
        if self.holds(thread, run) {
            self.claims.remove(thread)
        } else {
            self.claims
        }
    }

    /// The table with a record put in: the claim of a record that it replaces is given up, and its
    /// own thread is claimed.
    pub open spec fn with_record(self, record: RunRecord) -> RunTable {
        let run = record.run_id@;
        let base = if self.records.dom().contains(run) {
            self.unclaimed(self.records[run].thread_id@, run)
        } else {
            self.claims
        };
        RunTable {
            records: self.records.insert(run, record),
            claims: base.insert(record.thread_id@, run),
        }
    }

    /// The table without a run, its claim given up.
    pub open spec fn without_run(self, run: Seq<char>) -> RunTable {
        if self.records.dom().contains(run) {
            RunTable {
                records: self.records.remove(run),
                claims: self.unclaimed(self.records[run].thread_id@, run),
            }
        } else {
            self
        }
    }

    /// The table with the record of a run changed.
    pub open spec fn with_changed(self, run: Seq<char>, record: RunRecord) -> RunTable {
        RunTable { records: self.records.insert(run, record), claims: self.claims }
    }

    /// Every run stands under its own id.
    pub open spec fn keyed(self) -> bool {
        forall|run: Seq<char>| #[trigger]
            self.records.dom().contains(run) ==> self.records[run].run_id@ == run
    }

    /// Every run in flight holds the claim on its thread.
    pub open spec fn consistent(self) -> bool {
        &&& self.keyed()
        &&& forall|run: Seq<char>| #[trigger]
            self.records.dom().contains(run) ==> self.holds(self.records[run].thread_id@, run)
    }
}

/// Whether a record is among those a predicate selects from a table.
pub open spec fn selected(
    table: RunTable,
    pick: spec_fn(RunRecord) -> bool,
    runs: Seq<RunRecord>,
) -> bool {
    &&& forall|i: int, j: int|
        0 <= i < j < runs.len() ==> precedes((#[trigger] runs[i]).run_id@, (#[trigger] runs[j]).run_id@)
    &&& forall|i: int|
        0 <= i < runs.len() ==> table.records.dom().contains((#[trigger] runs[i]).run_id@)
            && table.records[runs[i].run_id@] == runs[i] && pick(runs[i])
    &&& forall|run: Seq<char>| #[trigger]
        table.records.dom().contains(run) && pick(table.records[run]) ==> runs.contains(
            table.records[run],
        )
}

/// A choice among the runs in flight.
enum RunFilter<'a> {
    All,
    Host(&'a str),
    Expired(u64),
    Stranded(&'a str),
    Unsettled,
    Overdue(u64),
}

impl<'a> RunFilter<'a> {
    /// Whether the filter picks a record.
    spec fn spec_picks(&self, record: RunRecord) -> bool {
        match *self {
            RunFilter::All => true,
            RunFilter::Host(host) => record.host_id@ == host@,
            RunFilter::Expired(now_ms) => record.deadline_ms <= now_ms,
            RunFilter::Stranded(host) => record.host_id@ == host@ && !record.terminal_published,
            RunFilter::Unsettled => record.terminal_published,
            RunFilter::Overdue(now_ms) => record.deadline_ms <= now_ms && !record.terminal_published,
        }
    }

    /// The filter as a predicate.
    spec fn predicate(&self) -> spec_fn(RunRecord) -> bool {
        |record: RunRecord| self.spec_picks(record)
    }

    /// Whether the filter picks a record.
    fn picks(&self, record: &RunRecord) -> (result: bool)
        ensures
            result == self.spec_picks(*record),
    {
        match self {
            RunFilter::All => true,
            RunFilter::Host(host) => same_text(record.host_id.as_str(), host),
            RunFilter::Expired(now_ms) => record.deadline_ms <= *now_ms,
            RunFilter::Stranded(host) => same_text(record.host_id.as_str(), host)
                && !record.terminal_published,
            RunFilter::Unsettled => record.terminal_published,
            RunFilter::Overdue(now_ms) => record.deadline_ms <= *now_ms
                && !record.terminal_published,
        }
    }
}

/// Runs currently in flight, keyed by run id.
pub struct RunRegistry {
    records: StrMap<RunRecord>,
    thread_claims: StrMap<String>,
}

impl View for RunRegistry {
    type V = RunTable;

    closed spec fn view(&self) -> RunTable {
        RunTable {
            records: self.records@,
            claims: Map::new(
                |thread: Seq<char>| self.thread_claims@.dom().contains(thread),
                |thread: Seq<char>| self.thread_claims@[thread]@,
            ),
        }
    }
}

impl RunRegistry {
    /// The maps are in order and every run stands under its own id.
    pub closed spec fn wf(&self) -> bool {
        self.records.wf() && self.thread_claims.wf() && self@.keyed()
    }

    /// Every run of a well-formed registry stands under its own id.
    pub proof fn wf_is_keyed(&self)
        requires
            self.wf(),
        ensures
            self@.keyed(),
    {
    }

    /// An empty table.
    pub fn new() -> (result: RunRegistry)
        ensures
            result.wf(),
            result@.records == Map::<Seq<char>, RunRecord>::empty(),
            result@.claims == Map::<Seq<char>, Seq<char>>::empty(),
    {
        let result = RunRegistry { records: StrMap::new(), thread_claims: StrMap::new() };
        assert(result@.claims =~= Map::<Seq<char>, Seq<char>>::empty());
        result
    }

    /// Whether a run holds the claim on a thread.
    fn claim_is(&self, thread_id: &str, run_id: &str) -> (result: bool)
        requires
            self.wf(),
        ensures
            result == self@.holds(thread_id@, run_id@),
    {
        match self.thread_claims.get(thread_id) {
            Some(run) => same_text(run.as_str(), run_id),
            None => false,
        }
    }

    /// Gives up the claim of a run on a thread, where it holds it.
    fn unclaim(&mut self, thread_id: &str, run_id: &str)
        requires
            old(self).wf(),
        ensures
            final(self).wf(),
            final(self)@.records == old(self)@.records,
            final(self)@.claims == old(self)@.unclaimed(thread_id@, run_id@),
    {
        if self.claim_is(thread_id, run_id) {
            let _ = self.thread_claims.remove(thread_id);
        }
        assert(self@.claims =~= old(self)@.unclaimed(thread_id@, run_id@));
    }

    /// Records a run. Returns the previous record if the id was reused, which cannot happen for
    /// minted ids but keeps the operation total.
    pub fn insert(&mut self, record: RunRecord) -> (result: Option<RunRecord>)
        requires
            old(self).wf(),
        ensures
            final(self).wf(),
            final(self)@ == old(self)@.with_record(record),
            match result {
                Some(previous) => old(self)@.records.dom().contains(record.run_id@)
                    && old(self)@.records[record.run_id@] == previous,
                None => !old(self)@.records.dom().contains(record.run_id@),
            },
    {
        let run_id: String = record.run_id.clone();
        let thread_id: String = record.thread_id.clone();
        let ghost kept = record;
        let previous: Option<RunRecord> = self.records.insert(record.run_id.clone(), record);
        assert(self@.keyed());
        match &previous {
            Some(replaced) => {
                self.unclaim(replaced.thread_id.as_str(), run_id.as_str());
            },
            None => {},
        }
        let ghost claims = self@.claims;
        let _ = self.thread_claims.insert(thread_id, run_id);
        assert(self@.claims =~= claims.insert(kept.thread_id@, kept.run_id@));
        assert(self@.records =~= old(self)@.records.insert(kept.run_id@, kept));
        previous
    }

    /// Restores runs from a snapshot before recovery settles them.
    pub fn restore(&mut self, records: Vec<RunRecord>)
        requires
            old(self).wf(),
        ensures
            final(self).wf(),
            final(self)@ == restored(old(self)@, records@),
    {
        assert(records@.take(0) =~= Seq::<RunRecord>::empty());
        let mut i: usize = 0;
        while i < records.len()
            invariant
                self.wf(),
                i <= records@.len(),
                self@ == restored(old(self)@, records@.take(i as int)),
            decreases records.len() - i,
        {
            let _ = self.insert(records[i].clone());
            assert(records@.take(i + 1).drop_last() =~= records@.take(i as int));
            i += 1;
        }
        assert(records@.take(records@.len() as int) =~= records@);
    }

    /// Claims a thread before a dispatch is resolved or published. Fails with the run that holds
    /// the claim already, leaving the table as it is.
    pub fn claim_thread(&mut self, thread_id: &str, run_id: String) -> (result: Result<(), String>)
        requires
            old(self).wf(),
        ensures
            final(self).wf(),
            final(self)@.records == old(self)@.records,
            match result {
                Ok(_) => !old(self)@.claims.dom().contains(thread_id@) && final(self)@.claims
                    == old(self)@.claims.insert(thread_id@, run_id@),
                Err(holder) => old(self)@.holds(thread_id@, holder@) && final(self)@.claims
                    == old(self)@.claims,
            },
    {
        match self.thread_claims.get(thread_id) {
            Some(existing) => Err(existing.clone()),
            None => {
                let ghost run = run_id@;
                let _ = self.thread_claims.insert(thread_id.to_owned(), run_id);
                assert(self@.claims =~= old(self)@.claims.insert(thread_id@, run));
                Ok(())
            },
        }
    }

    /// Releases a claim, where the run holds it.
    pub fn release_thread(&mut self, thread_id: &str, run_id: &str) -> (result: bool)
        requires
            old(self).wf(),
        ensures
            final(self).wf(),
            result == old(self)@.holds(thread_id@, run_id@),
            final(self)@.records == old(self)@.records,
            final(self)@.claims == old(self)@.unclaimed(thread_id@, run_id@),
    {
        let held: bool = self.claim_is(thread_id, run_id);
        self.unclaim(thread_id, run_id);
        held
    }

    /// A run by id.
    pub fn get(&self, run_id: &str) -> (result: Option<RunRecord>)
        requires
            self.wf(),
        ensures
            match result {
                Some(record) => self@.records.dom().contains(run_id@) && self@.records[run_id@]
                    == record && record.run_id@ == run_id@,
                None => !self@.records.dom().contains(run_id@),
            },
    {
        match self.records.get(run_id) {
            Some(record) => Some(record.clone()),
            None => None,
        }
    }

    /// Removes a run, returning it if it was in flight.
    pub fn remove(&mut self, run_id: &str) -> (result: Option<RunRecord>)
        requires
            old(self).wf(),
        ensures
            final(self).wf(),
            final(self)@ == old(self)@.without_run(run_id@),
            match result {
                Some(record) => old(self)@.records.dom().contains(run_id@)
                    && old(self)@.records[run_id@] == record,
                None => !old(self)@.records.dom().contains(run_id@),
            },
    {
        match self.records.remove(run_id) {
            Some(record) => {
                assert(self@.keyed());
                assert(self@.claims =~= old(self)@.claims);
                self.unclaim(record.thread_id.as_str(), run_id);
                Some(record)
            },
            None => {
                assert(self@.records =~= old(self)@.records);
                assert(self@.claims =~= old(self)@.claims);
                None
            },
        }
    }

    /// Puts a changed record in the place of the one that its run has.
    fn change(&mut self, record: RunRecord)
        requires
            old(self).wf(),
        ensures
            final(self).wf(),
            final(self)@ == old(self)@.with_changed(record.run_id@, record),
    {
        let ghost kept = record;
        let _ = self.records.insert(record.run_id.clone(), record);
        assert(self@.claims =~= old(self)@.claims);
        assert(self@.records =~= old(self)@.records.insert(kept.run_id@, kept));
    }

    /// Marks the first published turn event and records its provider identity. Returns `false`,
    /// changing nothing, when the run is gone or was already marked.
    pub fn mark_started(&mut self, run_id: &str, provider_thread_id: String) -> (result: bool)
        requires
            old(self).wf(),
        ensures
            final(self).wf(),
            result == (old(self)@.records.dom().contains(run_id@) && !old(self)@.records[run_id@].turn_started),
            !result ==> final(self)@ == old(self)@,
            result ==> final(self)@ == old(self)@.with_changed(
                run_id@,
                (RunRecord {
                    turn_started: true,
                    provider_thread_id: Some(provider_thread_id),
                    ..old(self)@.records[run_id@]
                }),
            ),
    {
        match self.get(run_id) {
            Some(record) => {
                if record.turn_started {
                    return false;
                }
                self.change(
                    RunRecord {
                        turn_started: true,
                        provider_thread_id: Some(provider_thread_id),
                        ..record
                    },
                );
                true
            },
            None => false,
        }
    }

    /// Records that a provider error has been published for a run.
    pub fn mark_provider_error(&mut self, run_id: &str)
        requires
            old(self).wf(),
        ensures
            final(self).wf(),
            final(self)@ == (if old(self)@.records.dom().contains(run_id@) {
                old(self)@.with_changed(
                    run_id@,
                    (RunRecord { provider_error_reported: true, ..old(self)@.records[run_id@] }),
                )
            } else {
                old(self)@
            }),
    {
        match self.get(run_id) {
            Some(record) => {
                self.change(RunRecord { provider_error_reported: true, ..record });
            },
            None => {},
        }
    }

    /// Records that the terminal run event reached the relay.
    pub fn mark_terminal(&mut self, run_id: &str, outcome: RunOutcome) -> (result: bool)
        requires
            old(self).wf(),
        ensures
            final(self).wf(),
            result == old(self)@.records.dom().contains(run_id@),
            final(self)@ == (if result {
                old(self)@.with_changed(
                    run_id@,
                    (RunRecord {
                        terminal_published: true,
                        terminal_outcome: Some(outcome),
                        ..old(self)@.records[run_id@]
                    }),
                )
            } else {
                old(self)@
            }),
    {
        match self.get(run_id) {
            Some(record) => {
                self.change(
                    RunRecord {
                        terminal_published: true,
                        terminal_outcome: Some(outcome),
                        ..record
                    },
                );
                true
            },
            None => false,
        }
    }

    /// Keeps the status event needed to finish a terminal run.
    pub fn set_pending_status_event(&mut self, run_id: &str, event: PendingStatusChange) -> (result:
        bool)
        requires
            old(self).wf(),
        ensures
            final(self).wf(),
            result == old(self)@.records.dom().contains(run_id@),
            final(self)@ == (if result {
                old(self)@.with_changed(
                    run_id@,
                    (RunRecord {
                        pending_status_event: Some(event),
                        ..old(self)@.records[run_id@]
                    }),
                )
            } else {
                old(self)@
            }),
    {
        match self.get(run_id) {
            Some(record) => {
                self.change(RunRecord { pending_status_event: Some(event), ..record });
                true
            },
            None => false,
        }
    }

    /// Clears a status event after its relay append succeeds.
    pub fn clear_pending_status_event(&mut self, run_id: &str) -> (result: bool)
        requires
            old(self).wf(),
        ensures
            final(self).wf(),
            result == old(self)@.records.dom().contains(run_id@),
            final(self)@ == (if result {
                old(self)@.with_changed(
                    run_id@,
                    (RunRecord { pending_status_event: None, ..old(self)@.records[run_id@] }),
                )
            } else {
                old(self)@
            }),
    {
        match self.get(run_id) {
            Some(record) => {
                self.change(RunRecord { pending_status_event: None, ..record });
                true
            },
            None => false,
        }
    }

    /// The runs that a filter picks, in the order of their ids.
    fn gather(&self, filter: &RunFilter) -> (result: Vec<RunRecord>)
        requires
            self.wf(),
        ensures
            selected(self@, filter.predicate(), result@),
    {
        let mut runs: Vec<RunRecord> = Vec::new();
        let ghost entries = self.records.spec_entries();
        let ghost pick = filter.predicate();
        let mut i: usize = 0;
        while i < self.records.len()
            invariant
                self.wf(),
                entries == self.records.spec_entries(),
                pick == filter.predicate(),
                i <= entries.len(),
                gathered(entries, pick, i as int, runs@),
            decreases entries.len() - i,
        {
            let record: &RunRecord = self.records.value(i);
            proof {
                gather_one(self.records, pick, i as int, runs@);
            }
            if filter.picks(record) {
                runs.push(record.clone());
            }
            i += 1;
        }
        proof {
            gathered_is_selected(*self, pick, runs@);
        }
        runs
    }

    /// Every in-flight run on one host, in the order of their ids.
    pub fn for_host(&self, host_id: &str) -> (result: Vec<RunRecord>)
        requires
            self.wf(),
        ensures
            selected(self@, |record: RunRecord| record.host_id@ == host_id@, result@),
    {
        let filter = RunFilter::Host(host_id);
        proof {
            assert(filter.predicate() =~= |record: RunRecord| record.host_id@ == host_id@);
        }
        self.gather(&filter)
    }

    /// Every in-flight run, in the order of their ids.
    pub fn all(&self) -> (result: Vec<RunRecord>)
        requires
            self.wf(),
        ensures
            selected(self@, |record: RunRecord| true, result@),
    {
        let filter = RunFilter::All;
        proof {
            assert(filter.predicate() =~= |record: RunRecord| true);
        }
        self.gather(&filter)
    }

    /// The in-flight run advancing one thread, the one of the lowest id where there are several.
    pub fn for_thread(&self, thread_id: &str) -> (result: Option<RunRecord>)
        requires
            self.wf(),
        ensures
            match result {
                Some(record) => {
                    &&& self@.records.dom().contains(record.run_id@)
                    &&& self@.records[record.run_id@] == record
                    &&& record.thread_id@ == thread_id@
                    &&& forall|run: Seq<char>| #[trigger]
                        self@.records.dom().contains(run) && self@.records[run].thread_id@
                            == thread_id@ && run != record.run_id@ ==> precedes(record.run_id@, run)
                },
                None => forall|run: Seq<char>| #[trigger]
                    self@.records.dom().contains(run) ==> self@.records[run].thread_id@ != thread_id@,
            },
    {
        let ghost entries = self.records.spec_entries();
        let mut i: usize = 0;
        while i < self.records.len()
            invariant
                self.wf(),
                entries == self.records.spec_entries(),
                i <= entries.len(),
                forall|j: int| 0 <= j < i ==> (#[trigger] entries[j]).1.thread_id@ != thread_id@,
            decreases entries.len() - i,
        {
            let record: &RunRecord = self.records.value(i);
            if same_text(record.thread_id.as_str(), thread_id) {
                proof {
                    self.records.entries_are_the_map();
                    assert(entries[i as int].1 == *record);
                    assert forall|run: Seq<char>| #[trigger]
                        self@.records.dom().contains(run) && self@.records[run].thread_id@
                            == thread_id@ && run != record.run_id@ implies precedes(
                        record.run_id@,
                        run,
                    ) by {
                        let j = choose|j: int| key_at(entries, run, j);
                        assert(entries[j].0@ == run);
                        assert(entries[i as int].0@ == record.run_id@);
                    }
                }
                return Some(record.clone());
            }
            i += 1;
        }
        proof {
            self.records.entries_are_the_map();
            assert forall|run: Seq<char>| #[trigger]
                self@.records.dom().contains(run) implies self@.records[run].thread_id@
                != thread_id@ by {
                let j = choose|j: int| key_at(entries, run, j);
                assert(entries[j].1.thread_id@ != thread_id@);
            }
        }
        None
    }

    /// In-flight runs whose deadline has passed, in the order of their ids.
    pub fn expired(&self, now_ms: u64) -> (result: Vec<RunRecord>)
        requires
            self.wf(),
        ensures
            selected(self@, |record: RunRecord| record.deadline_ms <= now_ms, result@),
    {
        let filter = RunFilter::Expired(now_ms);
        proof {
            assert(filter.predicate() =~= |record: RunRecord| record.deadline_ms <= now_ms);
        }
        self.gather(&filter)
    }

    /// The runs that a host which went quiet leaves behind: those on it that have not ended.
    pub fn stranded(&self, host_id: &str) -> (result: Vec<RunRecord>)
        requires
            self.wf(),
        ensures
            selected(self@, |record: RunRecord| record.host_id@ == host_id@ && !record.terminal_published, result@),
    {
        let filter = RunFilter::Stranded(host_id);
        proof {
            assert(filter.predicate() =~= |record: RunRecord| record.host_id@ == host_id@ && !record.terminal_published);
        }
        self.gather(&filter)
    }

    /// The runs that ended and whose threads are still to be settled.
    pub fn unsettled(&self) -> (result: Vec<RunRecord>)
        requires
            self.wf(),
        ensures
            selected(self@, |record: RunRecord| record.terminal_published, result@),
    {
        let filter = RunFilter::Unsettled;
        proof {
            assert(filter.predicate() =~= |record: RunRecord| record.terminal_published);
        }
        self.gather(&filter)
    }

    /// The runs whose deadline has passed and that have not ended.
    pub fn overdue(&self, now_ms: u64) -> (result: Vec<RunRecord>)
        requires
            self.wf(),
        ensures
            selected(self@, |record: RunRecord| record.deadline_ms <= now_ms && !record.terminal_published, result@),
    {
        let filter = RunFilter::Overdue(now_ms);
        proof {
            assert(filter.predicate() =~= |record: RunRecord| record.deadline_ms <= now_ms && !record.terminal_published);
        }
        self.gather(&filter)
    }

    /// How many runs are in flight.
    pub fn len(&self) -> (result: usize)
        requires
            self.wf(),
        ensures
            result == self@.records.dom().len(),
            self@.records.dom().finite(),
    {
        proof {
            self.records.size_is_the_domain();
        }
        self.records.len()
    }

    /// Whether no run is in flight.
    pub fn is_empty(&self) -> (result: bool)
        requires
            self.wf(),
        ensures
            result == (self@.records =~= Map::<Seq<char>, RunRecord>::empty()),
    {
        let empty: bool = self.records.len() == 0;
        proof {
            self.records.entries_are_the_map();
            if self.records.spec_entries().len() > 0 {
                let first = self.records.spec_entries()[0];
                assert(self@.records.dom().contains(first.0@));
            } else {
                assert forall|run: Seq<char>| !self@.records.dom().contains(run) by {
                    if self@.records.dom().contains(run) {
                        let j = choose|j: int| key_at(self.records.spec_entries(), run, j);
                        assert(false);
                    }
                }
            }
        }
        empty
    }
}

/// A table with the records of a snapshot put in, one after the other.
pub open spec fn restored(table: RunTable, records: Seq<RunRecord>) -> RunTable
    decreases records.len(),
{
    if records.len() == 0 {
        table
    } else {
        restored(table, records.drop_last()).with_record(records.last())
    }
}

/// The records of the first `upto` entries that a predicate picks, in order.
spec fn gathered(
    entries: Seq<(String, RunRecord)>,
    pick: spec_fn(RunRecord) -> bool,
    upto: int,
    runs: Seq<RunRecord>,
) -> bool {
    &&& forall|i: int, j: int|
        0 <= i < j < runs.len() ==> precedes((#[trigger] runs[i]).run_id@, (#[trigger] runs[j]).run_id@)
    &&& forall|i: int|
        0 <= i < runs.len() ==> pick(#[trigger] runs[i]) && exists|k: int|
            0 <= k < upto && (#[trigger] entries[k]).1 == runs[i]
    &&& forall|k: int|
        0 <= k < upto && pick((#[trigger] entries[k]).1) ==> runs.contains(entries[k].1)
}

/// One entry more keeps a gathering complete.
proof fn gather_one(
    records: StrMap<RunRecord>,
    pick: spec_fn(RunRecord) -> bool,
    upto: int,
    runs: Seq<RunRecord>,
)
    requires
        records.wf(),
        forall|run: Seq<char>| #[trigger]
            records@.dom().contains(run) ==> records@[run].run_id@ == run,
        0 <= upto < records.spec_entries().len(),
        gathered(records.spec_entries(), pick, upto, runs),
    ensures
        pick(records.spec_entries()[upto].1) ==> gathered(
            records.spec_entries(),
            pick,
            upto + 1,
            runs.push(records.spec_entries()[upto].1),
        ),
        !pick(records.spec_entries()[upto].1) ==> gathered(
            records.spec_entries(),
            pick,
            upto + 1,
            runs,
        ),
{
    let entries = records.spec_entries();
    let next = entries[upto].1;
    records.entries_are_the_map();
    assert(entries[upto].0@ == next.run_id@);
    if pick(next) {
        let more = runs.push(next);
        assert forall|i: int, j: int| 0 <= i < j < more.len() implies precedes(
            (#[trigger] more[i]).run_id@,
            (#[trigger] more[j]).run_id@,
        ) by {
            if j == runs.len() {
                let k = choose|k: int| 0 <= k < upto && (#[trigger] entries[k]).1 == runs[i];
                assert(entries[k].0@ == runs[i].run_id@);
                assert(precedes(entries[k].0@, entries[upto].0@));
            }
        }
        assert forall|i: int| 0 <= i < more.len() implies pick(#[trigger] more[i]) && exists|k: int|
            0 <= k < upto + 1 && (#[trigger] entries[k]).1 == more[i] by {
            if i < runs.len() {
                let k = choose|k: int| 0 <= k < upto && (#[trigger] entries[k]).1 == runs[i];
                assert(entries[k].1 == more[i]);
            } else {
                assert(entries[upto].1 == more[i]);
            }
        }
        assert forall|k: int| 0 <= k < upto + 1 && pick((#[trigger] entries[k]).1) implies
            more.contains(entries[k].1) by {
            if k < upto {
                let i = choose|i: int| 0 <= i < runs.len() && runs[i] == entries[k].1;
                assert(more[i] == entries[k].1);
            } else {
                assert(more[runs.len() as int] == entries[k].1);
            }
        }
    } else {
        assert forall|i: int| 0 <= i < runs.len() implies pick(#[trigger] runs[i]) && exists|k: int|
            0 <= k < upto + 1 && (#[trigger] entries[k]).1 == runs[i] by {
            let k = choose|k: int| 0 <= k < upto && (#[trigger] entries[k]).1 == runs[i];
            assert(entries[k].1 == runs[i]);
        }
    }
}

/// A gathering over all entries is the selection of the predicate.
proof fn gathered_is_selected(
    registry: RunRegistry,
    pick: spec_fn(RunRecord) -> bool,
    runs: Seq<RunRecord>,
)
    requires
        registry.wf(),
        gathered(
            registry.records.spec_entries(),
            pick,
            registry.records.spec_entries().len() as int,
            runs,
        ),
    ensures
        selected(registry@, pick, runs),
{
    let entries = registry.records.spec_entries();
    let table = registry@;
    registry.records.entries_are_the_map();
    assert forall|i: int| 0 <= i < runs.len() implies table.records.dom().contains(
        (#[trigger] runs[i]).run_id@,
    ) && table.records[runs[i].run_id@] == runs[i] && pick(runs[i]) by {
        let k = choose|k: int| 0 <= k < entries.len() && (#[trigger] entries[k]).1 == runs[i];
        assert(table.records.dom().contains(entries[k].0@));
        assert(entries[k].0@ == runs[i].run_id@);
    }
    assert forall|run: Seq<char>| #[trigger]
        table.records.dom().contains(run) && pick(table.records[run]) implies runs.contains(
        table.records[run],
    ) by {
        let k = choose|k: int| key_at(entries, run, k);
        assert(entries[k].1 == table.records[run]);
    }
}

/// The first entries have a gathering.
proof fn gatherings_exist(
    registry: RunRegistry,
    pick: spec_fn(RunRecord) -> bool,
    upto: int,
) -> (runs: Seq<RunRecord>)
    requires
        registry.wf(),
        0 <= upto <= registry.records.spec_entries().len(),
    ensures
        gathered(registry.records.spec_entries(), pick, upto, runs),
    decreases upto,
{
    let entries = registry.records.spec_entries();
    if upto == 0 {
        Seq::empty()
    } else {
        let rest = gatherings_exist(registry, pick, upto - 1);
        gather_one(registry.records, pick, upto - 1, rest);
        if pick(entries[upto - 1].1) {
            rest.push(entries[upto - 1].1)
        } else {
            rest
        }
    }
}

/// Every predicate selects a list of the runs in flight.
pub proof fn selections_exist(registry: RunRegistry, pick: spec_fn(RunRecord) -> bool) -> (runs: Seq<
    RunRecord,
>)
    requires
        registry.wf(),
    ensures
        selected(registry@, pick, runs),
{
    let runs = gatherings_exist(
        registry,
        pick,
        registry.records.spec_entries().len() as int,
    );
    gathered_is_selected(registry, pick, runs);
    runs
}

// What the table of runs promises.

/// A run is marked as started once, with the conversation that it started in; nothing else of it
/// and no other run changes.
pub proof fn starts_are_marked_once(
    registry: &mut RunRegistry,
    run_id: &str,
    conversation: String,
    result: bool,
    other: Seq<char>,
)
    requires
        call_ensures(RunRegistry::mark_started, (registry, run_id, conversation), result),
    ensures
        result <==> old(registry)@.records.dom().contains(run_id@) && !old(registry)@.records[run_id@].turn_started,
        result ==> final(registry)@.records[run_id@].turn_started && final(registry)@.records[run_id@].provider_thread_id == Some(conversation),
        (old(registry)@.records.dom().contains(run_id@) && !old(registry)@.records[run_id@].turn_started) ==> final(registry)@.records[run_id@].run_id == old(registry)@.records[run_id@].run_id,
        (old(registry)@.records.dom().contains(run_id@) && !old(registry)@.records[run_id@].turn_started) ==> final(registry)@.records[run_id@].thread_id == old(registry)@.records[run_id@].thread_id,
        (old(registry)@.records.dom().contains(run_id@) && !old(registry)@.records[run_id@].turn_started) ==> final(registry)@.records[run_id@].project_id == old(registry)@.records[run_id@].project_id,
        (old(registry)@.records.dom().contains(run_id@) && !old(registry)@.records[run_id@].turn_started) ==> final(registry)@.records[run_id@].host_id == old(registry)@.records[run_id@].host_id,
        (old(registry)@.records.dom().contains(run_id@) && !old(registry)@.records[run_id@].turn_started) ==> final(registry)@.records[run_id@].cwd == old(registry)@.records[run_id@].cwd,
        (old(registry)@.records.dom().contains(run_id@) && !old(registry)@.records[run_id@].turn_started) ==> final(registry)@.records[run_id@].started_at_ms == old(registry)@.records[run_id@].started_at_ms,
        (old(registry)@.records.dom().contains(run_id@) && !old(registry)@.records[run_id@].turn_started) ==> final(registry)@.records[run_id@].deadline_ms == old(registry)@.records[run_id@].deadline_ms,
        (old(registry)@.records.dom().contains(run_id@) && !old(registry)@.records[run_id@].turn_started) ==> final(registry)@.records[run_id@].provider_error_reported == old(registry)@.records[run_id@].provider_error_reported,
        (old(registry)@.records.dom().contains(run_id@) && !old(registry)@.records[run_id@].turn_started) ==> final(registry)@.records[run_id@].failure_reason == old(registry)@.records[run_id@].failure_reason,
        (old(registry)@.records.dom().contains(run_id@) && !old(registry)@.records[run_id@].turn_started) ==> final(registry)@.records[run_id@].terminal_published == old(registry)@.records[run_id@].terminal_published,
        (old(registry)@.records.dom().contains(run_id@) && !old(registry)@.records[run_id@].turn_started) ==> final(registry)@.records[run_id@].terminal_outcome == old(registry)@.records[run_id@].terminal_outcome,
        (old(registry)@.records.dom().contains(run_id@) && !old(registry)@.records[run_id@].turn_started) ==> final(registry)@.records[run_id@].pending_status_event == old(registry)@.records[run_id@].pending_status_event,
        final(registry)@.records.dom() == old(registry)@.records.dom(),
        final(registry)@.claims == old(registry)@.claims,
        other != run_id@ && old(registry)@.records.dom().contains(other) ==> final(registry)@.records[other] == old(registry)@.records[other],
        !((old(registry)@.records.dom().contains(run_id@) && !old(registry)@.records[run_id@].turn_started)) ==> final(registry)@ == old(registry)@,
{
    assert(final(registry)@.records.dom() =~= old(registry)@.records.dom());
}

/// That a provider's error was published is kept with its run, and nothing else changes.
pub proof fn errors_are_marked(
    registry: &mut RunRegistry,
    run_id: &str,
    other: Seq<char>,
)
    requires
        call_ensures(RunRegistry::mark_provider_error, (registry, run_id), ()),
    ensures
        old(registry)@.records.dom().contains(run_id@) ==> final(registry)@.records[run_id@].provider_error_reported,
        old(registry)@.records.dom().contains(run_id@) ==> final(registry)@.records[run_id@].run_id == old(registry)@.records[run_id@].run_id,
        old(registry)@.records.dom().contains(run_id@) ==> final(registry)@.records[run_id@].thread_id == old(registry)@.records[run_id@].thread_id,
        old(registry)@.records.dom().contains(run_id@) ==> final(registry)@.records[run_id@].project_id == old(registry)@.records[run_id@].project_id,
        old(registry)@.records.dom().contains(run_id@) ==> final(registry)@.records[run_id@].host_id == old(registry)@.records[run_id@].host_id,
        old(registry)@.records.dom().contains(run_id@) ==> final(registry)@.records[run_id@].cwd == old(registry)@.records[run_id@].cwd,
        old(registry)@.records.dom().contains(run_id@) ==> final(registry)@.records[run_id@].started_at_ms == old(registry)@.records[run_id@].started_at_ms,
        old(registry)@.records.dom().contains(run_id@) ==> final(registry)@.records[run_id@].deadline_ms == old(registry)@.records[run_id@].deadline_ms,
        old(registry)@.records.dom().contains(run_id@) ==> final(registry)@.records[run_id@].turn_started == old(registry)@.records[run_id@].turn_started,
        old(registry)@.records.dom().contains(run_id@) ==> final(registry)@.records[run_id@].provider_thread_id == old(registry)@.records[run_id@].provider_thread_id,
        old(registry)@.records.dom().contains(run_id@) ==> final(registry)@.records[run_id@].failure_reason == old(registry)@.records[run_id@].failure_reason,
        old(registry)@.records.dom().contains(run_id@) ==> final(registry)@.records[run_id@].terminal_published == old(registry)@.records[run_id@].terminal_published,
        old(registry)@.records.dom().contains(run_id@) ==> final(registry)@.records[run_id@].terminal_outcome == old(registry)@.records[run_id@].terminal_outcome,
        old(registry)@.records.dom().contains(run_id@) ==> final(registry)@.records[run_id@].pending_status_event == old(registry)@.records[run_id@].pending_status_event,
        final(registry)@.records.dom() == old(registry)@.records.dom(),
        final(registry)@.claims == old(registry)@.claims,
        other != run_id@ && old(registry)@.records.dom().contains(other) ==> final(registry)@.records[other] == old(registry)@.records[other],
        !(old(registry)@.records.dom().contains(run_id@)) ==> final(registry)@ == old(registry)@,
{
    assert(final(registry)@.records.dom() =~= old(registry)@.records.dom());
}

/// That a run's end was published is kept with its outcome, and nothing else changes.
pub proof fn ends_are_marked(
    registry: &mut RunRegistry,
    run_id: &str,
    outcome: RunOutcome,
    result: bool,
    other: Seq<char>,
)
    requires
        call_ensures(RunRegistry::mark_terminal, (registry, run_id, outcome), result),
    ensures
        result <==> old(registry)@.records.dom().contains(run_id@),
        result ==> final(registry)@.records[run_id@].terminal_published && final(registry)@.records[run_id@].terminal_outcome == Some(outcome),
        old(registry)@.records.dom().contains(run_id@) ==> final(registry)@.records[run_id@].run_id == old(registry)@.records[run_id@].run_id,
        old(registry)@.records.dom().contains(run_id@) ==> final(registry)@.records[run_id@].thread_id == old(registry)@.records[run_id@].thread_id,
        old(registry)@.records.dom().contains(run_id@) ==> final(registry)@.records[run_id@].project_id == old(registry)@.records[run_id@].project_id,
        old(registry)@.records.dom().contains(run_id@) ==> final(registry)@.records[run_id@].host_id == old(registry)@.records[run_id@].host_id,
        old(registry)@.records.dom().contains(run_id@) ==> final(registry)@.records[run_id@].cwd == old(registry)@.records[run_id@].cwd,
        old(registry)@.records.dom().contains(run_id@) ==> final(registry)@.records[run_id@].started_at_ms == old(registry)@.records[run_id@].started_at_ms,
        old(registry)@.records.dom().contains(run_id@) ==> final(registry)@.records[run_id@].deadline_ms == old(registry)@.records[run_id@].deadline_ms,
        old(registry)@.records.dom().contains(run_id@) ==> final(registry)@.records[run_id@].turn_started == old(registry)@.records[run_id@].turn_started,
        old(registry)@.records.dom().contains(run_id@) ==> final(registry)@.records[run_id@].provider_thread_id == old(registry)@.records[run_id@].provider_thread_id,
        old(registry)@.records.dom().contains(run_id@) ==> final(registry)@.records[run_id@].provider_error_reported == old(registry)@.records[run_id@].provider_error_reported,
        old(registry)@.records.dom().contains(run_id@) ==> final(registry)@.records[run_id@].failure_reason == old(registry)@.records[run_id@].failure_reason,
        old(registry)@.records.dom().contains(run_id@) ==> final(registry)@.records[run_id@].pending_status_event == old(registry)@.records[run_id@].pending_status_event,
        final(registry)@.records.dom() == old(registry)@.records.dom(),
        final(registry)@.claims == old(registry)@.claims,
        other != run_id@ && old(registry)@.records.dom().contains(other) ==> final(registry)@.records[other] == old(registry)@.records[other],
        !(old(registry)@.records.dom().contains(run_id@)) ==> final(registry)@ == old(registry)@,
{
    assert(final(registry)@.records.dom() =~= old(registry)@.records.dom());
}

/// A change of status that is still to be published is kept with its run, and nothing else changes.
pub proof fn owed_changes_are_kept(
    registry: &mut RunRegistry,
    run_id: &str,
    event: PendingStatusChange,
    result: bool,
    other: Seq<char>,
)
    requires
        call_ensures(RunRegistry::set_pending_status_event, (registry, run_id, event), result),
    ensures
        result <==> old(registry)@.records.dom().contains(run_id@),
        result ==> final(registry)@.records[run_id@].pending_status_event == Some(event),
        old(registry)@.records.dom().contains(run_id@) ==> final(registry)@.records[run_id@].run_id == old(registry)@.records[run_id@].run_id,
        old(registry)@.records.dom().contains(run_id@) ==> final(registry)@.records[run_id@].thread_id == old(registry)@.records[run_id@].thread_id,
        old(registry)@.records.dom().contains(run_id@) ==> final(registry)@.records[run_id@].project_id == old(registry)@.records[run_id@].project_id,
        old(registry)@.records.dom().contains(run_id@) ==> final(registry)@.records[run_id@].host_id == old(registry)@.records[run_id@].host_id,
        old(registry)@.records.dom().contains(run_id@) ==> final(registry)@.records[run_id@].cwd == old(registry)@.records[run_id@].cwd,
        old(registry)@.records.dom().contains(run_id@) ==> final(registry)@.records[run_id@].started_at_ms == old(registry)@.records[run_id@].started_at_ms,
        old(registry)@.records.dom().contains(run_id@) ==> final(registry)@.records[run_id@].deadline_ms == old(registry)@.records[run_id@].deadline_ms,
        old(registry)@.records.dom().contains(run_id@) ==> final(registry)@.records[run_id@].turn_started == old(registry)@.records[run_id@].turn_started,
        old(registry)@.records.dom().contains(run_id@) ==> final(registry)@.records[run_id@].provider_thread_id == old(registry)@.records[run_id@].provider_thread_id,
        old(registry)@.records.dom().contains(run_id@) ==> final(registry)@.records[run_id@].provider_error_reported == old(registry)@.records[run_id@].provider_error_reported,
        old(registry)@.records.dom().contains(run_id@) ==> final(registry)@.records[run_id@].failure_reason == old(registry)@.records[run_id@].failure_reason,
        old(registry)@.records.dom().contains(run_id@) ==> final(registry)@.records[run_id@].terminal_published == old(registry)@.records[run_id@].terminal_published,
        old(registry)@.records.dom().contains(run_id@) ==> final(registry)@.records[run_id@].terminal_outcome == old(registry)@.records[run_id@].terminal_outcome,
        final(registry)@.records.dom() == old(registry)@.records.dom(),
        final(registry)@.claims == old(registry)@.claims,
        other != run_id@ && old(registry)@.records.dom().contains(other) ==> final(registry)@.records[other] == old(registry)@.records[other],
        !(old(registry)@.records.dom().contains(run_id@)) ==> final(registry)@ == old(registry)@,
{
    assert(final(registry)@.records.dom() =~= old(registry)@.records.dom());
}

/// A change of status that was published is no longer kept, and nothing else changes.
pub proof fn paid_changes_are_cleared(
    registry: &mut RunRegistry,
    run_id: &str,
    result: bool,
    other: Seq<char>,
)
    requires
        call_ensures(RunRegistry::clear_pending_status_event, (registry, run_id), result),
    ensures
        result <==> old(registry)@.records.dom().contains(run_id@),
        result ==> final(registry)@.records[run_id@].pending_status_event is None,
        old(registry)@.records.dom().contains(run_id@) ==> final(registry)@.records[run_id@].run_id == old(registry)@.records[run_id@].run_id,
        old(registry)@.records.dom().contains(run_id@) ==> final(registry)@.records[run_id@].thread_id == old(registry)@.records[run_id@].thread_id,
        old(registry)@.records.dom().contains(run_id@) ==> final(registry)@.records[run_id@].project_id == old(registry)@.records[run_id@].project_id,
        old(registry)@.records.dom().contains(run_id@) ==> final(registry)@.records[run_id@].host_id == old(registry)@.records[run_id@].host_id,
        old(registry)@.records.dom().contains(run_id@) ==> final(registry)@.records[run_id@].cwd == old(registry)@.records[run_id@].cwd,
        old(registry)@.records.dom().contains(run_id@) ==> final(registry)@.records[run_id@].started_at_ms == old(registry)@.records[run_id@].started_at_ms,
        old(registry)@.records.dom().contains(run_id@) ==> final(registry)@.records[run_id@].deadline_ms == old(registry)@.records[run_id@].deadline_ms,
        old(registry)@.records.dom().contains(run_id@) ==> final(registry)@.records[run_id@].turn_started == old(registry)@.records[run_id@].turn_started,
        old(registry)@.records.dom().contains(run_id@) ==> final(registry)@.records[run_id@].provider_thread_id == old(registry)@.records[run_id@].provider_thread_id,
        old(registry)@.records.dom().contains(run_id@) ==> final(registry)@.records[run_id@].provider_error_reported == old(registry)@.records[run_id@].provider_error_reported,
        old(registry)@.records.dom().contains(run_id@) ==> final(registry)@.records[run_id@].failure_reason == old(registry)@.records[run_id@].failure_reason,
        old(registry)@.records.dom().contains(run_id@) ==> final(registry)@.records[run_id@].terminal_published == old(registry)@.records[run_id@].terminal_published,
        old(registry)@.records.dom().contains(run_id@) ==> final(registry)@.records[run_id@].terminal_outcome == old(registry)@.records[run_id@].terminal_outcome,
        final(registry)@.records.dom() == old(registry)@.records.dom(),
        final(registry)@.claims == old(registry)@.claims,
        other != run_id@ && old(registry)@.records.dom().contains(other) ==> final(registry)@.records[other] == old(registry)@.records[other],
        !(old(registry)@.records.dom().contains(run_id@)) ==> final(registry)@ == old(registry)@,
{
    assert(final(registry)@.records.dom() =~= old(registry)@.records.dom());
}

/// An inserted run is in flight as it was given and holds its thread; what was in flight under its
/// id is handed back and lets go of its thread. No other run changes.
pub proof fn inserted_runs_hold_their_thread(
    registry: &mut RunRegistry,
    record: RunRecord,
    previous: Option<RunRecord>,
    other: Seq<char>,
)
    requires
        call_ensures(RunRegistry::insert, (registry, record), previous),
    ensures
        final(registry)@.records.dom().contains(record.run_id@),
        final(registry)@.records[record.run_id@] == record,
        final(registry)@.claims.dom().contains(record.thread_id@),
        final(registry)@.claims[record.thread_id@] == record.run_id@,
        previous is Some <==> old(registry)@.records.dom().contains(record.run_id@),
        previous is Some ==> old(registry)@.records[record.run_id@] == previous->0,
        other != record.run_id@ ==> (final(registry)@.records.dom().contains(other) <==> old(registry)@.records.dom().contains(other)),
        other != record.run_id@ && old(registry)@.records.dom().contains(other) ==> final(registry)@.records[other] == old(registry)@.records[other],
        (previous is Some && previous->0.thread_id@ != record.thread_id@ && old(registry)@.claims.dom().contains(previous->0.thread_id@) && old(registry)@.claims[previous->0.thread_id@] == record.run_id@) ==> !final(registry)@.claims.dom().contains(previous->0.thread_id@),
        (other != record.thread_id@ && (previous is None || previous->0.thread_id@ != other)) ==> (final(registry)@.claims.dom().contains(other) <==> old(registry)@.claims.dom().contains(other)),
{
}

/// A removed run is handed back, is no longer in flight and no longer holds its thread; no other
/// run changes, nor a thread that another holds.
pub proof fn removed_runs_let_go(
    registry: &mut RunRegistry,
    run_id: &str,
    removed: Option<RunRecord>,
    other: Seq<char>,
)
    requires
        call_ensures(RunRegistry::remove, (registry, run_id), removed),
    ensures
        removed is Some <==> old(registry)@.records.dom().contains(run_id@),
        removed is Some ==> old(registry)@.records[run_id@] == removed->0,
        !final(registry)@.records.dom().contains(run_id@),
        other != run_id@ ==> (final(registry)@.records.dom().contains(other) <==> old(registry)@.records.dom().contains(other)),
        other != run_id@ && old(registry)@.records.dom().contains(other) ==> final(registry)@.records[other] == old(registry)@.records[other],
        removed is Some ==> !(final(registry)@.claims.dom().contains(removed->0.thread_id@) && final(registry)@.claims[removed->0.thread_id@] == run_id@),
        (old(registry)@.claims.dom().contains(other) && old(registry)@.claims[other] != run_id@) ==> final(registry)@.claims.dom().contains(other) && final(registry)@.claims[other] == old(registry)@.claims[other],
        removed is None ==> final(registry)@ == old(registry)@,
{
}

/// A thread is claimed exactly where nothing holds it; otherwise the claim says what does, and
/// nothing changes.
pub proof fn threads_are_held_once(
    registry: &mut RunRegistry,
    thread_id: &str,
    run_id: String,
    answer: Result<(), String>,
    other: Seq<char>,
)
    requires
        call_ensures(RunRegistry::claim_thread, (registry, thread_id, run_id), answer),
    ensures
        answer is Ok <==> !old(registry)@.claims.dom().contains(thread_id@),
        answer is Ok ==> final(registry)@.claims.dom().contains(thread_id@) && final(registry)@.claims[thread_id@] == run_id@,
        answer matches Err(holder) ==> old(registry)@.claims[thread_id@] == holder@ && final(registry)@.claims == old(registry)@.claims,
        other != thread_id@ ==> (final(registry)@.claims.dom().contains(other) <==> old(registry)@.claims.dom().contains(other)),
        other != thread_id@ && old(registry)@.claims.dom().contains(other) ==> final(registry)@.claims[other] == old(registry)@.claims[other],
        final(registry)@.records == old(registry)@.records,
{
}

/// A thread is let go exactly where the run that lets go holds it, and no other thread is.
pub proof fn threads_are_let_go_by_their_holder(
    registry: &mut RunRegistry,
    thread_id: &str,
    run_id: &str,
    answer: bool,
    other: Seq<char>,
)
    requires
        call_ensures(RunRegistry::release_thread, (registry, thread_id, run_id), answer),
    ensures
        answer <==> old(registry)@.claims.dom().contains(thread_id@) && old(registry)@.claims[thread_id@] == run_id@,
        answer ==> !final(registry)@.claims.dom().contains(thread_id@),
        !answer ==> final(registry)@.claims == old(registry)@.claims,
        other != thread_id@ ==> (final(registry)@.claims.dom().contains(other) <==> old(registry)@.claims.dom().contains(other)),
        other != thread_id@ && old(registry)@.claims.dom().contains(other) ==> final(registry)@.claims[other] == old(registry)@.claims[other],
        final(registry)@.records == old(registry)@.records,
{
}

/// A run is found by its id exactly while it is in flight.
pub proof fn runs_are_found_by_their_id(
    registry: RunRegistry,
    run_id: &str,
    found: Option<RunRecord>,
)
    requires
        call_ensures(RunRegistry::get, (&registry, run_id), found),
    ensures
        found is Some <==> registry@.records.dom().contains(run_id@),
        found is Some ==> registry@.records[run_id@] == found->0 && found->0.run_id@ == run_id@,
{
}

/// The runs of a machine are those that it owns, each once, in the order of their ids.
pub proof fn machines_list_their_runs(
    registry: RunRegistry,
    host_id: &str,
    found: Vec<RunRecord>,
    run: Seq<char>,
)
    requires
        call_ensures(RunRegistry::for_host, (&registry, host_id), found),
    ensures
        (registry@.records.dom().contains(run) && registry@.records[run].host_id@ == host_id@) ==> found@.contains(registry@.records[run]),
        forall|i: int| 0 <= i < found@.len() ==> registry@.records.dom().contains((#[trigger] found@[i]).run_id@) && registry@.records[found@[i].run_id@] == found@[i] && found@[i].host_id@ == host_id@,
        forall|i: int, j: int| 0 <= i < j < found@.len() ==> precedes((#[trigger] found@[i]).run_id@, (#[trigger] found@[j]).run_id@),
{
}

/// All runs are those in flight, each once, in the order of their ids.
pub proof fn all_runs_are_listed(
    registry: RunRegistry,
    found: Vec<RunRecord>,
    run: Seq<char>,
)
    requires
        call_ensures(RunRegistry::all, (&registry,), found),
    ensures
        (registry@.records.dom().contains(run) && true) ==> found@.contains(registry@.records[run]),
        forall|i: int| 0 <= i < found@.len() ==> registry@.records.dom().contains((#[trigger] found@[i]).run_id@) && registry@.records[found@[i].run_id@] == found@[i] && true,
        forall|i: int, j: int| 0 <= i < j < found@.len() ==> precedes((#[trigger] found@[i]).run_id@, (#[trigger] found@[j]).run_id@),
{
}

/// The runs that are past their deadline are listed, each once, in the order of their ids.
pub proof fn late_runs_are_listed(
    registry: RunRegistry,
    now_ms: u64,
    found: Vec<RunRecord>,
    run: Seq<char>,
)
    requires
        call_ensures(RunRegistry::expired, (&registry, now_ms), found),
    ensures
        (registry@.records.dom().contains(run) && registry@.records[run].deadline_ms <= now_ms) ==> found@.contains(registry@.records[run]),
        forall|i: int| 0 <= i < found@.len() ==> registry@.records.dom().contains((#[trigger] found@[i]).run_id@) && registry@.records[found@[i].run_id@] == found@[i] && found@[i].deadline_ms <= now_ms,
        forall|i: int, j: int| 0 <= i < j < found@.len() ==> precedes((#[trigger] found@[i]).run_id@, (#[trigger] found@[j]).run_id@),
{
}

/// The runs of a machine that have not ended are listed, each once, in the order of their ids.
pub proof fn stranded_runs_are_listed(
    registry: RunRegistry,
    host_id: &str,
    found: Vec<RunRecord>,
    run: Seq<char>,
)
    requires
        call_ensures(RunRegistry::stranded, (&registry, host_id), found),
    ensures
        (registry@.records.dom().contains(run) && registry@.records[run].host_id@ == host_id@ && !registry@.records[run].terminal_published) ==> found@.contains(registry@.records[run]),
        forall|i: int| 0 <= i < found@.len() ==> registry@.records.dom().contains((#[trigger] found@[i]).run_id@) && registry@.records[found@[i].run_id@] == found@[i] && found@[i].host_id@ == host_id@ && !found@[i].terminal_published,
        forall|i: int, j: int| 0 <= i < j < found@.len() ==> precedes((#[trigger] found@[i]).run_id@, (#[trigger] found@[j]).run_id@),
{
}

/// The runs whose end was published are listed, each once, in the order of their ids.
pub proof fn ended_runs_are_listed(
    registry: RunRegistry,
    found: Vec<RunRecord>,
    run: Seq<char>,
)
    requires
        call_ensures(RunRegistry::unsettled, (&registry,), found),
    ensures
        (registry@.records.dom().contains(run) && registry@.records[run].terminal_published) ==> found@.contains(registry@.records[run]),
        forall|i: int| 0 <= i < found@.len() ==> registry@.records.dom().contains((#[trigger] found@[i]).run_id@) && registry@.records[found@[i].run_id@] == found@[i] && found@[i].terminal_published,
        forall|i: int, j: int| 0 <= i < j < found@.len() ==> precedes((#[trigger] found@[i]).run_id@, (#[trigger] found@[j]).run_id@),
{
}

/// The runs that are past their deadline and have not ended are listed, each once, in the order of
/// their ids.
pub proof fn overdue_runs_are_listed(
    registry: RunRegistry,
    now_ms: u64,
    found: Vec<RunRecord>,
    run: Seq<char>,
)
    requires
        call_ensures(RunRegistry::overdue, (&registry, now_ms), found),
    ensures
        (registry@.records.dom().contains(run) && registry@.records[run].deadline_ms <= now_ms && !registry@.records[run].terminal_published) ==> found@.contains(registry@.records[run]),
        forall|i: int| 0 <= i < found@.len() ==> registry@.records.dom().contains((#[trigger] found@[i]).run_id@) && registry@.records[found@[i].run_id@] == found@[i] && found@[i].deadline_ms <= now_ms && !found@[i].terminal_published,
        forall|i: int, j: int| 0 <= i < j < found@.len() ==> precedes((#[trigger] found@[i]).run_id@, (#[trigger] found@[j]).run_id@),
{
}

/// A thread's run is found exactly where one is in flight for it.
pub proof fn threads_find_their_run(
    registry: RunRegistry,
    thread_id: &str,
    found: Option<RunRecord>,
    run: Seq<char>,
)
    requires
        call_ensures(RunRegistry::for_thread, (&registry, thread_id), found),
    ensures
        found is Some ==> registry@.records.dom().contains(found->0.run_id@) && registry@.records[found->0.run_id@] == found->0 && found->0.thread_id@ == thread_id@,
        (registry@.records.dom().contains(run) && registry@.records[run].thread_id@ == thread_id@) ==> found is Some && (run == found->0.run_id@ || precedes(found->0.run_id@, run)),
{
}

/// The count of runs is how many are in flight.
pub proof fn runs_are_counted(
    registry: RunRegistry,
    count: usize,
    none: bool,
)
    requires
        call_ensures(RunRegistry::len, (&registry,), count),
        call_ensures(RunRegistry::is_empty, (&registry,), none),
    ensures
        count == registry@.records.dom().len(),
        none <==> count == 0,
{
    assert(registry@.records.dom().finite());
    if none {
        assert(registry@.records.dom() =~= Set::<Seq<char>>::empty());
    }
    if count == 0 {
        assert(registry@.records.dom() =~= Set::<Seq<char>>::empty()) by {
            registry@.records.dom().lemma_len0_is_empty();
        }
        assert(registry@.records =~= Map::<Seq<char>, RunRecord>::empty());
    }
}

/// What was kept is in flight again: the last record of each id.
pub proof fn restored_runs_are_in_flight(
    registry: &mut RunRegistry,
    records: Vec<RunRecord>,
    i: int,
)
    requires
        call_ensures(RunRegistry::restore, (registry, records), ()),
        0 <= i < records@.len(),
        forall|j: int| i < j < records@.len() ==> (#[trigger] records@[j]).run_id@ != records@[i].run_id@,
    ensures
        final(registry)@.records.dom().contains(records@[i].run_id@),
        final(registry)@.records[records@[i].run_id@] == records@[i],
{
    last_records_stay(old(registry)@, records@, i);
}

/// The last record of an id stays.
proof fn last_records_stay(table: RunTable, records: Seq<RunRecord>, i: int)
    requires
        0 <= i < records.len(),
        forall|j: int| i < j < records.len() ==> (#[trigger] records[j]).run_id@ != records[i].run_id@,
    ensures
        restored(table, records).records.dom().contains(records[i].run_id@),
        restored(table, records).records[records[i].run_id@] == records[i],
    decreases records.len(),
{
    let n = records.len() - 1;
    if i < n {
        let rest = records.drop_last();
        assert(records[n] == records.last());
        assert forall|j: int| i < j < rest.len() implies (#[trigger] rest[j]).run_id@
            != rest[i].run_id@ by {
            assert(rest[j] == records[j]);
        }
        last_records_stay(table, rest, i);
    }
}

/// The event of a change of status is the change of that thread from the one status to the other at
/// that time, and only that event is taken for it.
pub proof fn owed_changes_are_their_event(
    change: PendingStatusChange,
    event: DomainEvent,
    answer: bool,
    made: DomainEvent,
)
    requires
        call_ensures(PendingStatusChange::matches_event, (&change, &event), answer),
        call_ensures(PendingStatusChange::event, (&change,), made),
    ensures
        answer <==> (event matches DomainEvent::ThreadStatusChanged { thread_id, project_id, from, to, at_ms } && thread_id@ == change.thread_id@ && project_id@ == change.project_id@ && from == change.from && to == change.to && at_ms == change.at_ms),
        made matches DomainEvent::ThreadStatusChanged { thread_id, project_id, from, to, at_ms } && thread_id@ == change.thread_id@ && project_id@ == change.project_id@ && from == change.from && to == change.to && at_ms == change.at_ms,
{
}

// What a snapshot leaves alone.

/// A run that no record of a snapshot is of stays as it was when the snapshot is put back.
pub proof fn restoring_leaves_the_others(registry: &mut RunRegistry, records: Vec<RunRecord>, run: Seq<char>)
    requires
        call_ensures(RunRegistry::restore, (registry, records), ()),
        forall|i: int| 0 <= i < records@.len() ==> (#[trigger] records@[i]).run_id@ != run,
    ensures
        final(registry)@.records.dom().contains(run) <==> old(registry)@.records.dom().contains(run),
        old(registry)@.records.dom().contains(run) ==> final(registry)@.records[run] == old(
            registry,
        )@.records[run],
{
    others_stay(old(registry)@, records@, run);
}

/// What is put in under other ids leaves a run as it was.
proof fn others_stay(table: RunTable, records: Seq<RunRecord>, run: Seq<char>)
    requires
        forall|i: int| 0 <= i < records.len() ==> (#[trigger] records[i]).run_id@ != run,
    ensures
        restored(table, records).records.dom().contains(run) <==> table.records.dom().contains(run),
        table.records.dom().contains(run) ==> restored(table, records).records[run]
            == table.records[run],
    decreases records.len(),
{
    if records.len() > 0 {
        let rest = records.drop_last();
        assert(records[records.len() - 1] == records.last());
        assert forall|i: int| 0 <= i < rest.len() implies (#[trigger] rest[i]).run_id@ != run by {
            assert(rest[i] == records[i]);
        }
        others_stay(table, rest, run);
    }
}

} // verus!
