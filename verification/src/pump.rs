//! How a shard's reader moves through the log.

use vstd::prelude::*;

use crate::hub_actor::DeliveryOutcome;

verus! {

/// How a shard is read.
#[derive(Clone, Copy, Debug, PartialEq, Eq, Structural)]
pub struct PumpConfig {
    /// The most records that a pass forwards.
    pub batch_limit: usize,
    /// How long a reader waits for a wake-up before it looks again, in milliseconds.
    pub safety_tick_ms: u64,
}

impl Default for PumpConfig {
    fn default() -> (result: PumpConfig)
        ensures
            result == (PumpConfig { batch_limit: 256, safety_tick_ms: 1_000 }),
    {
        PumpConfig { batch_limit: 256, safety_tick_ms: 1_000 }
    }
}

/// One pass of a reader over a shard.
pub struct ShardPass {
    cursor: Option<String>,
    limit: usize,
    forwarded: usize,
    stopped: bool,
}

/// A pass, as mathematics.
pub ghost struct PassView {
    /// The last record that was passed.
    pub cursor: Option<String>,
    /// The most records that it forwards.
    pub limit: nat,
    /// How many it forwarded.
    pub forwarded: nat,
    /// Whether the hub has stopped.
    pub stopped: bool,
}

impl View for ShardPass {
    type V = PassView;

    closed spec fn view(&self) -> PassView {
        PassView {
            cursor: self.cursor,
            limit: self.limit as nat,
            forwarded: self.forwarded as nat,
            stopped: self.stopped,
        }
    }
}

/// A pass after a record: the cursor moves past it whatever became of it, since whoever missed it
/// can replay it.
pub open spec fn after_record(pass: PassView, event_id: String, outcome: DeliveryOutcome) -> PassView {
    if outcome is Stopped {
        PassView { cursor: Some(event_id), stopped: true, ..pass }
    } else {
        PassView { cursor: Some(event_id), forwarded: pass.forwarded + 1, ..pass }
    }
}

impl ShardPass {
    /// A pass from a cursor on.
    pub fn new(cursor: Option<String>, batch_limit: usize) -> (result: ShardPass)
        ensures
            result@ == (PassView {
                cursor,
                limit: if batch_limit == 0 {
                    1
                } else {
                    batch_limit as nat
                },
                forwarded: 0,
                stopped: false,
            }),
    {
        let limit: usize = if batch_limit == 0 {
            1
        } else {
            batch_limit
        };
        ShardPass { cursor, limit, forwarded: 0, stopped: false }
    }

    /// The most records to read.
    pub fn limit(&self) -> (result: usize)
        ensures
            result == self@.limit,
    {
        self.limit
    }

    /// Whether the hub takes no more records.
    pub fn is_stopped(&self) -> (result: bool)
        ensures
            result == self@.stopped,
    {
        self.stopped
    }

    /// Moves past a record that was handed to the hub.
    pub fn record(&mut self, event_id: String, outcome: DeliveryOutcome)
        requires
            old(self)@.forwarded < usize::MAX,
        ensures
            final(self)@ == after_record(old(self)@, event_id, outcome),
    {
        self.cursor = Some(event_id);
        match outcome {
            DeliveryOutcome::Queued => {
                self.forwarded = self.forwarded + 1;
            },
            DeliveryOutcome::Backpressured => {
                self.forwarded = self.forwarded + 1;
            },
            DeliveryOutcome::Stopped => {
                self.stopped = true;
            },
        }
    }

    /// Where the next pass begins, and whether it is due at once: a full batch may have left
    /// records behind.
    pub fn finish(self) -> (result: (Option<String>, bool))
        ensures
            result.0 == self@.cursor,
            result.1 == (!self@.stopped && self@.forwarded >= self@.limit),
    {
        let again: bool = !self.stopped && self.forwarded >= self.limit;
        (self.cursor, again)
    }
}

/// A pass over records, given what became of each: it ends at the first that the hub no longer
/// took.
pub open spec fn passed(pass: PassView, records: Seq<(String, DeliveryOutcome)>) -> PassView
    decreases records.len(),
{
    if records.len() == 0 || pass.stopped {
        pass
    } else {
        passed(after_record(pass, records[0].0, records[0].1), records.drop_first())
    }
}

/// A reader that a full queue slows down loses no place: as long as the hub runs, a pass ends
/// behind its last record and has counted them all.
pub proof fn passes_reach_their_last_record(pass: PassView, records: Seq<(String, DeliveryOutcome)>)
    requires
        !pass.stopped,
        records.len() > 0,
        forall|i: int| 0 <= i < records.len() ==> !((#[trigger] records[i]).1 is Stopped),
    ensures
        passed(pass, records).cursor == Some(records.last().0),
        passed(pass, records).forwarded == pass.forwarded + records.len(),
        !passed(pass, records).stopped,
    decreases records.len(),
{
    let next = after_record(pass, records[0].0, records[0].1);
    let rest = records.drop_first();
    if rest.len() > 0 {
        assert forall|i: int| 0 <= i < rest.len() implies !((#[trigger] rest[i]).1 is Stopped) by {
            assert(rest[i] == records[i + 1]);
        }
        passes_reach_their_last_record(next, rest);
        assert(rest.last() == records.last());
    } else {
        assert(passed(next, rest) == next);
    }
}

// What a pass promises.

/// A pass begins at its cursor with room for at least one record. Each record moves the cursor and
/// counts, but for the one at which the pass stopped.
pub proof fn passes_count_what_they_forward(
    cursor: Option<String>,
    batch_limit: usize,
    fresh: ShardPass,
    pass: &mut ShardPass,
    event_id: String,
    outcome: DeliveryOutcome,
)
    requires
        call_ensures(ShardPass::new, (cursor, batch_limit), fresh),
        call_ensures(ShardPass::record, (pass, event_id, outcome), ()),
    ensures
        fresh@.cursor == cursor,
        fresh@.forwarded == 0,
        !fresh@.stopped,
        batch_limit == 0 ==> fresh@.limit == 1,
        batch_limit > 0 ==> fresh@.limit == batch_limit,
        final(pass)@.cursor == Some(event_id),
        final(pass)@.limit == old(pass)@.limit,
        outcome is Stopped ==> final(pass)@.stopped && final(pass)@.forwarded == old(pass)@.forwarded,
        !(outcome is Stopped) ==> final(pass)@.stopped == old(pass)@.stopped && final(pass)@.forwarded == old(pass)@.forwarded + 1,
{
}

/// A pass ends at its cursor, and there may be more exactly where it was not stopped and is full.
pub proof fn full_passes_go_on(
    pass: ShardPass,
    done: (Option<String>, bool),
    limit: usize,
    stopped: bool,
)
    requires
        call_ensures(ShardPass::finish, (pass,), done),
        call_ensures(ShardPass::limit, (&pass,), limit),
        call_ensures(ShardPass::is_stopped, (&pass,), stopped),
    ensures
        done.0 == pass@.cursor,
        done.1 <==> !pass@.stopped && pass@.forwarded >= pass@.limit,
        limit == pass@.limit,
        stopped == pass@.stopped,
{
}

} // verus!
