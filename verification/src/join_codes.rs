//! One-time codes under which a machine enrols.
//!
//! A code lives only in the process that issued it, and only for a while.

use vstd::prelude::*;

use crate::strmap::{key_at, StrMap};
use crate::text::joined;

verus! {

/// How long a code is good for, in milliseconds.
pub const JOIN_CODE_TTL_MS: u64 = 600_000;

/// A machine that may yet enrol.
#[derive(Debug, PartialEq, Eq)]
pub struct PendingJoin {
    /// The identity that is reserved for it.
    pub host_id: String,
    /// When its code is no longer good.
    pub expires_at_ms: u64,
}

/// The codes that were issued and not used.
pub struct JoinCodeRegistry {
    pending: StrMap<PendingJoin>,
}

impl View for JoinCodeRegistry {
    type V = Map<Seq<char>, PendingJoin>;

    closed spec fn view(&self) -> Map<Seq<char>, PendingJoin> {
        self.pending@
    }
}

/// The codes that are still good at a time.
pub open spec fn live(pending: Map<Seq<char>, PendingJoin>, now_ms: u64) -> Map<
    Seq<char>,
    PendingJoin,
> {
    Map::new(
        |code: Seq<char>| pending.dom().contains(code) && pending[code].expires_at_ms > now_ms,
        |code: Seq<char>| pending[code],
    )
}

/// A time that far ahead, or the last there is.
pub open spec fn after(now_ms: u64, ms: u64) -> u64 {
    if now_ms + ms > u64::MAX {
        u64::MAX
    } else {
        (now_ms + ms) as u64
    }
}

impl JoinCodeRegistry {
    /// The codes are held in order.
    pub closed spec fn wf(&self) -> bool {
        self.pending.wf()
    }

    /// No codes.
    pub fn new() -> (result: JoinCodeRegistry)
        ensures
            result.wf(),
            result@ == Map::<Seq<char>, PendingJoin>::empty(),
    {
        JoinCodeRegistry { pending: StrMap::new() }
    }

    /// Issues a code under a token that was minted for it, and reserves the identity that it
    /// stands for. Codes that are no longer good are dropped first.
    pub fn issue(&mut self, token: &str, host_id: String, now_ms: u64) -> (result: (
        String,
        String,
        u64,
    ))
        requires
            old(self).wf(),
        ensures
            final(self).wf(),
            result.0@ == "loom-"@ + token@,
            result.1 == host_id,
            result.2 == after(now_ms, JOIN_CODE_TTL_MS),
            final(self)@ == live(old(self)@, now_ms).insert(
                result.0@,
                (PendingJoin { host_id, expires_at_ms: result.2 }),
            ),
    {
        self.purge_expired(now_ms);
        let code: String = joined("loom-", token);
        let expires_at_ms: u64 = now_ms.saturating_add(JOIN_CODE_TTL_MS);
        self.pending.insert(code.clone(), PendingJoin { host_id: host_id.clone(), expires_at_ms });
        (code, host_id, expires_at_ms)
    }

    /// Drops the codes that are no longer good, and says how many they were.
    pub fn purge_expired(&mut self, now_ms: u64) -> (result: usize)
        requires
            old(self).wf(),
        ensures
            final(self).wf(),
            final(self)@ == live(old(self)@, now_ms),
            old(self)@.dom().finite(),
            final(self)@.dom().finite(),
            result == old(self)@.dom().len() - final(self)@.dom().len(),
    {
        let ghost before = self.pending@;
        let ghost entries = self.pending.spec_entries();
        let count: usize = self.pending.len();
        let mut kept: StrMap<PendingJoin> = StrMap::new();
        for i in 0..count
            invariant
                self.pending.wf(),
                entries == self.pending.spec_entries(),
                before == self.pending@,
                count == entries.len(),
                kept.wf(),
                forall|code: Seq<char>|
                    #![trigger kept@.dom().contains(code)]
                    kept@.dom().contains(code) == (exists|j: int|
                        j < i && #[trigger] key_at(entries, code, j) && entries[j].1.expires_at_ms
                            > now_ms),
                forall|code: Seq<char>|
                    #![trigger kept@[code]]
                    kept@.dom().contains(code) ==> before.dom().contains(code) && kept@[code]
                        == before[code],
        {
            let join: &PendingJoin = self.pending.value(i);
            let ghost had = kept@;
            let ghost here = entries[i as int].0@;
            proof {
                self.pending.entries_are_the_map();
                assert(key_at(entries, here, i as int));
            }
            if join.expires_at_ms > now_ms {
                kept.insert(
                    self.pending.key(i).clone(),
                    PendingJoin {
                        host_id: join.host_id.clone(),
                        expires_at_ms: join.expires_at_ms,
                    },
                );
            }
            proof {
                assert forall|code: Seq<char>|
                    #![trigger kept@.dom().contains(code)]
                    kept@.dom().contains(code) == (exists|j: int|
                        j < i + 1 && #[trigger] key_at(entries, code, j)
                            && entries[j].1.expires_at_ms > now_ms) by {
                    if had.dom().contains(code) {
                        let j = choose|j: int|
                            j < i && #[trigger] key_at(entries, code, j)
                                && entries[j].1.expires_at_ms > now_ms;
                        assert(key_at(entries, code, j));
                    }
                    if exists|j: int|
                        j < i + 1 && #[trigger] key_at(entries, code, j)
                            && entries[j].1.expires_at_ms > now_ms {
                        let j = choose|j: int|
                            j < i + 1 && #[trigger] key_at(entries, code, j)
                                && entries[j].1.expires_at_ms > now_ms;
                        if j < i {
                            assert(had.dom().contains(code));
                        } else {
                            assert(code == here);
                        }
                    }
                }
            }
        }
        proof {
            self.pending.entries_are_the_map();
            self.pending.size_is_the_domain();
            kept.size_is_the_domain();
            assert forall|code: Seq<char>|
                kept@.dom().contains(code) == live(before, now_ms).dom().contains(code) by {
                if kept@.dom().contains(code) {
                    let j = choose|j: int|
                        j < count && #[trigger] key_at(entries, code, j)
                            && entries[j].1.expires_at_ms > now_ms;
                    assert(before[entries[j].0@] == entries[j].1);
                }
                if live(before, now_ms).dom().contains(code) {
                    let j = choose|j: int| key_at(entries, code, j);
                    assert(before[entries[j].0@] == entries[j].1);
                    assert(key_at(entries, code, j));
                }
            }
            assert(kept@ =~= live(before, now_ms));
            assert(kept@.dom().subset_of(before.dom()));
            vstd::set_lib::lemma_len_subset(kept@.dom(), before.dom());
        }
        let left: usize = kept.len();
        self.pending = kept;
        count - left
    }

    /// Uses a code up: the identity that it stands for, where it was issued, not used before, and
    /// still good.
    pub fn consume(&mut self, code: &str, now_ms: u64) -> (result: Option<String>)
        requires
            old(self).wf(),
        ensures
            final(self).wf(),
            final(self)@ == old(self)@.remove(code@),
            result == (if live(old(self)@, now_ms).dom().contains(code@) {
                Some(old(self)@[code@].host_id)
            } else {
                None
            }),
    {
        match self.pending.remove(code) {
            Some(join) => if join.expires_at_ms > now_ms {
                Some(join.host_id)
            } else {
                None
            },
            None => None,
        }
    }
}

/// A code enrols one machine, once: what it was issued for is what its first use gives, and a
/// second use gives nothing.
pub proof fn codes_work_once(
    pending: Map<Seq<char>, PendingJoin>,
    code: Seq<char>,
    host_id: String,
    issued_ms: u64,
    used_ms: u64,
)
    requires
        used_ms < after(issued_ms, JOIN_CODE_TTL_MS),
    ensures
        ({
            let issued = live(pending, issued_ms).insert(
                code,
                (PendingJoin { host_id, expires_at_ms: after(issued_ms, JOIN_CODE_TTL_MS) }),
            );
            &&& live(issued, used_ms).dom().contains(code)
            &&& issued[code].host_id == host_id
            &&& !live(issued.remove(code), used_ms).dom().contains(code)
        }),
{
}

// What codes promise.

/// A code is issued for one machine and is good for ten minutes; issuing it forgets every code that
/// ran out and no other.
pub proof fn codes_are_issued_for_a_while(
    registry: &mut JoinCodeRegistry,
    token: &str,
    host_id: String,
    now_ms: u64,
    issued: (String, String, u64),
    other: Seq<char>,
)
    requires
        call_ensures(JoinCodeRegistry::issue, (registry, token, host_id, now_ms), issued),
    ensures
        issued.0@ == "loom-"@ + token@,
        issued.1 == host_id,
        now_ms + 600_000 <= u64::MAX ==> issued.2 == now_ms + 600_000,
        now_ms + 600_000 > u64::MAX ==> issued.2 == u64::MAX,
        final(registry)@.dom().contains(issued.0@),
        final(registry)@[issued.0@].host_id == host_id,
        final(registry)@[issued.0@].expires_at_ms == issued.2,
        other != issued.0@ ==> (final(registry)@.dom().contains(other) <==> old(registry)@.dom().contains(other) && old(registry)@[other].expires_at_ms > now_ms),
        other != issued.0@ && final(registry)@.dom().contains(other) ==> final(registry)@[other] == old(registry)@[other],
{
}

/// A code gives the machine it was issued for while it is good, and nothing afterwards; used, it is
/// gone, and every other code stays.
pub proof fn codes_are_used_up(
    registry: &mut JoinCodeRegistry,
    code: &str,
    now_ms: u64,
    host: Option<String>,
    other: Seq<char>,
)
    requires
        call_ensures(JoinCodeRegistry::consume, (registry, code, now_ms), host),
    ensures
        host is Some <==> old(registry)@.dom().contains(code@) && old(registry)@[code@].expires_at_ms > now_ms,
        host matches Some(id) ==> id == old(registry)@[code@].host_id,
        !final(registry)@.dom().contains(code@),
        other != code@ ==> (final(registry)@.dom().contains(other) <==> old(registry)@.dom().contains(other)),
        other != code@ && final(registry)@.dom().contains(other) ==> final(registry)@[other] == old(registry)@[other],
{
}

/// What ran out is forgotten, and nothing else is.
pub proof fn codes_run_out(
    registry: &mut JoinCodeRegistry,
    now_ms: u64,
    gone: usize,
    code: Seq<char>,
)
    requires
        call_ensures(JoinCodeRegistry::purge_expired, (registry, now_ms), gone),
    ensures
        final(registry)@.dom().contains(code) <==> old(registry)@.dom().contains(code) && old(registry)@[code].expires_at_ms > now_ms,
        final(registry)@.dom().contains(code) ==> final(registry)@[code] == old(registry)@[code],
        gone == old(registry)@.dom().len() - final(registry)@.dom().len(),
{
}

} // verus!
