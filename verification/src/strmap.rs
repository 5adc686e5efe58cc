//! A map keyed by text, kept in the order of its keys.

use vstd::prelude::*;

use crate::text::{
    precedes, precedes_irreflexive, precedes_total, precedes_transitive, same_text, text_precedes,
};

verus! {

/// A map from texts to values that holds its entries in the strict order of their keys.
#[verifier::reject_recursive_types(V)]
pub struct StrMap<V> {
    entries: Vec<(String, V)>,
}

/// The entries stand in the strict order of their keys.
pub open spec fn ordered<V>(entries: Seq<(String, V)>) -> bool {
    forall|i: int, j: int|
        0 <= i < j < entries.len() ==> precedes((#[trigger] entries[i]).0@, (#[trigger] entries[j]).0@)
}

/// The place of a key among the entries.
pub open spec fn key_at<V>(entries: Seq<(String, V)>, key: Seq<char>, i: int) -> bool {
    0 <= i < entries.len() && entries[i].0@ == key
}

/// The map that entries stand for.
pub open spec fn entry_map<V>(entries: Seq<(String, V)>) -> Map<Seq<char>, V> {
    Map::new(
        |key: Seq<char>| exists|i: int| key_at(entries, key, i),
        |key: Seq<char>| entries[choose|i: int| key_at(entries, key, i)].1,
    )
}

/// Each entry is what the map gives for its key.
proof fn entry_is_mapped<V>(entries: Seq<(String, V)>, i: int)
    requires
        ordered(entries),
        0 <= i < entries.len(),
    ensures
        entry_map(entries).dom().contains(entries[i].0@),
        entry_map(entries)[entries[i].0@] == entries[i].1,
{
    let key = entries[i].0@;
    assert(key_at(entries, key, i));
    let k = choose|k: int| key_at(entries, key, k);
    precedes_irreflexive(key);
    assert(k == i);
}

/// Ordered entries have as many keys as there are entries.
proof fn domain_size<V>(entries: Seq<(String, V)>)
    requires
        ordered(entries),
    ensures
        entry_map(entries).dom().finite(),
        entry_map(entries).dom().len() == entries.len(),
    decreases entries.len(),
{
    let dom = entry_map(entries).dom();
    if entries.len() == 0 {
        assert(dom =~= Set::<Seq<char>>::empty());
    } else {
        let rest = entries.drop_last();
        let last = entries.last().0@;
        domain_size(rest);
        let rest_dom = entry_map(rest).dom();
        assert(dom =~= rest_dom.insert(last)) by {
            assert forall|k: Seq<char>| dom.contains(k) == rest_dom.insert(last).contains(k) by {
                if dom.contains(k) {
                    let i = choose|i: int| key_at(entries, k, i);
                    if i < rest.len() {
                        assert(key_at(rest, k, i));
                    }
                }
                if rest_dom.contains(k) {
                    let i = choose|i: int| key_at(rest, k, i);
                    assert(key_at(entries, k, i));
                }
                assert(key_at(entries, last, entries.len() - 1));
            }
        }
        assert(!rest_dom.contains(last)) by {
            if rest_dom.contains(last) {
                let i = choose|i: int| key_at(rest, last, i);
                assert(entries[i].0@ == last);
                precedes_irreflexive(last);
            }
        }
    }
}

impl<V> StrMap<V> {
    /// The entries, in order.
    pub closed spec fn spec_entries(&self) -> Seq<(String, V)> {
        self.entries@
    }

    /// The map is ordered.
    pub open spec fn wf(&self) -> bool {
        ordered(self.spec_entries())
    }

    /// An empty map.
    pub fn new() -> (result: StrMap<V>)
        ensures
            result.wf(),
            result@ == Map::<Seq<char>, V>::empty(),
            result.spec_entries().len() == 0,
    {
        let result = StrMap { entries: Vec::new() };
        assert(result@ =~= Map::<Seq<char>, V>::empty());
        result
    }

    /// How many entries there are.
    pub fn len(&self) -> (result: usize)
        ensures
            result == self.spec_entries().len(),
    {
        self.entries.len()
    }

    /// The key at a place.
    pub fn key(&self, i: usize) -> (result: &String)
        requires
            i < self.spec_entries().len(),
        ensures
            *result == self.spec_entries()[i as int].0,
    {
        &self.entries[i].0
    }

    /// The value at a place.
    pub fn value(&self, i: usize) -> (result: &V)
        requires
            i < self.spec_entries().len(),
        ensures
            *result == self.spec_entries()[i as int].1,
    {
        &self.entries[i].1
    }

    /// The place of a key, where the map has it.
    fn find(&self, key: &str) -> (result: Option<usize>)
        ensures
            match result {
                Some(i) => key_at(self.entries@, key@, i as int),
                None => forall|i: int| !key_at(self.entries@, key@, i),
            },
    {
        for i in 0..self.entries.len()
            invariant
                forall|j: int| 0 <= j < i ==> !key_at(self.entries@, key@, j),
        {
            if same_text(self.entries[i].0.as_str(), key) {
                return Some(i);
            }
        }
        None
    }

    /// The value of a key.
    pub fn get(&self, key: &str) -> (result: Option<&V>)
        requires
            self.wf(),
        ensures
            match result {
                Some(value) => self@.dom().contains(key@) && self@[key@] == *value,
                None => !self@.dom().contains(key@),
            },
    {
        match self.find(key) {
            Some(i) => {
                proof {
                    entry_is_mapped(self.entries@, i as int);
                }
                Some(&self.entries[i].1)
            },
            None => None,
        }
    }

    /// Whether the map has a key.
    pub fn contains(&self, key: &str) -> (result: bool)
        ensures
            result == self@.dom().contains(key@),
    {
        match self.find(key) {
            Some(i) => {
                assert(key_at(self.entries@, key@, i as int));
                true
            },
            None => false,
        }
    }

    /// Sets the value of a key, giving back the one it replaces.
    pub fn insert(&mut self, key: String, value: V) -> (result: Option<V>)
        requires
            old(self).wf(),
        ensures
            final(self).wf(),
            final(self)@ == old(self)@.insert(key@, value),
            match result {
                Some(previous) => old(self)@.dom().contains(key@) && old(self)@[key@] == previous,
                None => !old(self)@.dom().contains(key@),
            },
    {
        let removed: Option<V> = self.remove(key.as_str());
        let ghost rest = self.entries@;
        let ghost base = self@;
        let mut at: usize = 0;
        while at < self.entries.len() && text_precedes(self.entries[at].0.as_str(), key.as_str())
            invariant
                self.entries@ == rest,
                at <= rest.len(),
                forall|j: int| 0 <= j < at ==> precedes((#[trigger] rest[j]).0@, key@),
            decreases self.entries.len() - at,
        {
            at += 1;
        }
        let ghost text = key@;
        let ghost entry = (key, value);
        self.entries.insert(at, (key, value));
        proof {
            let now = self.entries@;
            assert(now =~= rest.insert(at as int, entry));
            assert forall|i: int| at <= i < rest.len() implies precedes(text, (#[trigger] rest[i]).0@) by {
                if !precedes(rest[at as int].0@, text) {
                    precedes_total(rest[at as int].0@, text);
                    if rest[at as int].0@ == text {
                        assert(key_at(rest, text, at as int));
                        assert(base.dom().contains(text));
                        assert(false);
                    }
                    if i > at {
                        precedes_transitive(text, rest[at as int].0@, rest[i].0@);
                    }
                }
            }
            assert forall|i: int, j: int| 0 <= i < j < now.len() implies precedes(
                (#[trigger] now[i]).0@,
                (#[trigger] now[j]).0@,
            ) by {
                if i < at && j > at {
                    assert(now[j] == rest[j - 1]);
                    assert(now[i] == rest[i]);
                } else if i == at {
                    assert(now[j] == rest[j - 1]);
                } else if i > at {
                    assert(now[i] == rest[i - 1] && now[j] == rest[j - 1]);
                } else if j < at {
                    assert(now[i] == rest[i] && now[j] == rest[j]);
                }
            }
            let built = entry_map(now);
            assert forall|k: Seq<char>| built.dom().contains(k) == base.insert(text, value).dom().contains(k) by {
                if built.dom().contains(k) {
                    let i = choose|i: int| key_at(now, k, i);
                    if i < at {
                        assert(key_at(rest, k, i));
                    } else if i > at {
                        assert(key_at(rest, k, i - 1));
                    }
                }
                if base.dom().contains(k) {
                    let i = choose|i: int| key_at(rest, k, i);
                    if i < at {
                        assert(key_at(now, k, i));
                    } else {
                        assert(key_at(now, k, i + 1));
                    }
                }
                assert(key_at(now, text, at as int));
            }
            assert forall|k: Seq<char>| built.dom().contains(k) implies built[k] == base.insert(text, value)[k] by {
                let i = choose|i: int| key_at(now, k, i);
                entry_is_mapped(now, i);
                if i < at {
                    entry_is_mapped(rest, i);
                    assert(now[i] == rest[i]);
                } else if i > at {
                    entry_is_mapped(rest, i - 1);
                    assert(now[i] == rest[i - 1]);
                }
                if k == text {
                    entry_is_mapped(now, at as int);
                }
            }
            assert(built =~= base.insert(text, value));
            assert(old(self)@.remove(text).insert(text, value) =~= old(self)@.insert(text, value));
        }
        removed
    }

    /// Removes a key, giving back its value.
    pub fn remove(&mut self, key: &str) -> (result: Option<V>)
        requires
            old(self).wf(),
        ensures
            final(self).wf(),
            final(self)@ == old(self)@.remove(key@),
            match result {
                Some(previous) => old(self)@.dom().contains(key@) && old(self)@[key@] == previous,
                None => !old(self)@.dom().contains(key@),
            },
    {
        match self.find(key) {
            Some(at) => {
                let ghost before = self.entries@;
                let ghost base = self@;
                let (_, value) = self.entries.remove(at);
                proof {
                    let now = self.entries@;
                    assert(now =~= before.remove(at as int));
                    entry_is_mapped(before, at as int);
                    assert(ordered(now)) by {
                        assert forall|i: int, j: int| 0 <= i < j < now.len() implies precedes(
                            (#[trigger] now[i]).0@,
                            (#[trigger] now[j]).0@,
                        ) by {
                            let a = if i < at { i } else { i + 1 };
                            let b = if j < at { j } else { j + 1 };
                            assert(now[i] == before[a] && now[j] == before[b]);
                        }
                    }
                    let built = entry_map(now);
                    precedes_irreflexive(key@);
                    assert forall|k: Seq<char>| built.dom().contains(k) == base.remove(key@).dom().contains(k) by {
                        if built.dom().contains(k) {
                            let i = choose|i: int| key_at(now, k, i);
                            let a = if i < at { i } else { i + 1 };
                            assert(now[i] == before[a]);
                            assert(key_at(before, k, a));
                            if k == key@ {
                                assert(a != at);
                            }
                        }
                        if base.remove(key@).dom().contains(k) {
                            let a = choose|a: int| key_at(before, k, a);
                            let i = if a < at { a } else { a - 1 };
                            assert(now[i] == before[a]);
                            assert(key_at(now, k, i));
                        }
                    }
                    assert forall|k: Seq<char>| built.dom().contains(k) implies built[k] == base.remove(key@)[k] by {
                        let i = choose|i: int| key_at(now, k, i);
                        let a = if i < at { i } else { i + 1 };
                        assert(now[i] == before[a]);
                        entry_is_mapped(now, i);
                        entry_is_mapped(before, a);
                    }
                    assert(built =~= base.remove(key@));
                }
                Some(value)
            },
            None => {
                assert(self@ =~= self@.remove(key@));
                None
            },
        }
    }

    /// There are as many keys as entries.
    pub proof fn size_is_the_domain(&self)
        requires
            self.wf(),
        ensures
            self@.dom().finite(),
            self@.dom().len() == self.spec_entries().len(),
    {
        domain_size(self.entries@);
    }

    /// Every entry is what the map gives for its key, and every key has its entry.
    pub proof fn entries_are_the_map(&self)
        requires
            self.wf(),
        ensures
            forall|i: int|
                0 <= i < self.spec_entries().len() ==> self@.dom().contains(
                    (#[trigger] self.spec_entries()[i]).0@,
                ) && self@[self.spec_entries()[i].0@] == self.spec_entries()[i].1,
            forall|key: Seq<char>| #[trigger] self@.dom().contains(key) ==> exists|i: int|
                key_at(self.spec_entries(), key, i),
    {
        assert forall|i: int| 0 <= i < self.spec_entries().len() implies self@.dom().contains(
            (#[trigger] self.spec_entries()[i]).0@,
        ) && self@[self.spec_entries()[i].0@] == self.spec_entries()[i].1 by {
            entry_is_mapped(self.entries@, i);
        }
    }
}

impl<V> View for StrMap<V> {
    type V = Map<Seq<char>, V>;

    closed spec fn view(&self) -> Map<Seq<char>, V> {
        entry_map(self.entries@)
    }
}

// What a map promises.

/// What is put under a key is found under it, what was there before is handed back, and nothing under
/// another key changes.
pub proof fn entries_are_put_under_their_key<V>(
    map: &mut StrMap<V>,
    key: String,
    value: V,
    previous: Option<V>,
    other: Seq<char>,
)
    requires
        call_ensures(StrMap::<V>::insert, (map, key, value), previous),
    ensures
        final(map)@.dom().contains(key@),
        final(map)@[key@] == value,
        previous is Some <==> old(map)@.dom().contains(key@),
        previous is Some ==> previous->0 == old(map)@[key@],
        other != key@ ==> (final(map)@.dom().contains(other) <==> old(map)@.dom().contains(other)),
        other != key@ && old(map)@.dom().contains(other) ==> final(map)@[other] == old(map)@[other],
{
}

/// What is taken out from under a key is handed back and no longer found, and nothing under another
/// key changes.
pub proof fn entries_are_taken_from_under_their_key<V>(
    map: &mut StrMap<V>,
    key: &str,
    taken: Option<V>,
    other: Seq<char>,
)
    requires
        call_ensures(StrMap::<V>::remove, (map, key), taken),
    ensures
        !final(map)@.dom().contains(key@),
        taken is Some <==> old(map)@.dom().contains(key@),
        taken is Some ==> taken->0 == old(map)@[key@],
        other != key@ ==> (final(map)@.dom().contains(other) <==> old(map)@.dom().contains(other)),
        other != key@ && old(map)@.dom().contains(other) ==> final(map)@[other] == old(map)@[other],
{
}

/// What is under a key is found, and nothing else.
pub proof fn entries_are_found_under_their_key<V>(
    map: StrMap<V>,
    key: &str,
    found: Option<&V>,
    held: bool,
)
    requires
        call_ensures(StrMap::<V>::get, (&map, key), found),
        call_ensures(StrMap::<V>::contains, (&map, key), held),
    ensures
        found is Some <==> map@.dom().contains(key@),
        found is Some ==> *found->0 == map@[key@],
        held <==> map@.dom().contains(key@),
{
}

} // verus!
