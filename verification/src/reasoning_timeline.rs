//! Coalescing streamed reasoning deltas into the timeline's thinking rows.
//!
//! A model's thinking reaches the log as many deltas that share one item id, while a timeline has
//! one row per thinking item. The fold here decides what one item said and how long it took;
//! whether thinking is shown is the client's preference.

use vstd::prelude::*;

use crate::domain::{ProviderEvent, ThreadEventItem};
use crate::json::{member, object, trees, Fields, Json, Tree};
use crate::text::{
    blank, decimal, decimal_text, is_blank, joined, joined3, precedes, precedes_irreflexive,
    precedes_total, precedes_transitive, same_text, text_precedes, texts,
};

verus! {

/// The identity of one thinking item: the run that carried it and the provider's item id within
/// that run.
#[derive(Debug, PartialEq, Eq, Hash, PartialOrd, Ord)]
pub struct ReasoningItemId {
    /// The run the thinking streamed in.
    pub run_id: String,
    /// The provider's item id, unique within that run.
    pub item_id: String,
}

/// One thinking item accumulated from the deltas that carried it.
#[derive(Debug, PartialEq, Eq)]
pub struct ReasoningItem {
    /// What identifies this item: run plus provider item id.
    pub id: ReasoningItemId,
    /// The streamed reasoning, in arrival order.
    pub text: String,
    /// The sequence of the first frame that carried text.
    pub start_sequence: u64,
    /// The sequence of the last frame that contributed to it.
    pub end_sequence: u64,
    /// When the first delta arrived.
    pub started_at_ms: u64,
    /// When the thinking ended: the frame in which the agent moved on.
    pub ended_at_ms: u64,
    /// `true` once the agent moved on, or reported the item complete.
    pub closed: bool,
}

impl Clone for ReasoningItem {
    fn clone(&self) -> (result: ReasoningItem)
        ensures
            result == *self,
    {
        ReasoningItem {
            id: ReasoningItemId {
                run_id: self.id.run_id.clone(),
                item_id: self.id.item_id.clone(),
            },
            text: self.text.clone(),
            start_sequence: self.start_sequence,
            end_sequence: self.end_sequence,
            started_at_ms: self.started_at_ms,
            ended_at_ms: self.ended_at_ms,
            closed: self.closed,
        }
    }
}

/// One thinking item, as mathematics.
pub ghost struct Thought {
    /// What it said.
    pub text: Seq<char>,
    /// The sequence of the first frame that carried text.
    pub start_sequence: u64,
    /// The sequence of the last frame that contributed to it.
    pub end_sequence: u64,
    /// When the first delta arrived.
    pub started_at_ms: u64,
    /// When the thinking ended.
    pub ended_at_ms: u64,
    /// Whether it ended.
    pub closed: bool,
}

/// A run and an item of it.
pub type ItemKey = (Seq<char>, Seq<char>);

impl View for ReasoningItem {
    type V = Thought;

    open spec fn view(&self) -> Thought {
        Thought {
            text: self.text@,
            start_sequence: self.start_sequence,
            end_sequence: self.end_sequence,
            started_at_ms: self.started_at_ms,
            ended_at_ms: self.ended_at_ms,
            closed: self.closed,
        }
    }
}

impl ReasoningItem {
    /// The run and the item.
    pub open spec fn key(&self) -> ItemKey {
        (self.id.run_id@, self.id.item_id@)
    }

    /// How long the model thought, as the client would spell it.
    pub fn duration_label(&self) -> (result: String)
        ensures
            result@ == compact_duration(self@.duration()),
    {
        let elapsed: u64 = if self.ended_at_ms > self.started_at_ms {
            self.ended_at_ms - self.started_at_ms
        } else {
            0
        };
        duration_to_compact_string(elapsed)
    }

    /// Whether this item has anything worth a row: one that streamed only white space has not.
    pub fn is_reportable(&self) -> (result: bool)
        ensures
            result == self@.reportable(),
    {
        !is_blank(self.text.as_str())
    }
}

impl Thought {
    /// How long the model thought.
    pub open spec fn duration(self) -> nat {
        if self.ended_at_ms > self.started_at_ms {
            (self.ended_at_ms - self.started_at_ms) as nat
        } else {
            0
        }
    }

    /// Whether there is anything worth a row.
    pub open spec fn reportable(self) -> bool {
        !blank(self.text)
    }
}

/// The nearest whole number to a fraction, the even one of two that are as near.
pub open spec fn round_even(n: nat, d: nat) -> nat {
    let q = n / d;
    let r = n % d;
    if 2 * r < d || (2 * r == d && q % 2 == 0) {
        q
    } else {
        q + 1
    }
}

/// The distance between neighbouring double-precision numbers at a whole number, where it is at
/// least one.
pub open spec fn double_unit(n: nat) -> nat
    decreases n,
{
    if n < 0x20_0000_0000_0000 {
        1
    } else {
        2 * double_unit(n / 2)
    }
}

/// The double-precision number nearest to a whole number.
pub open spec fn as_double(n: nat) -> nat {
    round_even(n, double_unit(n)) * double_unit(n)
}

/// The power of two that brings a number of thousandths to fifty-three significant bits, found in
/// at most so many doublings.
pub open spec fn quotient_scale(d: nat, doublings: nat) -> nat
    decreases doublings,
{
    if doublings == 0 || d / 1000 >= 0x10_0000_0000_0000 {
        1
    } else {
        2 * quotient_scale(2 * d, (doublings - 1) as nat)
    }
}

/// A double-precision number divided by one thousand in double precision, and rounded to a whole
/// number, halves upwards.
pub open spec fn double_thousandth(d: nat) -> nat {
    if d / 1000 >= 0x40_0000_0000_0000 {
        4 * round_even(d, 4000)
    } else if d / 1000 >= 0x20_0000_0000_0000 {
        2 * round_even(d, 2000)
    } else {
        let p = quotient_scale(d, 10);
        (2 * round_even(d * p, 1000) + p) / (2 * p)
    }
}

/// Milliseconds as seconds, computed as a client computes them, in double precision: rounded to
/// the nearest, halves upwards, as long as the milliseconds themselves are exact there.
pub open spec fn rounded_seconds(ms: nat) -> nat {
    if ms < 0x20_0000_0000_0000 {
        (ms + 500) / 1000
    } else {
        double_thousandth(as_double(ms))
    }
}

/// A part of a duration put behind those before it, unless it is zero.
pub open spec fn duration_part(before: Seq<char>, n: nat, unit: Seq<char>) -> Seq<char> {
    if n == 0 {
        before
    } else if before.len() == 0 {
        decimal(n) + unit
    } else {
        before + " "@ + decimal(n) + unit
    }
}

/// A duration the way the client spells it: `90ms`, `12s`, `1m 5s`.
pub open spec fn compact_duration(ms: nat) -> Seq<char> {
    let total = rounded_seconds(ms);
    if ms < 1000 {
        decimal(ms) + "ms"@
    } else if total < 60 {
        decimal(total) + "s"@
    } else {
        duration_part(
            duration_part(
                duration_part(Seq::empty(), total / 3600, "h"@),
                (total % 3600) / 60,
                "m"@,
            ),
            total % 60,
            "s"@,
        )
    }
}

/// The nearest whole number to a fraction, the even one of two that are as near.
fn round_half_even(n: u128, d: u128) -> (result: u128)
    requires
        0 < d < 0x1_0000_0000_0000_0000,
        n < 0x1_0000_0000_0000_0000_0000_0000,
    ensures
        result == round_even(n as nat, d as nat),
        result <= n / d + 1,
{
    let q: u128 = n / d;
    let r: u128 = n % d;
    assert(n / d <= n) by (nonlinear_arith)
        requires
            d > 0,
    ;
    if 2 * r < d || (2 * r == d && q % 2 == 0) {
        q
    } else {
        q + 1
    }
}

/// The distance between neighbouring double-precision numbers at a whole number.
fn unit_at(n: u64) -> (result: u64)
    ensures
        result == double_unit(n as nat),
        result == 1 || result * 0x10_0000_0000_0000 <= n,
        1 <= result,
        n < result * 0x20_0000_0000_0000,
    decreases n,
{
    if n < 0x20_0000_0000_0000 {
        1
    } else {
        2 * unit_at(n / 2)
    }
}

/// A power of two.
spec fn doubled(n: nat) -> nat
    decreases n,
{
    if n == 0 {
        1
    } else {
        2 * doubled((n - 1) as nat)
    }
}

/// Ten doublings multiply by no more than 1024.
proof fn doubled_bound(n: nat)
    requires
        n <= 10,
    ensures
        doubled(n) <= 1024,
{
    reveal_with_fuel(doubled, 11);
}

/// The power of two that brings a number of thousandths to fifty-three significant bits, found in
/// at most so many doublings.
fn scale_of(d: u128, doublings: u64) -> (result: u128)
    requires
        d < 0x20_0000_0000_0000 * 1000,
        doublings <= 10,
    ensures
        result == quotient_scale(d as nat, doublings as nat),
        1 <= result <= doubled(doublings as nat),
        d * result < 0x20_0000_0000_0000 * 1000,
    decreases doublings,
{
    if doublings == 0 || d / 1000 >= 0x10_0000_0000_0000 {
        proof {
            doubled_positive(doublings as nat);
        }
        1
    } else {
        let rest: u128 = scale_of(2 * d, doublings - 1);
        proof {
            assert((2 * d) * rest == d * (2 * rest)) by (nonlinear_arith);
            doubled_bound((doublings - 1) as nat);
        }
        2 * rest
    }
}

/// A power of two is at least one.
proof fn doubled_positive(n: nat)
    ensures
        doubled(n) >= 1,
    decreases n,
{
    if n > 0 {
        doubled_positive((n - 1) as nat);
    }
}

/// Milliseconds as seconds.
fn seconds_of(ms: u64) -> (result: u64)
    ensures
        result == rounded_seconds(ms as nat),
{
    if ms < 0x20_0000_0000_0000 {
        return (ms + 500) / 1000;
    }
    let unit: u64 = unit_at(ms);
    let nearest: u128 = round_half_even(ms as u128, unit as u128);
    proof {
        assert(ms / unit < 0x20_0000_0000_0000) by (nonlinear_arith)
            requires
                ms < unit * 0x20_0000_0000_0000,
                unit >= 1,
        ;
        assert(nearest * unit <= 0x20_0000_0000_0000 * 4096) by (nonlinear_arith)
            requires
                nearest <= 0x20_0000_0000_0000,
                unit <= 4096,
        ;
    }
    let double: u128 = nearest * (unit as u128);
    assert(double == as_double(ms as nat));
    if double / 1000 >= 0x40_0000_0000_0000 {
        (4 * round_half_even(double, 4000)) as u64
    } else if double / 1000 >= 0x20_0000_0000_0000 {
        (2 * round_half_even(double, 2000)) as u64
    } else {
        let p: u128 = scale_of(double, 10);
        proof {
            doubled_bound(10);
        }
        let n: u128 = round_half_even(double * p, 1000);
        let whole: u128 = (2 * n + p) / (2 * p);
        assert(whole <= 2 * n + p) by (nonlinear_arith)
            requires
                whole == (2 * n + p) / ((2 * p) as int),
                p >= 1,
        ;
        whole as u64
    }
}

/// A part of a duration put behind those before it, unless it is zero.
fn with_part(before: String, n: u64, unit: &str) -> (result: String)
    ensures
        result@ == duration_part(before@, n as nat, unit@),
{
    if n == 0 {
        return before;
    }
    let digits: String = decimal_text(n);
    if before.as_str().is_empty() {
        joined(digits.as_str(), unit)
    } else {
        let mut text: String = joined3(before.as_str(), " ", digits.as_str());
        text.append(unit);
        text
    }
}

/// A duration the way the client spells it: `90ms`, `12s`, `1m 5s`.
pub fn duration_to_compact_string(duration_ms: u64) -> (result: String)
    ensures
        result@ == compact_duration(duration_ms as nat),
{
    if duration_ms < 1_000 {
        return joined(decimal_text(duration_ms).as_str(), "ms");
    }
    let total: u64 = seconds_of(duration_ms);
    if total < 60 {
        return joined(decimal_text(total).as_str(), "s");
    }
    let hours: String = with_part(String::new(), total / 3_600, "h");
    let minutes: String = with_part(hours, (total % 3_600) / 60, "m");
    with_part(minutes, total % 60, "s")
}

/// The place of an item among those of a timeline.
pub open spec fn item_at(items: Seq<ReasoningItem>, key: ItemKey, i: int) -> bool {
    0 <= i < items.len() && items[i].key() == key
}

/// No two items share an identity.
pub open spec fn distinct_items(items: Seq<ReasoningItem>) -> bool {
    forall|i: int, j: int|
        0 <= i < j < items.len() ==> (#[trigger] items[i]).key() != (#[trigger] items[j]).key()
}

/// The items by identity.
pub open spec fn item_map(items: Seq<ReasoningItem>) -> Map<ItemKey, Thought> {
    Map::new(
        |key: ItemKey| exists|i: int| item_at(items, key, i),
        |key: ItemKey| items[choose|i: int| item_at(items, key, i)]@,
    )
}

/// Each item is what the map gives for its identity.
proof fn item_is_mapped(items: Seq<ReasoningItem>, i: int)
    requires
        distinct_items(items),
        0 <= i < items.len(),
    ensures
        item_map(items).dom().contains(items[i].key()),
        item_map(items)[items[i].key()] == items[i]@,
{
    let key = items[i].key();
    assert(item_at(items, key, i));
    let k = choose|k: int| item_at(items, key, k);
    assert(k == i);
}

/// The thinking items of one thread.
pub struct ReasoningTimeline {
    items: Vec<ReasoningItem>,
}

impl View for ReasoningTimeline {
    type V = Map<ItemKey, Thought>;

    closed spec fn view(&self) -> Map<ItemKey, Thought> {
        item_map(self.items@)
    }
}

/// An item that nothing was streamed into yet.
pub open spec fn fresh_thought(sequence: u64, at_ms: u64) -> Thought {
    Thought {
        text: Seq::empty(),
        start_sequence: sequence,
        end_sequence: sequence,
        started_at_ms: at_ms,
        ended_at_ms: at_ms,
        closed: false,
    }
}

/// The item of an identity, or a fresh one.
pub open spec fn thought_or_fresh(
    items: Map<ItemKey, Thought>,
    key: ItemKey,
    sequence: u64,
    at_ms: u64,
) -> Thought {
    if items.dom().contains(key) {
        items[key]
    } else {
        fresh_thought(sequence, at_ms)
    }
}

/// An item that a frame of its own run ended, unless it had ended before. A frame that is older
/// than the item's last delta does not shorten it.
pub open spec fn closed_thought(thought: Thought, at_ms: u64) -> Thought {
    if thought.closed {
        thought
    } else {
        Thought {
            ended_at_ms: if at_ms > thought.ended_at_ms {
                at_ms
            } else {
                thought.ended_at_ms
            },
            closed: true,
            ..thought
        }
    }
}

/// The items once a run moved on: every open item of that run has ended, no other changed.
pub open spec fn closed_run(
    items: Map<ItemKey, Thought>,
    run_id: Seq<char>,
    at_ms: u64,
) -> Map<ItemKey, Thought> {
    Map::new(
        |key: ItemKey| items.dom().contains(key),
        |key: ItemKey|
            if key.0 == run_id {
                closed_thought(items[key], at_ms)
            } else {
                items[key]
            },
    )
}

/// The pieces of a text put together.
pub open spec fn concatenated(pieces: Seq<Seq<char>>) -> Seq<char>
    decreases pieces.len(),
{
    if pieces.len() == 0 {
        Seq::empty()
    } else {
        concatenated(pieces.drop_last()) + pieces.last()
    }
}

/// Whether an event is thinking, which no other projection has a row for.
pub open spec fn is_reasoning(event: ProviderEvent) -> bool {
    ||| event is ItemReasoningTextDelta
    ||| event is ItemReasoningSummaryTextDelta
    ||| event matches ProviderEvent::ItemCompleted { item } && item is Reasoning
}

/// The items once a delta was streamed into one of them; an empty delta changes nothing.
pub open spec fn streamed(
    items: Map<ItemKey, Thought>,
    key: ItemKey,
    delta: Seq<char>,
    sequence: u64,
    at_ms: u64,
) -> Map<ItemKey, Thought> {
    if delta.len() == 0 {
        items
    } else {
        let before = thought_or_fresh(items, key, sequence, at_ms);
        items.insert(
            key,
            Thought {
                text: before.text + delta,
                end_sequence: sequence,
                ended_at_ms: at_ms,
                ..before
            },
        )
    }
}

/// The items once an event was folded in. A delta grows its item, a completed item ends with the
/// text that was streamed or else with its own, and anything else ends what its run has open.
pub open spec fn absorbed(
    items: Map<ItemKey, Thought>,
    run_id: Seq<char>,
    event: ProviderEvent,
    sequence: u64,
    at_ms: u64,
) -> Map<ItemKey, Thought> {
    match event {
        ProviderEvent::ItemReasoningTextDelta { item_id, delta } => streamed(
            items,
            (run_id, item_id@),
            delta@,
            sequence,
            at_ms,
        ),
        ProviderEvent::ItemReasoningSummaryTextDelta { item_id, delta } => streamed(
            items,
            (run_id, item_id@),
            delta@,
            sequence,
            at_ms,
        ),
        ProviderEvent::ItemCompleted { item: ThreadEventItem::Reasoning { id, summary, content } } => {
            let key = (run_id, id@);
            let before = thought_or_fresh(items, key, sequence, at_ms);
            items.insert(
                key,
                Thought {
                    text: if before.text.len() == 0 {
                        concatenated(texts(summary@) + texts(content@))
                    } else {
                        before.text
                    },
                    end_sequence: sequence,
                    ended_at_ms: at_ms,
                    closed: true,
                    ..before
                },
            )
        },
        _ => closed_run(items, run_id, at_ms),
    }
}

/// Whether one identity stands no later than another, by run and then by item.
pub open spec fn key_not_after(a: ItemKey, b: ItemKey) -> bool {
    precedes(a.0, b.0) || (a.0 == b.0 && (precedes(a.1, b.1) || a.1 == b.1))
}

/// Whether one item stands no later than another, by where they begin, then by where they end, and
/// where they tie in both by their identities.
pub open spec fn not_after(a: ReasoningItem, b: ReasoningItem) -> bool {
    a@.start_sequence < b@.start_sequence || (a@.start_sequence == b@.start_sequence && (
    a@.end_sequence < b@.end_sequence || (a@.end_sequence == b@.end_sequence && key_not_after(
        a.key(),
        b.key(),
    ))))
}

/// The order of identities is total, and two that stand no later than each other are one.
proof fn keys_are_ordered(a: ItemKey, b: ItemKey)
    ensures
        key_not_after(a, b) || key_not_after(b, a),
        key_not_after(a, b) && key_not_after(b, a) ==> a == b,
{
    precedes_total(a.0, b.0);
    precedes_total(a.1, b.1);
    precedes_irreflexive(a.0);
    precedes_irreflexive(a.1);
    if precedes(a.0, b.0) && precedes(b.0, a.0) {
        precedes_transitive(a.0, b.0, a.0);
    }
    if precedes(a.1, b.1) && precedes(b.1, a.1) {
        precedes_transitive(a.1, b.1, a.1);
    }
}

/// The order of items is transitive.
proof fn not_after_transitive(a: ReasoningItem, b: ReasoningItem, c: ReasoningItem)
    requires
        not_after(a, b),
        not_after(b, c),
    ensures
        not_after(a, c),
{
    let (x, y, z) = (a.key(), b.key(), c.key());
    if precedes(x.0, y.0) && precedes(y.0, z.0) {
        precedes_transitive(x.0, y.0, z.0);
    }
    if precedes(x.1, y.1) && precedes(y.1, z.1) {
        precedes_transitive(x.1, y.1, z.1);
    }
}

/// Whether one item stands after another.
fn stands_after(a: &ReasoningItem, b: &ReasoningItem) -> (result: bool)
    ensures
        result == !not_after(*a, *b),
{
    proof {
        keys_are_ordered(a.key(), b.key());
    }
    if a.start_sequence != b.start_sequence {
        return a.start_sequence > b.start_sequence;
    }
    if a.end_sequence != b.end_sequence {
        return a.end_sequence > b.end_sequence;
    }
    if !same_text(a.id.run_id.as_str(), b.id.run_id.as_str()) {
        return !text_precedes(a.id.run_id.as_str(), b.id.run_id.as_str());
    }
    proof {
        precedes_irreflexive(a.key().0);
    }
    !same_text(a.id.item_id.as_str(), b.id.item_id.as_str()) && !text_precedes(
        a.id.item_id.as_str(),
        b.id.item_id.as_str(),
    )
}

/// Whether a list is the reportable items of a timeline in source order, each once.
pub open spec fn in_source_order(
    items: Map<ItemKey, Thought>,
    listed: Seq<ReasoningItem>,
) -> bool {
    &&& distinct_items(listed)
    &&& forall|i: int, j: int|
        0 <= i < j < listed.len() ==> not_after(#[trigger] listed[i], #[trigger] listed[j])
    &&& forall|i: int|
        0 <= i < listed.len() ==> items.dom().contains((#[trigger] listed[i]).key())
            && items[listed[i].key()] == listed[i]@ && listed[i]@.reportable()
    &&& forall|key: ItemKey| #[trigger]
        items.dom().contains(key) && items[key].reportable() ==> exists|i: int|
            item_at(listed, key, i)
}

/// Appends every piece to a text.
fn append_all(text: &mut String, pieces: &Vec<String>)
    ensures
        final(text)@ == old(text)@ + concatenated(texts(pieces@)),
{
    let ghost all = texts(pieces@);
    assert(all.take(0) =~= Seq::<Seq<char>>::empty());
    assert(text@ =~= old(text)@ + concatenated(all.take(0)));
    for i in 0..pieces.len()
        invariant
            all == texts(pieces@),
            text@ == old(text)@ + concatenated(all.take(i as int)),
    {
        assert(all.take(i + 1).drop_last() =~= all.take(i as int));
        text.append(pieces[i].as_str());
        assert(text@ =~= old(text)@ + concatenated(all.take(i + 1)));
    }
    assert(all.take(all.len() as int) =~= all);
}

/// The pieces of two lists put together are those of the first and then those of the second.
proof fn concatenated_sum(a: Seq<Seq<char>>, b: Seq<Seq<char>>)
    ensures
        concatenated(a + b) == concatenated(a) + concatenated(b),
    decreases b.len(),
{
    if b.len() == 0 {
        assert(a + b =~= a);
        assert(concatenated(a) + concatenated(b) =~= concatenated(a));
    } else {
        assert((a + b).drop_last() =~= a + b.drop_last());
        concatenated_sum(a, b.drop_last());
        assert(concatenated(a + b) =~= concatenated(a) + concatenated(b));
    }
}

impl ReasoningTimeline {
    /// No two items share an identity.
    pub closed spec fn wf(&self) -> bool {
        distinct_items(self.items@)
    }

    /// A timeline of nothing.
    pub fn new() -> (result: ReasoningTimeline)
        ensures
            result.wf(),
            result@ == Map::<ItemKey, Thought>::empty(),
    {
        let result = ReasoningTimeline { items: Vec::new() };
        assert(result@ =~= Map::<ItemKey, Thought>::empty());
        result
    }

    /// The place of an item, where there is one.
    fn find(&self, run_id: &str, item_id: &str) -> (result: Option<usize>)
        ensures
            match result {
                Some(i) => item_at(self.items@, (run_id@, item_id@), i as int),
                None => forall|i: int| !item_at(self.items@, (run_id@, item_id@), i),
            },
    {
        for i in 0..self.items.len()
            invariant
                forall|j: int| 0 <= j < i ==> !item_at(self.items@, (run_id@, item_id@), j),
        {
            let id: &ReasoningItemId = &self.items[i].id;
            if same_text(id.run_id.as_str(), run_id) && same_text(id.item_id.as_str(), item_id) {
                return Some(i);
            }
        }
        None
    }

    /// Puts an item in, in the place of the one of its identity.
    fn put(&mut self, item: ReasoningItem)
        requires
            old(self).wf(),
        ensures
            final(self).wf(),
            final(self)@ == old(self)@.insert(item.key(), item@),
    {
        let ghost before = self.items@;
        let ghost key = item.key();
        match self.find(item.id.run_id.as_str(), item.id.item_id.as_str()) {
            Some(at) => {
                let ghost view = item@;
                self.items.set(at, item);
                proof {
                    let now = self.items@;
                    assert forall|i: int, j: int| 0 <= i < j < now.len() implies (
                    #[trigger] now[i]).key() != (#[trigger] now[j]).key() by {
                        assert(now[i].key() == before[i].key());
                        assert(now[j].key() == before[j].key());
                    }
                    put_is_insert(before, now, key, view, at as int);
                }
            },
            None => {
                let ghost view = item@;
                self.items.push(item);
                proof {
                    let now = self.items@;
                    assert forall|i: int, j: int| 0 <= i < j < now.len() implies (
                    #[trigger] now[i]).key() != (#[trigger] now[j]).key() by {
                        assert(!item_at(before, key, i));
                        if j < before.len() {
                            assert(now[i] == before[i] && now[j] == before[j]);
                        }
                    }
                    push_is_insert(before, now, key, view);
                }
            },
        }
    }

    /// The item of an identity, or a fresh one.
    fn entry(&self, run_id: &str, item_id: &str, sequence: u64, at_ms: u64) -> (result:
        ReasoningItem)
        requires
            self.wf(),
        ensures
            result.key() == (run_id@, item_id@),
            result@ == thought_or_fresh(self@, (run_id@, item_id@), sequence, at_ms),
    {
        match self.find(run_id, item_id) {
            Some(i) => {
                proof {
                    item_is_mapped(self.items@, i as int);
                }
                self.items[i].clone()
            },
            None => {
                let item = ReasoningItem {
                    id: ReasoningItemId { run_id: run_id.to_owned(), item_id: item_id.to_owned() },
                    text: String::new(),
                    start_sequence: sequence,
                    end_sequence: sequence,
                    started_at_ms: at_ms,
                    ended_at_ms: at_ms,
                    closed: false,
                };
                item
            },
        }
    }

    /// Streams a delta into an item.
    fn stream(&mut self, run_id: &str, item_id: &str, delta: &str, sequence: u64, at_ms: u64)
        requires
            old(self).wf(),
        ensures
            final(self).wf(),
            final(self)@ == streamed(old(self)@, (run_id@, item_id@), delta@, sequence, at_ms),
    {
        if delta.is_empty() {
            return;
        }
        let mut item: ReasoningItem = self.entry(run_id, item_id, sequence, at_ms);
        item.text.append(delta);
        item.end_sequence = sequence;
        item.ended_at_ms = at_ms;
        self.put(item);
    }

    /// Marks every still-open thinking item of one run as finished.
    fn close_open_items(&mut self, run_id: &str, at_ms: u64)
        requires
            old(self).wf(),
        ensures
            final(self).wf(),
            final(self)@ == closed_run(old(self)@, run_id@, at_ms),
    {
        let ghost before = self.items@;
        let mut i: usize = 0;
        while i < self.items.len()
            invariant
                i <= self.items@.len(),
                self.items@.len() == before.len(),
                forall|j: int|
                    #![trigger self.items@[j]]
                    0 <= j < i ==> self.items@[j].key() == before[j].key() && self.items@[j]@ == (
                    if before[j].key().0 == run_id@ {
                        closed_thought(before[j]@, at_ms)
                    } else {
                        before[j]@
                    }),
                forall|j: int| i <= j < before.len() ==> self.items@[j] == #[trigger] before[j],
            decreases self.items.len() - i,
        {
            assert(self.items@[i as int] == before[i as int]);
            if !self.items[i].closed && same_text(self.items[i].id.run_id.as_str(), run_id) {
                let mut item: ReasoningItem = self.items[i].clone();
                if at_ms > item.ended_at_ms {
                    item.ended_at_ms = at_ms;
                }
                item.closed = true;
                self.items.set(i, item);
            }
            i += 1;
        }
        proof {
            let now = self.items@;
            assert forall|i: int, j: int| 0 <= i < j < now.len() implies (
            #[trigger] now[i]).key() != (#[trigger] now[j]).key() by {
                assert(now[i].key() == before[i].key());
                assert(now[j].key() == before[j].key());
            }
            let wanted = closed_run(item_map(before), run_id@, at_ms);
            assert forall|key: ItemKey| item_map(now).dom().contains(key) == wanted.dom().contains(
                key,
            ) by {
                if item_map(now).dom().contains(key) {
                    let i = choose|i: int| item_at(now, key, i);
                    assert(item_at(before, key, i));
                }
                if item_map(before).dom().contains(key) {
                    let i = choose|i: int| item_at(before, key, i);
                    assert(now[i].key() == before[i].key());
                    assert(item_at(now, key, i));
                }
            }
            assert forall|key: ItemKey| item_map(now).dom().contains(key) implies item_map(now)[key]
                == wanted[key] by {
                let i = choose|i: int| item_at(now, key, i);
                item_is_mapped(now, i);
                item_is_mapped(before, i);
            }
            assert(item_map(now) =~= wanted);
        }
    }

    /// Folds one run event in, returning whether it is thinking. Every other event ends whatever
    /// thinking its run still has open, because that is what the agent moving on looks like.
    pub fn absorb(&mut self, run_id: &str, event: &ProviderEvent, sequence: u64, at_ms: u64) -> (
    result: bool)
        requires
            old(self).wf(),
        ensures
            final(self).wf(),
            result == is_reasoning(*event),
            final(self)@ == absorbed(old(self)@, run_id@, *event, sequence, at_ms),
    {
        match event {
            ProviderEvent::ItemReasoningTextDelta { item_id, delta } => {
                self.stream(run_id, item_id.as_str(), delta.as_str(), sequence, at_ms);
                true
            },
            ProviderEvent::ItemReasoningSummaryTextDelta { item_id, delta } => {
                self.stream(run_id, item_id.as_str(), delta.as_str(), sequence, at_ms);
                true
            },
            ProviderEvent::ItemCompleted {
                item: ThreadEventItem::Reasoning { id, summary, content },
            } => {
                let mut item: ReasoningItem = self.entry(run_id, id.as_str(), sequence, at_ms);
                if item.text.as_str().is_empty() {
                    let mut text: String = String::new();
                    append_all(&mut text, summary);
                    append_all(&mut text, content);
                    proof {
                        concatenated_sum(texts(summary@), texts(content@));
                        assert(text@ =~= concatenated(texts(summary@) + texts(content@)));
                    }
                    item.text = text;
                }
                item.end_sequence = sequence;
                item.ended_at_ms = at_ms;
                item.closed = true;
                self.put(item);
                true
            },
            _ => {
                self.close_open_items(run_id, at_ms);
                false
            },
        }
    }

    /// Every thinking item that has something to show, in source order.
    pub fn ordered(&self) -> (result: Vec<ReasoningItem>)
        requires
            self.wf(),
        ensures
            in_source_order(self@, result@),
    {
        let mut listed: Vec<ReasoningItem> = Vec::new();
        let ghost items = self.items@;
        let mut i: usize = 0;
        while i < self.items.len()
            invariant
                items == self.items@,
                distinct_items(items),
                i <= items.len(),
                listing(items, i as int, listed@),
            decreases items.len() - i,
        {
            let item: &ReasoningItem = &self.items[i];
            if item.is_reportable() {
                let mut at: usize = listed.len();
                while at > 0 && stands_after(&listed[at - 1], item)
                    invariant
                        at <= listed@.len(),
                        forall|j: int|
                            at <= j < listed@.len() ==> !not_after(#[trigger] listed@[j], *item),
                    decreases at,
                {
                    at -= 1;
                }
                proof {
                    list_one(items, i as int, listed@, at as int);
                }
                listed.insert(at, item.clone());
            } else {
                proof {
                    skip_one(items, i as int, listed@);
                }
            }
            i += 1;
        }
        proof {
            assert forall|k: int| 0 <= k < listed@.len() implies self@.dom().contains(
                (#[trigger] listed@[k]).key(),
            ) && self@[listed@[k].key()] == listed@[k]@ && listed@[k]@.reportable() by {
                let m = choose|m: int| 0 <= m < items.len() && #[trigger] items[m] == listed@[k];
                item_is_mapped(items, m);
            }
            assert forall|key: ItemKey| #[trigger]
                self@.dom().contains(key) && self@[key].reportable() implies exists|k: int|
                item_at(listed@, key, k) by {
                let m = choose|m: int| item_at(items, key, m);
                item_is_mapped(items, m);
                let k = choose|k: int| 0 <= k < listed@.len() && listed@[k] == items[m];
                assert(item_at(listed@, key, k));
            }
        }
        listed
    }

    /// One item, when it streamed anything a row could show.
    pub fn get(&self, run_id: &str, item_id: &str) -> (result: Option<&ReasoningItem>)
        requires
            self.wf(),
        ensures
            match result {
                Some(item) => {
                    &&& item.key() == (run_id@, item_id@)
                    &&& self@.dom().contains((run_id@, item_id@))
                    &&& self@[(run_id@, item_id@)] == item@
                    &&& item@.reportable()
                },
                None => self@.dom().contains((run_id@, item_id@)) ==> !self@[(
                    run_id@,
                    item_id@,
                )].reportable(),
            },
    {
        match self.find(run_id, item_id) {
            Some(i) => {
                proof {
                    item_is_mapped(self.items@, i as int);
                }
                if self.items[i].is_reportable() {
                    Some(&self.items[i])
                } else {
                    None
                }
            },
            None => None,
        }
    }
}

/// Replacing the item of an identity is an insertion.
proof fn put_is_insert(
    before: Seq<ReasoningItem>,
    now: Seq<ReasoningItem>,
    key: ItemKey,
    view: Thought,
    at: int,
)
    requires
        distinct_items(before),
        distinct_items(now),
        item_at(before, key, at),
        now.len() == before.len(),
        now[at].key() == key,
        now[at]@ == view,
        forall|i: int| 0 <= i < now.len() && i != at ==> #[trigger] now[i] == before[i],
    ensures
        item_map(now) == item_map(before).insert(key, view),
{
    let wanted = item_map(before).insert(key, view);
    assert forall|k: ItemKey| item_map(now).dom().contains(k) == wanted.dom().contains(k) by {
        if item_map(now).dom().contains(k) {
            let i = choose|i: int| item_at(now, k, i);
            if i != at {
                assert(item_at(before, k, i));
            }
        }
        if item_map(before).dom().contains(k) {
            let i = choose|i: int| item_at(before, k, i);
            if i != at {
                assert(now[i] == before[i]);
            }
            assert(item_at(now, k, i));
        }
        assert(item_at(now, key, at));
    }
    assert forall|k: ItemKey| item_map(now).dom().contains(k) implies item_map(now)[k]
        == wanted[k] by {
        let i = choose|i: int| item_at(now, k, i);
        item_is_mapped(now, i);
        if i != at {
            item_is_mapped(before, i);
            assert(now[i] == before[i]);
        }
    }
    assert(item_map(now) =~= wanted);
}

/// Adding an item of a new identity is an insertion.
proof fn push_is_insert(
    before: Seq<ReasoningItem>,
    now: Seq<ReasoningItem>,
    key: ItemKey,
    view: Thought,
)
    requires
        distinct_items(before),
        distinct_items(now),
        now.len() == before.len() + 1,
        now.last().key() == key,
        now.last()@ == view,
        forall|i: int| 0 <= i < before.len() ==> #[trigger] now[i] == before[i],
    ensures
        item_map(now) == item_map(before).insert(key, view),
{
    let wanted = item_map(before).insert(key, view);
    let at = now.len() - 1;
    assert forall|k: ItemKey| item_map(now).dom().contains(k) == wanted.dom().contains(k) by {
        if item_map(now).dom().contains(k) {
            let i = choose|i: int| item_at(now, k, i);
            if i != at {
                assert(item_at(before, k, i));
            }
        }
        if item_map(before).dom().contains(k) {
            let i = choose|i: int| item_at(before, k, i);
            assert(now[i] == before[i]);
            assert(item_at(now, k, i));
        }
        assert(item_at(now, key, at));
    }
    assert forall|k: ItemKey| item_map(now).dom().contains(k) implies item_map(now)[k]
        == wanted[k] by {
        let i = choose|i: int| item_at(now, k, i);
        item_is_mapped(now, i);
        if i != at {
            item_is_mapped(before, i);
            assert(now[i] == before[i]);
        }
    }
    assert(item_map(now) =~= wanted);
}

/// The reportable ones among the first items, in source order.
spec fn listing(items: Seq<ReasoningItem>, upto: int, listed: Seq<ReasoningItem>) -> bool {
    &&& distinct_items(listed)
    &&& forall|i: int, j: int|
        0 <= i < j < listed.len() ==> not_after(#[trigger] listed[i], #[trigger] listed[j])
    &&& forall|k: int|
        0 <= k < listed.len() ==> (#[trigger] listed[k])@.reportable() && exists|m: int|
            0 <= m < upto && #[trigger] items[m] == listed[k]
    &&& forall|m: int|
        0 <= m < upto && (#[trigger] items[m])@.reportable() ==> listed.contains(items[m])
}

/// An item that is not reportable is passed over.
proof fn skip_one(items: Seq<ReasoningItem>, upto: int, listed: Seq<ReasoningItem>)
    requires
        0 <= upto < items.len(),
        listing(items, upto, listed),
        !items[upto]@.reportable(),
    ensures
        listing(items, upto + 1, listed),
{
    assert forall|k: int| 0 <= k < listed.len() implies (#[trigger] listed[k])@.reportable()
        && exists|m: int| 0 <= m < upto + 1 && #[trigger] items[m] == listed[k] by {
        let m = choose|m: int| 0 <= m < upto && #[trigger] items[m] == listed[k];
        assert(items[m] == listed[k]);
    }
}

/// A reportable item is put behind those that do not stand after it.
proof fn list_one(items: Seq<ReasoningItem>, upto: int, listed: Seq<ReasoningItem>, at: int)
    requires
        0 <= upto < items.len(),
        distinct_items(items),
        listing(items, upto, listed),
        items[upto]@.reportable(),
        0 <= at <= listed.len(),
        forall|j: int| at <= j < listed.len() ==> !not_after(#[trigger] listed[j], items[upto]),
        at > 0 ==> not_after(listed[at - 1], items[upto]),
    ensures
        listing(items, upto + 1, listed.insert(at, items[upto])),
{
    let next = items[upto];
    let now = listed.insert(at, next);
    assert forall|i: int, j: int| 0 <= i < j < now.len() implies (#[trigger] now[i]).key() != (
    #[trigger] now[j]).key() && not_after(now[i], now[j]) by {
        let a = if i < at {
            i
        } else {
            i - 1
        };
        let b = if j < at {
            j
        } else {
            j - 1
        };
        if i == at {
            assert(now[j] == listed[b]);
            let m = choose|m: int| 0 <= m < upto && #[trigger] items[m] == listed[b];
            assert(items[m].key() != items[upto].key());
            keys_are_ordered(listed[b].key(), next.key());
        } else if j == at {
            assert(now[i] == listed[a]);
            let m = choose|m: int| 0 <= m < upto && #[trigger] items[m] == listed[a];
            assert(items[m].key() != items[upto].key());
            if a < at - 1 {
                assert(not_after(listed[a], listed[at - 1]));
                not_after_transitive(listed[a], listed[at - 1], next);
            }
        } else {
            assert(now[i] == listed[a] && now[j] == listed[b]);
        }
    }
    assert forall|k: int| 0 <= k < now.len() implies (#[trigger] now[k])@.reportable() && exists|
        m: int,
    | 0 <= m < upto + 1 && #[trigger] items[m] == now[k] by {
        if k == at {
            assert(items[upto] == now[k]);
        } else {
            let a = if k < at {
                k
            } else {
                k - 1
            };
            assert(now[k] == listed[a]);
            let m = choose|m: int| 0 <= m < upto && #[trigger] items[m] == listed[a];
            assert(items[m] == now[k]);
        }
    }
    assert forall|m: int| 0 <= m < upto + 1 && (#[trigger] items[m])@.reportable() implies
        now.contains(items[m]) by {
        if m == upto {
            assert(now[at] == items[m]);
        } else {
            let a = choose|a: int| 0 <= a < listed.len() && listed[a] == items[m];
            if a < at {
                assert(now[a] == items[m]);
            } else {
                assert(now[a + 1] == items[m]);
            }
        }
    }
}

/// The timeline row of a thinking item.
pub open spec fn reasoning_tree(
    thread_id: Seq<char>,
    key: ItemKey,
    thought: Thought,
) -> Tree {
    object().field("id"@, Tree::Str(key.0 + "-reasoning-"@ + key.1))
        .field("threadId"@, Tree::Str(thread_id))
        .field("turnId"@, Tree::Str(key.0))
        .field("sourceSeqStart"@, Tree::UInt(thought.start_sequence))
        .field("sourceSeqEnd"@, Tree::UInt(thought.end_sequence))
        .field("startedAt"@, Tree::UInt(thought.started_at_ms))
        .field("createdAt"@, Tree::UInt(thought.ended_at_ms))
        .field("completedAt"@, Tree::UInt(thought.ended_at_ms))
        .field("kind"@, Tree::Str("system"@))
        .field("systemKind"@, Tree::Str("operation"@))
        .field("operationKind"@, Tree::Str("reasoning"@))
        .field("reasoningId"@, Tree::Str(key.1))
        .field("title"@, Tree::Str("Thought for "@ + compact_duration(thought.duration())))
        .field("detail"@, Tree::Str(thought.text))
        .field("status"@, Tree::Str("completed"@))
}

/// The timeline row of a thinking item.
pub fn reasoning_row(thread_id: &str, item: &ReasoningItem) -> (result: Json)
    ensures
        result@ == reasoning_tree(thread_id@, item.key(), item@),
{
    let run_id: &str = item.id.run_id.as_str();
    let item_id: &str = item.id.item_id.as_str();
    Fields::new().with("id", Json::Str(joined3(run_id, "-reasoning-", item_id)))
        .with("threadId", Json::text(thread_id))
        .with("turnId", Json::text(run_id))
        .with("sourceSeqStart", Json::UInt(item.start_sequence))
        .with("sourceSeqEnd", Json::UInt(item.end_sequence))
        .with("startedAt", Json::UInt(item.started_at_ms))
        .with("createdAt", Json::UInt(item.ended_at_ms))
        .with("completedAt", Json::UInt(item.ended_at_ms))
        .with("kind", Json::text("system"))
        .with("systemKind", Json::text("operation"))
        .with("operationKind", Json::text("reasoning"))
        .with("reasoningId", Json::text(item_id))
        .with("title", Json::Str(joined("Thought for ", item.duration_label().as_str())))
        .with("detail", Json::text(item.text.as_str()))
        .with("status", Json::text("completed"))
        .object()
}

/// The rows of every thinking item that has something to show, in source order.
pub fn rows_for(items: &ReasoningTimeline, thread_id: &str) -> (result: Vec<Json>)
    requires
        items.wf(),
    ensures
        exists|listed: Seq<ReasoningItem>| in_source_order(items@, listed),
        forall|listed: Seq<ReasoningItem>|
            #![trigger in_source_order(items@, listed)]
            in_source_order(items@, listed) ==> trees(result@) == Seq::new(
                listed.len(),
                |i: int| reasoning_tree(thread_id@, listed[i].key(), listed[i]@),
            ),
{
    let listed: Vec<ReasoningItem> = items.ordered();
    let mut rows: Vec<Json> = Vec::new();
    for i in 0..listed.len()
        invariant
            rows@.len() == i,
            forall|j: int|
                0 <= j < i ==> (#[trigger] rows@[j])@ == reasoning_tree(
                    thread_id@,
                    listed@[j].key(),
                    listed@[j]@,
                ),
    {
        rows.push(reasoning_row(thread_id, &listed[i]));
    }
    assert(trees(rows@) =~= Seq::new(
        listed@.len(),
        |i: int| reasoning_tree(thread_id@, listed@[i].key(), listed@[i]@),
    ));
    proof {
        assert forall|other: Seq<ReasoningItem>| #[trigger]
            in_source_order(items@, other) implies trees(rows@) == Seq::new(
            other.len(),
            |i: int| reasoning_tree(thread_id@, other[i].key(), other[i]@),
        ) by {
            source_order_is_one(items@, listed@, other);
            assert(trees(rows@) =~= Seq::new(
                other.len(),
                |i: int| reasoning_tree(thread_id@, other[i].key(), other[i]@),
            ));
        }
    }
    rows
}

/// Where two lists are in source order, the first has no item that the second lacks, place by
/// place.
proof fn source_orders_agree(
    items: Map<ItemKey, Thought>,
    a: Seq<ReasoningItem>,
    b: Seq<ReasoningItem>,
    upto: int,
)
    requires
        in_source_order(items, a),
        in_source_order(items, b),
        0 <= upto <= a.len(),
    ensures
        upto <= b.len(),
        forall|i: int| 0 <= i < upto ==> (#[trigger] a[i]).key() == b[i].key(),
    decreases upto,
{
    if upto > 0 {
        let i = upto - 1;
        source_orders_agree(items, a, b, i);
        assert(items.dom().contains(a[i].key()) && items[a[i].key()].reportable());
        let j = choose|j: int| item_at(b, a[i].key(), j);
        assert(b[j].key() == a[i].key() && b[j]@ == a[i]@);
        if j < i {
            assert(a[j].key() == b[j].key());
        }
        if i < j {
            assert(items.dom().contains(b[i].key()) && items[b[i].key()].reportable());
            let k = choose|k: int| item_at(a, b[i].key(), k);
            assert(a[k].key() == b[i].key() && a[k]@ == b[i]@);
            if k < i {
                assert(a[k].key() == b[k].key());
            } else if k > i {
                assert(not_after(a[i], a[k]));
                assert(not_after(b[i], b[j]));
                keys_are_ordered(a[i].key(), a[k].key());
            }
        }
    }
}

/// A timeline has one source order: two lists that are in it show the same items in the same
/// places. So the rows of a timeline follow the list of its items.
pub proof fn source_order_is_one(
    items: Map<ItemKey, Thought>,
    a: Seq<ReasoningItem>,
    b: Seq<ReasoningItem>,
)
    requires
        in_source_order(items, a),
        in_source_order(items, b),
    ensures
        a.len() == b.len(),
        forall|i: int| 0 <= i < a.len() ==> (#[trigger] a[i]).key() == b[i].key() && a[i]@ == b[i]@,
{
    source_orders_agree(items, a, b, a.len() as int);
    source_orders_agree(items, b, a, b.len() as int);
    assert forall|i: int| 0 <= i < a.len() implies (#[trigger] a[i]).key() == b[i].key() && a[i]@
        == b[i]@ by {
        assert(items[a[i].key()] == a[i]@);
        assert(items[b[i].key()] == b[i]@);
    }
}

/// Another run's frames never touch a run's thinking: whatever an event of one run does, the items
/// of every other run stay as they were.
pub proof fn runs_think_apart(
    items: Map<ItemKey, Thought>,
    run_id: Seq<char>,
    event: ProviderEvent,
    sequence: u64,
    at_ms: u64,
    key: ItemKey,
)
    requires
        key.0 != run_id,
    ensures
        absorbed(items, run_id, event, sequence, at_ms).dom().contains(key) == items.dom().contains(
            key,
        ),
        items.dom().contains(key) ==> absorbed(items, run_id, event, sequence, at_ms)[key]
            == items[key],
{
}

/// Once a run moved on, none of its thinking is open, nothing it had thought is lost, and nothing
/// took less time than it was known to take.
pub proof fn moving_on_ends_the_thinking(
    items: Map<ItemKey, Thought>,
    run_id: Seq<char>,
    event: ProviderEvent,
    sequence: u64,
    at_ms: u64,
    key: ItemKey,
)
    requires
        !is_reasoning(event),
        key.0 == run_id,
        items.dom().contains(key),
    ensures
        absorbed(items, run_id, event, sequence, at_ms).dom().contains(key),
        absorbed(items, run_id, event, sequence, at_ms)[key].closed,
        absorbed(items, run_id, event, sequence, at_ms)[key].text == items[key].text,
        absorbed(items, run_id, event, sequence, at_ms)[key].ended_at_ms >= items[key].ended_at_ms,
{
}

/// Thinking only grows: whatever is folded in, every item stays, begins where it began, and says
/// what it said with at most more behind it.
pub proof fn thinking_only_grows(
    items: Map<ItemKey, Thought>,
    run_id: Seq<char>,
    event: ProviderEvent,
    sequence: u64,
    at_ms: u64,
    key: ItemKey,
)
    requires
        items.dom().contains(key),
    ensures
        ({
            let after = absorbed(items, run_id, event, sequence, at_ms);
            &&& after.dom().contains(key)
            &&& items[key].text.is_prefix_of(after[key].text)
            &&& after[key].start_sequence == items[key].start_sequence
            &&& after[key].started_at_ms == items[key].started_at_ms
            &&& items[key].closed ==> after[key].closed
        }),
{
    let after = absorbed(items, run_id, event, sequence, at_ms);
    assert(items[key].text.is_prefix_of(items[key].text));
    assert(after[key].text.take(items[key].text.len() as int) =~= items[key].text);
}

// What thinking shows.

/// A duration is told in milliseconds below a second, else in seconds to the nearest, and from a
/// minute on in hours, minutes and seconds, each where it is not zero.
pub proof fn durations_are_told_compactly(ms: u64, label: String)
    requires
        call_ensures(duration_to_compact_string, (ms,), label),
    ensures
        ms < 1_000 ==> label@ == decimal(ms as nat) + "ms"@,
        1_000 <= ms < 0x20_0000_0000_0000 ==> {
            let total = ((ms + 500) / 1000) as nat;
            let h = total / 3600;
            let m = (total % 3600) / 60;
            let s = total % 60;
            &&& total < 60 ==> label@ == decimal(total) + "s"@
            &&& total >= 60 && h > 0 && m > 0 && s > 0 ==> label@ == decimal(h) + "h"@ + " "@ + decimal(m) + "m"@ + " "@ + decimal(s) + "s"@
            &&& total >= 60 && h > 0 && m > 0 && s == 0 ==> label@ == decimal(h) + "h"@ + " "@ + decimal(m) + "m"@
            &&& total >= 60 && h > 0 && m == 0 && s > 0 ==> label@ == decimal(h) + "h"@ + " "@ + decimal(s) + "s"@
            &&& total >= 60 && h > 0 && m == 0 && s == 0 ==> label@ == decimal(h) + "h"@
            &&& total >= 60 && h == 0 && m > 0 && s > 0 ==> label@ == decimal(m) + "m"@ + " "@ + decimal(s) + "s"@
            &&& total >= 60 && h == 0 && m > 0 && s == 0 ==> label@ == decimal(m) + "m"@
        },
{
    reveal_strlit("h");
    reveal_strlit("m");
    reveal_strlit("s");
    if 1_000 <= ms < 0x20_0000_0000_0000 {
        let total = ((ms + 500) / 1000) as nat;
        let h = total / 3600;
        let m = (total % 3600) / 60;
        assert((decimal(h) + "h"@).len() > 0);
        assert((decimal(m) + "m"@).len() > 0);
        assert((decimal(h) + "h"@ + " "@ + decimal(m) + "m"@).len() > 0);
    }
}

/// The unit that a large number is counted in is the smallest power of two that leaves it below
/// fifty-three bits.
pub proof fn units_leave_fifty_three_bits(n: nat)
    ensures
        1 <= double_unit(n),
        n < double_unit(n) * 0x20_0000_0000_0000,
        double_unit(n) == 1 || double_unit(n) * 0x10_0000_0000_0000 <= n,
    decreases n,
{
    if n >= 0x20_0000_0000_0000 {
        units_leave_fifty_three_bits(n / 2);
    }
}

/// A quotient is rounded to the nearest whole number, and to the even one where two are as near.
pub proof fn quotients_round_to_the_nearest(n: nat, d: nat)
    requires
        d > 0,
    ensures
        2 * (n - round_even(n, d) * d) <= d,
        2 * (round_even(n, d) * d - n) <= d,
        2 * (n - round_even(n, d) * d) == d || 2 * (round_even(n, d) * d - n) == d ==> round_even(n, d) % 2 == 0,
{
    let q = n / d;
    let r = n % d;
    vstd::arithmetic::div_mod::lemma_fundamental_div_mod(n as int, d as int);
    assert(n == d * q + r);
    assert(d * q == q * d) by (nonlinear_arith);
    assert((q + 1) * d == q * d + d) by (nonlinear_arith);
}

/// A thought took from its start to its end, and no time where its end is not behind; it is worth a
/// row where it says something.
pub proof fn thoughts_say_how_long_they_took(
    item: ReasoningItem,
    label: String,
    span: String,
    shown: bool,
)
    requires
        call_ensures(ReasoningItem::duration_label, (&item,), label),
        call_ensures(duration_to_compact_string, ((if item.ended_at_ms > item.started_at_ms { (item.ended_at_ms - item.started_at_ms) as u64 } else { 0 }),), span),
        call_ensures(ReasoningItem::is_reportable, (&item,), shown),
    ensures
        label@ == span@,
        shown <==> !blank(item.text@),
{
}

/// A piece of thinking is put behind what its item said so far, and moves the item's end; the first
/// piece begins the item. An empty piece changes nothing.
pub proof fn thinking_is_absorbed_piece_by_piece(
    timeline: &mut ReasoningTimeline,
    run_id: &str,
    event: ProviderEvent,
    sequence: u64,
    at_ms: u64,
    answer: bool,
    item: Seq<char>,
    piece: Seq<char>,
)
    requires
        call_ensures(ReasoningTimeline::absorb, (timeline, run_id, &event, sequence, at_ms), answer),
        (event matches ProviderEvent::ItemReasoningTextDelta { item_id, delta } && item_id@ == item && delta@ == piece) || (event matches ProviderEvent::ItemReasoningSummaryTextDelta { item_id, delta } && item_id@ == item && delta@ == piece),
    ensures
        answer,
        piece.len() == 0 ==> final(timeline)@ == old(timeline)@,
        piece.len() > 0 ==> {
            let key = (run_id@, item);
            let now = final(timeline)@;
            let old_one = old(timeline)@;
            &&& now.dom().contains(key)
            &&& now[key].end_sequence == sequence
            &&& now[key].ended_at_ms == at_ms
            &&& old_one.dom().contains(key) ==> now[key].text == old_one[key].text + piece && now[key].start_sequence == old_one[key].start_sequence && now[key].started_at_ms == old_one[key].started_at_ms && now[key].closed == old_one[key].closed
            &&& !old_one.dom().contains(key) ==> now[key].text == piece && now[key].start_sequence == sequence && now[key].started_at_ms == at_ms && !now[key].closed
        },
{
    assert(Seq::<char>::empty() + piece =~= piece);
}

/// A thought that is completed is closed where it ends; what it streamed stays, and one that
/// streamed nothing says its summary and its content.
pub proof fn completed_thinking_is_closed(
    timeline: &mut ReasoningTimeline,
    run_id: &str,
    event: ProviderEvent,
    sequence: u64,
    at_ms: u64,
    answer: bool,
)
    requires
        call_ensures(ReasoningTimeline::absorb, (timeline, run_id, &event, sequence, at_ms), answer),
        event matches ProviderEvent::ItemCompleted { item } && item is Reasoning,
    ensures
        answer,
        ({
            let item = event->ItemCompleted_item;
            let key = (run_id@, item->Reasoning_id@);
            let now = final(timeline)@;
            let old_one = old(timeline)@;
            let streamed = old_one.dom().contains(key) && old_one[key].text.len() > 0;
            &&& now.dom().contains(key)
            &&& now[key].closed
            &&& now[key].end_sequence == sequence
            &&& now[key].ended_at_ms == at_ms
            &&& streamed ==> now[key].text == old_one[key].text
            &&& !streamed ==> now[key].text == concatenated(texts(item->summary@) + texts(item->content@))
            &&& old_one.dom().contains(key) ==> now[key].start_sequence == old_one[key].start_sequence && now[key].started_at_ms == old_one[key].started_at_ms
            &&& !old_one.dom().contains(key) ==> now[key].start_sequence == sequence && now[key].started_at_ms == at_ms
        }),
{
}

/// Every other event of a run closes the thoughts of that run that are open, no earlier than they
/// ended, and is no thinking itself.
pub proof fn other_events_end_the_thinking_of_their_run(
    timeline: &mut ReasoningTimeline,
    run_id: &str,
    event: ProviderEvent,
    sequence: u64,
    at_ms: u64,
    answer: bool,
    key: ItemKey,
)
    requires
        call_ensures(ReasoningTimeline::absorb, (timeline, run_id, &event, sequence, at_ms), answer),
        !(event is ItemReasoningTextDelta),
        !(event is ItemReasoningSummaryTextDelta),
        !(event matches ProviderEvent::ItemCompleted { item } && item is Reasoning),
    ensures
        !answer,
        final(timeline)@.dom().contains(key) <==> old(timeline)@.dom().contains(key),
        key.0 != run_id@ && old(timeline)@.dom().contains(key) ==> final(timeline)@[key] == old(timeline)@[key],
        key.0 == run_id@ && old(timeline)@.dom().contains(key) && old(timeline)@[key].closed ==> final(timeline)@[key] == old(timeline)@[key],
        (key.0 == run_id@ && old(timeline)@.dom().contains(key) && !old(timeline)@[key].closed) ==> final(timeline)@[key].closed && final(timeline)@[key].text == old(timeline)@[key].text && final(timeline)@[key].start_sequence == old(timeline)@[key].start_sequence && final(timeline)@[key].end_sequence == old(timeline)@[key].end_sequence && final(timeline)@[key].started_at_ms == old(timeline)@[key].started_at_ms && (at_ms > old(timeline)@[key].ended_at_ms ==> final(timeline)@[key].ended_at_ms == at_ms) && (at_ms <= old(timeline)@[key].ended_at_ms ==> final(timeline)@[key].ended_at_ms == old(timeline)@[key].ended_at_ms),
{
}

/// Texts are put one behind the other.
pub proof fn texts_follow_one_another(pieces: Seq<Seq<char>>, piece: Seq<char>)
    ensures
        concatenated(Seq::empty()) == Seq::<char>::empty(),
        concatenated(pieces.push(piece)) == concatenated(pieces) + piece,
{
    assert(pieces.push(piece).drop_last() =~= pieces);
}

/// The thoughts that say something are listed, each once, by where they begin, then by where they
/// end, then by their run and their item.
pub proof fn thoughts_are_listed_in_order(
    timeline: ReasoningTimeline,
    listed: Vec<ReasoningItem>,
    key: ItemKey,
)
    requires
        call_ensures(ReasoningTimeline::ordered, (&timeline,), listed),
    ensures
        timeline@.dom().contains(key) && !blank(timeline@[key].text) ==> exists|i: int| 0 <= i < listed@.len() && (#[trigger] listed@[i]).key() == key,
        forall|i: int| 0 <= i < listed@.len() ==> timeline@.dom().contains((#[trigger] listed@[i]).key()) && timeline@[listed@[i].key()] == listed@[i]@ && !blank(listed@[i].text@),
        forall|i: int, j: int| 0 <= i < j < listed@.len() ==> (#[trigger] listed@[i]).start_sequence <= (#[trigger] listed@[j]).start_sequence,
        forall|i: int, j: int| 0 <= i < j < listed@.len() && (#[trigger] listed@[i]).start_sequence == (#[trigger] listed@[j]).start_sequence ==> listed@[i].end_sequence <= listed@[j].end_sequence,
        forall|i: int, j: int| 0 <= i < j < listed@.len() ==> (#[trigger] listed@[i]).key() != (#[trigger] listed@[j]).key(),
{
    if timeline@.dom().contains(key) && !blank(timeline@[key].text) {
        assert(timeline@[key].reportable());
        let i = choose|i: int| item_at(listed@, key, i);
        assert(listed@[i].key() == key);
    }
    assert forall|i: int, j: int| 0 <= i < j < listed@.len() implies (
    #[trigger] listed@[i]).start_sequence <= (#[trigger] listed@[j]).start_sequence by {
        assert(not_after(listed@[i], listed@[j]));
    }
    assert forall|i: int, j: int|
        0 <= i < j < listed@.len() && (#[trigger] listed@[i]).start_sequence == (
        #[trigger] listed@[j]).start_sequence implies listed@[i].end_sequence
        <= listed@[j].end_sequence by {
        assert(not_after(listed@[i], listed@[j]));
    }
}

/// A thought is found by its run and its item exactly where it says something.
pub proof fn thoughts_are_found_by_run_and_item(
    timeline: ReasoningTimeline,
    run_id: &str,
    item_id: &str,
    found: Option<&ReasoningItem>,
)
    requires
        call_ensures(ReasoningTimeline::get, (&timeline, run_id, item_id), found),
    ensures
        found is Some <==> timeline@.dom().contains((run_id@, item_id@)) && !blank(timeline@[(run_id@, item_id@)].text),
        found matches Some(item) ==> item.id.run_id@ == run_id@ && item.id.item_id@ == item_id@ && item@ == timeline@[(run_id@, item_id@)],
{
}

/// The row of a thought shows its run and its item, where it begins and ends, what was thought and
/// how long that took.
#[verifier::rlimit(40)]
pub proof fn thoughts_are_shown(
    thread_id: &str,
    item: ReasoningItem,
    row: Json,
    label: String,
)
    requires
        call_ensures(reasoning_row, (thread_id, &item), row),
        call_ensures(ReasoningItem::duration_label, (&item,), label),
    ensures
        member(row@, "id"@) == Some(Tree::Str(item.id.run_id@ + "-reasoning-"@ + item.id.item_id@)),
        member(row@, "threadId"@) == Some(Tree::Str(thread_id@)),
        member(row@, "turnId"@) == Some(Tree::Str(item.id.run_id@)),
        member(row@, "sourceSeqStart"@) == Some(Tree::UInt(item.start_sequence)),
        member(row@, "sourceSeqEnd"@) == Some(Tree::UInt(item.end_sequence)),
        member(row@, "startedAt"@) == Some(Tree::UInt(item.started_at_ms)),
        member(row@, "createdAt"@) == Some(Tree::UInt(item.ended_at_ms)),
        member(row@, "completedAt"@) == Some(Tree::UInt(item.ended_at_ms)),
        member(row@, "kind"@) == Some(Tree::Str("system"@)),
        member(row@, "systemKind"@) == Some(Tree::Str("operation"@)),
        member(row@, "operationKind"@) == Some(Tree::Str("reasoning"@)),
        member(row@, "reasoningId"@) == Some(Tree::Str(item.id.item_id@)),
        member(row@, "title"@) == Some(Tree::Str("Thought for "@ + label@)),
        member(row@, "detail"@) == Some(Tree::Str(item.text@)),
        member(row@, "status"@) == Some(Tree::Str("completed"@)),
{
    broadcast use {crate::json::member_of_field, crate::reply::errors_say_what_is_wrong};

    reveal_strlit("id");
    reveal_strlit("kind");
    reveal_strlit("title");
    reveal_strlit("detail");
    reveal_strlit("status");
    reveal_strlit("turnId");
    reveal_strlit("threadId");
    reveal_strlit("createdAt");
    reveal_strlit("startedAt");
    reveal_strlit("systemKind");
    reveal_strlit("completedAt");
    reveal_strlit("reasoningId");
    reveal_strlit("sourceSeqEnd");
    reveal_strlit("operationKind");
    reveal_strlit("sourceSeqStart");
    assert("id"@.len() == 2);
    assert("kind"@.len() == 4);
    assert("title"@.len() == 5);
    assert("detail"@.len() == 6 && "detail"@[0] == 'd');
    assert("status"@.len() == 6 && "status"@[0] == 's');
    assert("turnId"@.len() == 6 && "turnId"@[0] == 't');
    assert("threadId"@.len() == 8);
    assert("createdAt"@.len() == 9 && "createdAt"@[0] == 'c');
    assert("startedAt"@.len() == 9 && "startedAt"@[0] == 's');
    assert("systemKind"@.len() == 10);
    assert("completedAt"@.len() == 11 && "completedAt"@[0] == 'c');
    assert("reasoningId"@.len() == 11 && "reasoningId"@[0] == 'r');
    assert("sourceSeqEnd"@.len() == 12);
    assert("operationKind"@.len() == 13);
    assert("sourceSeqStart"@.len() == 14);
}

} // verus!
