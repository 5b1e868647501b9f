//! Task Tracker is the underlying object used to track candle updates: it keeps the latest candle
//! of each product and reports a candle as complete once a candle with a later start arrives
//! for the same product.
//!
//! The tracker holds candles of any type `C`; it orders and finds them by their product id and
//! their start time.

use vstd::prelude::*;

use crate::constants::WEBSOCKET_CANDLE_SECONDS;
use crate::text::same_text;

verus! {

/// A candle received for a product: its start time, in UNIX seconds, and the candle itself.
pub struct CandleUpdate<C> {
    pub product_id: String,
    pub start: u64,
    pub candle: C,
}

/// A candle found complete: the start of the current window, the product and the candle.
pub struct CompletedCandle<C> {
    pub current_start: u64,
    pub product_id: String,
    pub candle: C,
}

/// Whether `i` is the update to act on: the one with the latest start, the first of them when
/// several share it.
pub open spec fn is_newest_update<C>(updates: Seq<CandleUpdate<C>>, i: int) -> bool {
    &&& 0 <= i < updates.len()
    &&& forall|j: int| 0 <= j < updates.len() ==> #[trigger] updates[j].start <= updates[i].start
    &&& forall|j: int| 0 <= j < i ==> #[trigger] updates[j].start < updates[i].start
}

/// The position of the update to act on: the one with the latest start, the first of them when
/// several share it (sorting the updates from the latest start to the oldest, keeping the order
/// of equal ones, brings it first); none when there is no update.
pub fn newest_update<C>(updates: &[CandleUpdate<C>]) -> (r: Option<usize>)
    ensures
        updates@.len() == 0 ==> r is None,
        updates@.len() > 0 ==> (r matches Some(i) && is_newest_update(updates@, i as int)),
{
    let n = updates.len();
    if n == 0 {
        return None;
    }
    let mut best: usize = 0;
    let mut i: usize = 1;
    while i < n
        invariant
            n == updates@.len(),
            1 <= i <= n,
            best < i,
            forall|j: int| 0 <= j < i ==> #[trigger] updates@[j].start <= updates@[best as int].start,
            forall|j: int| 0 <= j < best ==> #[trigger] updates@[j].start < updates@[best as int].start,
        decreases n - i,
    {
        if updates[best].start < updates[i].start {
            best = i;
        }
        i = i + 1;
    }
    Some(best)
}

/// The update to act on is unique: no two positions are each the first with the latest start.
pub proof fn lemma_newest_update_unique<C>(updates: Seq<CandleUpdate<C>>, i: int, j: int)
    requires
        is_newest_update(updates, i),
        is_newest_update(updates, j),
    ensures
        i == j,
{
    if i < j {
        assert(updates[i].start < updates[j].start);
        assert(updates[j].start <= updates[i].start);
    } else if j < i {
        assert(updates[j].start < updates[i].start);
        assert(updates[i].start <= updates[j].start);
    }
}

/// The start of the current window: the current time rounded down to twice the granularity of
/// the candles.
pub open spec fn window_start(now: u64) -> u64 {
    (now - now % ((2 * WEBSOCKET_CANDLE_SECONDS) as u64)) as u64
}

/// The start of the current window for the given current time.
pub fn current_window_start(now: u64) -> (s: u64)
    ensures
        s == window_start(now),
{
    now - now % (WEBSOCKET_CANDLE_SECONDS * 2)
}

/// The candle that a tracker holds for a product.
pub struct TrackedCandle<C> {
    pub product_id: String,
    pub start: u64,
    pub candle: C,
}

/// Tracks the candle watcher task: the most recent candle processed for each product.
pub struct TaskTracker<C> {
    candles: Vec<TrackedCandle<C>>,
}

/// Whether the entries hold a candle for the product.
pub open spec fn tracks<C>(entries: Seq<TrackedCandle<C>>, p: Seq<char>) -> bool {
    exists|i: int| 0 <= i < entries.len() && (#[trigger] entries[i]).product_id@ == p
}

/// Whether no two entries are for the same product.
pub open spec fn distinct_products<C>(entries: Seq<TrackedCandle<C>>) -> bool {
    forall|i: int, j: int|
        0 <= i < j < entries.len() ==> (#[trigger] entries[i]).product_id@ != (
        #[trigger] entries[j]).product_id@
}

/// The position of the entry of a product.
pub open spec fn position<C>(entries: Seq<TrackedCandle<C>>, p: Seq<char>) -> int {
    choose|i: int| 0 <= i < entries.len() && (#[trigger] entries[i]).product_id@ == p
}

/// The start and the candle held for each product by the entries.
pub open spec fn held_of<C>(entries: Seq<TrackedCandle<C>>) -> Map<Seq<char>, (u64, C)> {
    Map::new(
        |p: Seq<char>| tracks(entries, p),
        |p: Seq<char>| (entries[position(entries, p)].start, entries[position(entries, p)].candle),
    )
}

/// Among entries for distinct products, the entry of a product is the one found for it.
proof fn lemma_position<C>(entries: Seq<TrackedCandle<C>>, i: int)
    requires
        distinct_products(entries),
        0 <= i < entries.len(),
    ensures
        position(entries, entries[i].product_id@) == i,
{
    let p = entries[i].product_id@;
    assert(tracks(entries, p));
    let k = position(entries, p);
    if k != i {
        if k < i {
            assert(entries[k].product_id@ != entries[i].product_id@);
        } else {
            assert(entries[i].product_id@ != entries[k].product_id@);
        }
    }
}

/// Replacing the entry of a product keeps the products distinct, and holds the new candle for
/// it and the same candles for the others.
proof fn lemma_held_update<C>(entries: Seq<TrackedCandle<C>>, i: int, e: TrackedCandle<C>)
    requires
        distinct_products(entries),
        0 <= i < entries.len(),
        e.product_id@ == entries[i].product_id@,
    ensures
        distinct_products(entries.update(i, e)),
        held_of(entries.update(i, e)) == held_of(entries).insert(e.product_id@, (e.start, e.candle)),
{
    let after = entries.update(i, e);
    assert forall|a: int, b: int| 0 <= a < b < after.len() implies (#[trigger] after[a]).product_id@
        != (#[trigger] after[b]).product_id@ by {
        assert(entries[a].product_id@ != entries[b].product_id@);
    }
    let target = held_of(entries).insert(e.product_id@, (e.start, e.candle));
    assert forall|p: Seq<char>| #[trigger] held_of(after).contains_key(p) == target.contains_key(p) by {
        if tracks(after, p) {
            let k = choose|k: int| 0 <= k < after.len() && (#[trigger] after[k]).product_id@ == p;
            if k != i {
                assert(entries[k].product_id@ == p);
            }
        }
        if tracks(entries, p) {
            let k = choose|k: int| 0 <= k < entries.len() && (#[trigger] entries[k]).product_id@ == p;
            assert(after[k].product_id@ == p);
        }
    }
    assert forall|p: Seq<char>| #[trigger] held_of(after).contains_key(p) implies held_of(after)[p]
        == target[p] by {
        let k = choose|k: int| 0 <= k < after.len() && (#[trigger] after[k]).product_id@ == p;
        lemma_position(after, k);
        if k != i {
            assert(entries[k] == after[k]);
            lemma_position(entries, k);
        }
    }
    assert(held_of(after) =~= target);
}

/// Adding the entry of a product not held yet keeps the products distinct, and holds its candle
/// as well as the others.
proof fn lemma_held_push<C>(entries: Seq<TrackedCandle<C>>, e: TrackedCandle<C>)
    requires
        distinct_products(entries),
        !tracks(entries, e.product_id@),
    ensures
        distinct_products(entries.push(e)),
        held_of(entries.push(e)) == held_of(entries).insert(e.product_id@, (e.start, e.candle)),
{
    let after = entries.push(e);
    let n = entries.len() as int;
    assert forall|a: int, b: int| 0 <= a < b < after.len() implies (#[trigger] after[a]).product_id@
        != (#[trigger] after[b]).product_id@ by {
        if b == n {
            assert(entries[a].product_id@ != e.product_id@);
        } else {
            assert(entries[a].product_id@ != entries[b].product_id@);
        }
    }
    let target = held_of(entries).insert(e.product_id@, (e.start, e.candle));
    assert forall|p: Seq<char>| #[trigger] held_of(after).contains_key(p) == target.contains_key(p) by {
        if tracks(after, p) {
            let k = choose|k: int| 0 <= k < after.len() && (#[trigger] after[k]).product_id@ == p;
            if k != n {
                assert(entries[k].product_id@ == p);
            }
        }
        if tracks(entries, p) {
            let k = choose|k: int| 0 <= k < entries.len() && (#[trigger] entries[k]).product_id@ == p;
            assert(after[k].product_id@ == p);
        }
        if p == e.product_id@ {
            assert(after[n].product_id@ == p);
        }
    }
    assert forall|p: Seq<char>| #[trigger] held_of(after).contains_key(p) implies held_of(after)[p]
        == target[p] by {
        let k = choose|k: int| 0 <= k < after.len() && (#[trigger] after[k]).product_id@ == p;
        lemma_position(after, k);
        if k != n {
            assert(entries[k] == after[k]);
            lemma_position(entries, k);
        }
    }
    assert(held_of(after) =~= target);
}

/// The outcome of receiving a candle for a product: the candles held after it, and the candle
/// found complete, if any. The new candle always becomes the product's candle; the candle it
/// replaces is complete when it started earlier.
pub open spec fn check_outcome<C>(
    held: Map<Seq<char>, (u64, C)>,
    product_id: Seq<char>,
    start: u64,
    candle: C,
) -> (Map<Seq<char>, (u64, C)>, Option<C>) {
    (
        held.insert(product_id, (start, candle)),
        if held.contains_key(product_id) && held[product_id].0 < start {
            Some(held[product_id].1)
        } else {
            None
        },
    )
}

/// Whether acting on update `i` of a message, at time `now`, takes the held candles from
/// `before` to `after` and reports `r`: `i` is the newest update, its candle becomes the
/// product's candle, and the candle it completes, if any, is reported with the start of the
/// current window and the product.
pub open spec fn acts_on<C>(
    before: Map<Seq<char>, (u64, C)>,
    after: Map<Seq<char>, (u64, C)>,
    updates: Seq<CandleUpdate<C>>,
    i: int,
    now: u64,
    r: Option<CompletedCandle<C>>,
) -> bool {
    &&& is_newest_update(updates, i)
    &&& after == check_outcome(before, updates[i].product_id@, updates[i].start, updates[i].candle).0
    &&& match check_outcome(before, updates[i].product_id@, updates[i].start, updates[i].candle).1 {
        Some(c) => r matches Some(done) && done.current_start == window_start(now)
            && done.product_id@ == updates[i].product_id@ && done.candle == c,
        None => r is None,
    }
}

impl<C> View for TaskTracker<C> {
    type V = Map<Seq<char>, (u64, C)>;

    /// The start and the candle held for each product.
    closed spec fn view(&self) -> Map<Seq<char>, (u64, C)> {
        held_of(self.candles@)
    }
}

impl<C> TaskTracker<C> {
    #[verifier::type_invariant]
    spec fn inv(self) -> bool {
        distinct_products(self.candles@)
    }

    /// A tracker that holds no candle.
    pub fn new() -> (t: Self)
        ensures
            t@ == Map::<Seq<char>, (u64, C)>::empty(),
    {
        let t = TaskTracker { candles: Vec::new() };
        assert(t@ =~= Map::<Seq<char>, (u64, C)>::empty());
        t
    }

    fn find(&self, product_id: &str) -> (r: Option<usize>)
        ensures
            r matches Some(i) ==> i < self.candles@.len() && self.candles@[i as int].product_id@
                == product_id@,
            r is None ==> !tracks(self.candles@, product_id@),
    {
        let n = self.candles.len();
        let mut i: usize = 0;
        while i < n
            invariant
                n == self.candles@.len(),
                0 <= i <= n,
                forall|j: int| 0 <= j < i ==> (#[trigger] self.candles@[j]).product_id@ != product_id@,
            decreases n - i,
        {
            if same_text(self.candles[i].product_id.as_str(), product_id) {
                return Some(i);
            }
            i = i + 1;
        }
        None
    }

    /// Keeps the new candle as the product's candle and returns the candle it replaces when that
    /// one is complete: when it started before the new one.
    pub fn check_candle(&mut self, product_id: &str, start: u64, candle: C) -> (r: Option<C>)
        ensures
            (final(self)@, r) == check_outcome(old(self)@, product_id@, start, candle),
    {
        proof {
            use_type_invariant(&*self);
        }
        let ghost old_entries = self.candles@;
        let entry = TrackedCandle { product_id: String::from_str(product_id), start, candle };
        match self.find(product_id) {
            Some(i) => {
                let mut entries: Vec<TrackedCandle<C>> = Vec::new();
                std::mem::swap(&mut entries, &mut self.candles);
                let previous = entries.remove(i);
                entries.insert(i, entry);
                proof {
                    assert(entries@ =~= old_entries.update(i as int, entry));
                    lemma_position(old_entries, i as int);
                    lemma_held_update(old_entries, i as int, entry);
                }
                self.candles = entries;
                if previous.start < start {
                    Some(previous.candle)
                } else {
                    None
                }
            },
            None => {
                let mut entries: Vec<TrackedCandle<C>> = Vec::new();
                std::mem::swap(&mut entries, &mut self.candles);
                entries.push(entry);
                proof {
                    lemma_held_push(old_entries, entry);
                }
                self.candles = entries;
                None
            },
        }
    }

    /// Acts on the candle updates of one message, given the current time: the newest update
    /// (the first of those with the latest start) is checked against the product's candle, and
    /// the candle it completes, if any, is reported with the start of the current window. A
    /// message without updates changes nothing.
    pub fn process_updates(&mut self, updates: Vec<CandleUpdate<C>>, now: u64) -> (r: Option<
        CompletedCandle<C>,
    >)
        ensures
            updates@.len() == 0 ==> final(self)@ == old(self)@ && r is None,
            updates@.len() > 0 ==> exists|i: int|
                #[trigger] acts_on(old(self)@, final(self)@, updates@, i, now, r),
    {
        let mut updates = updates;
        match newest_update(updates.as_slice()) {
            None => None,
            Some(i) => {
                let ghost all = updates@;
                let ghost before = self@;
                let update = updates.remove(i);
                assert(update == all[i as int]);
                let CandleUpdate { product_id, start, candle } = update;
                let r = match self.check_candle(product_id.as_str(), start, candle) {
                    Some(c) => Some(
                        CompletedCandle {
                            current_start: current_window_start(now),
                            product_id,
                            candle: c,
                        },
                    ),
                    None => None,
                };
                assert(acts_on(before, self@, all, i as int, now, r));
                r
            },
        }
    }

    /// Acts on the candle updates of one message as `process_updates` does, with the current
    /// time read from the clock; a clock before the UNIX epoch counts as the epoch.
    pub fn message_callback(&mut self, updates: Vec<CandleUpdate<C>>) -> (r: Option<
        CompletedCandle<C>,
    >)
        ensures
            updates@.len() == 0 ==> final(self)@ == old(self)@ && r is None,
            updates@.len() > 0 ==> exists|i: int, now: u64|
                #[trigger] acts_on(old(self)@, final(self)@, updates@, i, now, r),
    {
        let ghost before = self@;
        let ghost all = updates@;
        let now = match crate::time::now() {
            Some(t) => t,
            None => 0,
        };
        let r = self.process_updates(updates, now);
        proof {
            if all.len() > 0 {
                let i = choose|i: int| #[trigger] acts_on(before, self@, all, i, now, r);
                assert(acts_on(before, self@, all, i, now, r));
            }
        }
        r
    }
}

} // verus!
