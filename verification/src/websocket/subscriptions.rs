//! The subscriptions that a WebSocket client holds, by endpoint and channel, so that they can be
//! sent again after a reconnection.

use vstd::prelude::*;

use crate::models::websocket::{Channel, EndpointType};
use crate::text::copy_texts;

verus! {

/// The texts held by a list of strings.
pub open spec fn texts(v: Seq<String>) -> Seq<Seq<char>> {
    v.map_values(|s: String| s@)
}

/// The product ids of a channel after subscribing to `added`: a channel seen for the first time
/// gets `added` as it is; otherwise each id of `added` that the channel did not hold before is
/// appended, in the order of `added`.
pub open spec fn merged(existing: Option<Seq<Seq<char>>>, added: Seq<Seq<char>>) -> Seq<Seq<char>> {
    match existing {
        None => added,
        Some(ids) => ids + added.filter(|x: Seq<char>| !ids.contains(x)),
    }
}

/// The product ids of a channel after unsubscribing from `removed`: those not in `removed`, in
/// their order.
pub open spec fn without(ids: Seq<Seq<char>>, removed: Seq<Seq<char>>) -> Seq<Seq<char>> {
    ids.filter(|x: Seq<char>| !removed.contains(x))
}

/// The subscriptions after subscribing `channel` of `endpoint` to `added`.
pub open spec fn after_add(
    m: Map<(EndpointType, Channel), Seq<Seq<char>>>,
    endpoint: EndpointType,
    channel: Channel,
    added: Seq<Seq<char>>,
) -> Map<(EndpointType, Channel), Seq<Seq<char>>> {
    m.insert((endpoint, channel), merged(m.index_opt((endpoint, channel)), added))
}

/// The subscriptions after unsubscribing `channel` of `endpoint` from `removed`; a channel that
/// holds no subscription is left as it is.
pub open spec fn after_remove(
    m: Map<(EndpointType, Channel), Seq<Seq<char>>>,
    endpoint: EndpointType,
    channel: Channel,
    removed: Seq<Seq<char>>,
) -> Map<(EndpointType, Channel), Seq<Seq<char>>> {
    if m.contains_key((endpoint, channel)) {
        m.insert((endpoint, channel), without(m[(endpoint, channel)], removed))
    } else {
        m
    }
}

/// The position of a channel among the channels.
pub open spec fn channel_index(c: Channel) -> int {
    match c {
        Channel::Status => 0,
        Channel::Candles => 1,
        Channel::Ticker => 2,
        Channel::TickerBatch => 3,
        Channel::Level2 => 4,
        Channel::MarketTrades => 5,
        Channel::Heartbeats => 6,
        Channel::User => 7,
        Channel::FuturesBalanceSummary => 8,
        Channel::Subscriptions => 9,
    }
}

/// The position of an endpoint among the endpoints.
pub open spec fn endpoint_index(e: EndpointType) -> int {
    match e {
        EndpointType::Public => 0,
        EndpointType::User => 1,
    }
}

/// The slot that holds the subscriptions of a channel of an endpoint.
pub open spec fn slot(e: EndpointType, c: Channel) -> int {
    endpoint_index(e) * 10 + channel_index(c)
}

/// Distinct channels of distinct endpoints have distinct slots, all below twenty.
proof fn lemma_slot(e1: EndpointType, c1: Channel, e2: EndpointType, c2: Channel)
    ensures
        0 <= slot(e1, c1) < 20,
        slot(e1, c1) == slot(e2, c2) ==> e1 == e2 && c1 == c2,
{
}

fn channel_slot(c: &Channel) -> (i: usize)
    ensures
        i == channel_index(*c),
{
    match c {
        Channel::Status => 0,
        Channel::Candles => 1,
        Channel::Ticker => 2,
        Channel::TickerBatch => 3,
        Channel::Level2 => 4,
        Channel::MarketTrades => 5,
        Channel::Heartbeats => 6,
        Channel::User => 7,
        Channel::FuturesBalanceSummary => 8,
        Channel::Subscriptions => 9,
    }
}

fn channel_at(i: usize) -> (c: Channel)
    requires
        i < 10,
    ensures
        channel_index(c) == i,
{
    if i == 0 {
        Channel::Status
    } else if i == 1 {
        Channel::Candles
    } else if i == 2 {
        Channel::Ticker
    } else if i == 3 {
        Channel::TickerBatch
    } else if i == 4 {
        Channel::Level2
    } else if i == 5 {
        Channel::MarketTrades
    } else if i == 6 {
        Channel::Heartbeats
    } else if i == 7 {
        Channel::User
    } else if i == 8 {
        Channel::FuturesBalanceSummary
    } else {
        Channel::Subscriptions
    }
}

fn slot_index(e: &EndpointType, c: &Channel) -> (i: usize)
    ensures
        i == slot(*e, *c),
{
    let base: usize = match e {
        EndpointType::Public => 0,
        EndpointType::User => 10,
    };
    base + channel_slot(c)
}

/// Whether the first `n` strings of a list hold a text.
fn holds_text(items: &[String], n: usize, t: &String) -> (r: bool)
    requires
        n <= items@.len(),
    ensures
        r == texts(items@).take(n as int).contains(t@),
{
    let mut i: usize = 0;
    while i < n
        invariant
            n <= items@.len(),
            0 <= i <= n,
            forall|j: int| 0 <= j < i ==> items@[j]@ != t@,
        decreases n - i,
    {
        if items[i] == *t {
            assert(texts(items@).take(n as int)[i as int] == t@);
            return true;
        }
        i = i + 1;
    }
    assert(!texts(items@).take(n as int).contains(t@)) by {
        if texts(items@).take(n as int).contains(t@) {
            let j = choose|j: int|
                0 <= j < texts(items@).take(n as int).len() && texts(items@).take(n as int)[j]
                    == t@;
            assert(items@[j]@ == t@);
        }
    }
    false
}

/// One more element of a sequence, taken through a filter.
proof fn lemma_filter_step(s: Seq<Seq<char>>, p: spec_fn(Seq<char>) -> bool, i: int)
    requires
        0 <= i < s.len(),
    ensures
        s.take(i + 1).filter(p) == (if p(s[i]) {
            s.take(i).filter(p).push(s[i])
        } else {
            s.take(i).filter(p)
        }),
{
    reveal(Seq::filter);
    assert(s.take(i + 1).drop_last() =~= s.take(i));
}

/// Appends to `ids` each of `added` that `ids` did not hold before.
fn append_missing(ids: Vec<String>, added: &[String]) -> (r: Vec<String>)
    ensures
        texts(r@) == merged(Some(texts(ids@)), texts(added@)),
{
    let ghost before = texts(ids@);
    let ghost pred = |x: Seq<char>| !before.contains(x);
    let base = ids.len();
    let mut r = ids;
    let n = added.len();
    let mut i: usize = 0;
    while i < n
        invariant
            n == added@.len(),
            0 <= i <= n,
            before == texts(ids@),
            pred == (|x: Seq<char>| !before.contains(x)),
            base == before.len(),
            base <= r@.len(),
            texts(r@) == before + texts(added@).take(i as int).filter(pred),
        decreases n - i,
    {
        proof {
            lemma_filter_step(texts(added@), pred, i as int);
        }
        assert(texts(r@).take(base as int) =~= before);
        let ghost prior = texts(r@);
        if !holds_text(r.as_slice(), base, &added[i]) {
            r.push(added[i].clone());
            assert(texts(r@) =~= prior.push(added@[i as int]@));
            assert(pred(texts(added@)[i as int]));
            assert(texts(r@) =~= before + texts(added@).take(i as int + 1).filter(pred));
        } else {
            assert(texts(r@) =~= before + texts(added@).take(i as int + 1).filter(pred));
        }
        i = i + 1;
    }
    assert(texts(added@).take(n as int) =~= texts(added@));
    r
}

/// Keeps of `ids` those that `removed` does not hold, in their order.
fn retain_missing(ids: Vec<String>, removed: &[String]) -> (r: Vec<String>)
    ensures
        texts(r@) == without(texts(ids@), texts(removed@)),
{
    let ghost gone = texts(removed@);
    let ghost pred = |x: Seq<char>| !gone.contains(x);
    let mut r: Vec<String> = Vec::new();
    let n = ids.len();
    let mut i: usize = 0;
    while i < n
        invariant
            n == ids@.len(),
            0 <= i <= n,
            gone == texts(removed@),
            pred == (|x: Seq<char>| !gone.contains(x)),
            texts(r@) == texts(ids@).take(i as int).filter(pred),
        decreases n - i,
    {
        proof {
            lemma_filter_step(texts(ids@), pred, i as int);
        }
        proof {
            assert(texts(removed@).take(removed@.len() as int) =~= gone);
        }
        let ghost prior = texts(r@);
        if !holds_text(removed, removed.len(), &ids[i]) {
            r.push(ids[i].clone());
            assert(texts(r@) =~= prior.push(ids@[i as int]@));
            assert(pred(texts(ids@)[i as int]));
            assert(texts(r@) =~= texts(ids@).take(i as int + 1).filter(pred));
        } else {
            assert(texts(r@) =~= texts(ids@).take(i as int + 1).filter(pred));
        }
        i = i + 1;
    }
    assert(texts(ids@).take(n as int) =~= texts(ids@));
    r
}

/// The channels of an endpoint that hold subscriptions, with their product ids.
#[derive(Debug, Clone)]
pub struct ChannelSubscription {
    pub channel: Channel,
    pub product_ids: Vec<String>,
}

/// Stores the current subscriptions for each channel for each endpoint.
#[derive(Debug, Clone)]
pub struct WebSocketSubscriptions {
    slots: Vec<Option<Vec<String>>>,
}

impl View for WebSocketSubscriptions {
    type V = Map<(EndpointType, Channel), Seq<Seq<char>>>;

    /// The product ids subscribed to, for each channel of each endpoint that was ever
    /// subscribed to.
    closed spec fn view(&self) -> Map<(EndpointType, Channel), Seq<Seq<char>>> {
        Map::new(
            |k: (EndpointType, Channel)| self.slots@[slot(k.0, k.1)] is Some,
            |k: (EndpointType, Channel)| texts(self.slots@[slot(k.0, k.1)].unwrap()@),
        )
    }
}

impl WebSocketSubscriptions {
    /// Whether the value is well formed: one slot for each channel of each endpoint.
    pub closed spec fn wf(&self) -> bool {
        self.slots@.len() == 20
    }

    /// Create a new `WebSocketSubscriptions`, holding no subscription.
    pub fn new() -> (s: Self)
        ensures
            s.wf(),
            s@ == Map::<(EndpointType, Channel), Seq<Seq<char>>>::empty(),
    {
        let mut slots: Vec<Option<Vec<String>>> = Vec::new();
        let mut i: usize = 0;
        while i < 20
            invariant
                0 <= i <= 20,
                slots@.len() == i,
                forall|j: int| 0 <= j < i ==> slots@[j] is None,
            decreases 20 - i,
        {
            slots.push(None);
            i = i + 1;
        }
        let s = WebSocketSubscriptions { slots };
        assert forall|k: (EndpointType, Channel)| !s@.contains_key(k) by {
            lemma_slot(k.0, k.1, k.0, k.1);
        }
        assert(s@ =~= Map::<(EndpointType, Channel), Seq<Seq<char>>>::empty());
        s
    }

    /// Add subscriptions to the specified channel: a channel seen for the first time holds the
    /// product ids as given; otherwise the ids it did not hold yet are appended.
    pub fn add(&mut self, channel: &Channel, product_ids: &[String], endpoint: &EndpointType)
        requires
            old(self).wf(),
        ensures
            final(self).wf(),
            final(self)@ == after_add(old(self)@, *endpoint, *channel, texts(product_ids@)),
    {
        let i = slot_index(endpoint, channel);
        proof {
            lemma_slot(*endpoint, *channel, *endpoint, *channel);
        }
        let current = self.slots.remove(i);
        let updated = match current {
            None => copy_texts(product_ids),
            Some(ids) => append_missing(ids, product_ids),
        };
        self.slots.insert(i, Some(updated));
        proof {
            assert(self.slots@ =~= old(self).slots@.update(i as int, Some(updated)));
            let target = after_add(old(self)@, *endpoint, *channel, texts(product_ids@));
            assert forall|k: (EndpointType, Channel)|
                #![trigger self@.contains_key(k)]
                #![trigger target.contains_key(k)]
                self@.contains_key(k) == target.contains_key(k) && (self@.contains_key(k)
                    ==> self@[k] == target[k]) by {
                lemma_slot(k.0, k.1, *endpoint, *channel);
            }
            assert(self@ =~= target);
        }
    }

    /// Remove the specified product IDs from the subscriptions of the channel, keeping the others
    /// in their order.
    pub fn remove(&mut self, channel: &Channel, product_ids: &[String], endpoint: &EndpointType)
        requires
            old(self).wf(),
        ensures
            final(self).wf(),
            final(self)@ == after_remove(old(self)@, *endpoint, *channel, texts(product_ids@)),
    {
        let i = slot_index(endpoint, channel);
        proof {
            lemma_slot(*endpoint, *channel, *endpoint, *channel);
        }
        let current = self.slots.remove(i);
        match current {
            None => {
                self.slots.insert(i, None);
                proof {
                    assert(self.slots@ =~= old(self).slots@);
                }
            },
            Some(ids) => {
                let kept = retain_missing(ids, product_ids);
                self.slots.insert(i, Some(kept));
                proof {
                    assert(self.slots@ =~= old(self).slots@.update(i as int, Some(kept)));
                    let target = after_remove(old(self)@, *endpoint, *channel, texts(product_ids@));
                    assert forall|k: (EndpointType, Channel)|
                        #![trigger self@.contains_key(k)]
                        #![trigger target.contains_key(k)]
                        self@.contains_key(k) == target.contains_key(k) && (self@.contains_key(k)
                            ==> self@[k] == target[k]) by {
                        lemma_slot(k.0, k.1, *endpoint, *channel);
                    }
                    assert(self@ =~= target);
                }
            },
        }
    }

    /// Whether any channel of the endpoint holds subscriptions.
    fn has_endpoint(&self, endpoint: &EndpointType) -> (r: bool)
        requires
            self.wf(),
        ensures
            r == exists|c: Channel| self@.contains_key((*endpoint, c)),
    {
        let base: usize = match endpoint {
            EndpointType::Public => 0,
            EndpointType::User => 10,
        };
        let mut j: usize = 0;
        while j < 10
            invariant
                self.wf(),
                0 <= j <= 10,
                base == endpoint_index(*endpoint) * 10,
                forall|c: Channel|
                    channel_index(c) < j ==> !#[trigger] self@.contains_key((*endpoint, c)),
            decreases 10 - j,
        {
            if self.slots[base + j].is_some() {
                let c = channel_at(j);
                assert(self@.contains_key((*endpoint, c)));
                return true;
            }
            j = j + 1;
        }
        assert forall|c: Channel| !#[trigger] self@.contains_key((*endpoint, c)) by {
            lemma_slot(*endpoint, c, *endpoint, c);
        }
        false
    }

    /// The subscriptions of the endpoint: each channel that holds any, once, with its product
    /// ids, in the order of the channels.
    pub fn get(&self, endpoint: &EndpointType) -> (r: Vec<ChannelSubscription>)
        requires
            self.wf(),
        ensures
            forall|i: int|
                0 <= i < r@.len() ==> self@.contains_key((*endpoint, #[trigger] r@[i].channel))
                    && texts(r@[i].product_ids@) == self@[(*endpoint, r@[i].channel)],
            forall|c: Channel|
                #[trigger] self@.contains_key((*endpoint, c)) ==> exists|i: int|
                    0 <= i < r@.len() && #[trigger] r@[i].channel == c,
            forall|i: int, j: int|
                0 <= i < j < r@.len() ==> channel_index(#[trigger] r@[i].channel) < channel_index(
                    #[trigger] r@[j].channel,
                ),
    {
        let base: usize = match endpoint {
            EndpointType::Public => 0,
            EndpointType::User => 10,
        };
        let mut r: Vec<ChannelSubscription> = Vec::new();
        let mut j: usize = 0;
        while j < 10
            invariant
                self.wf(),
                0 <= j <= 10,
                base == endpoint_index(*endpoint) * 10,
                forall|i: int|
                    0 <= i < r@.len() ==> self@.contains_key((*endpoint, #[trigger] r@[i].channel))
                        && texts(r@[i].product_ids@) == self@[(*endpoint, r@[i].channel)]
                        && channel_index(r@[i].channel) < j,
                forall|c: Channel|
                    channel_index(c) < j && #[trigger] self@.contains_key((*endpoint, c))
                        ==> exists|i: int| 0 <= i < r@.len() && #[trigger] r@[i].channel == c,
                forall|i: int, k: int|
                    0 <= i < k < r@.len() ==> channel_index(#[trigger] r@[i].channel)
                        < channel_index(#[trigger] r@[k].channel),
            decreases 10 - j,
        {
            let c = channel_at(j);
            let ghost old_r = r@;
            match &self.slots[base + j] {
                Some(ids) => {
                    let entry = ChannelSubscription { channel: c, product_ids: copy_texts(ids.as_slice()) };
                    assert(self@.contains_key((*endpoint, c)));
                    r.push(entry);
                    assert(r@[r@.len() - 1].channel == c);
                },
                None => {
                    assert(!self@.contains_key((*endpoint, c)));
                },
            }
            assert forall|c2: Channel|
                channel_index(c2) < j + 1 && #[trigger] self@.contains_key((*endpoint, c2))
                    implies exists|i: int| 0 <= i < r@.len() && #[trigger] r@[i].channel == c2 by {
                if channel_index(c2) == j {
                    lemma_slot(*endpoint, c2, *endpoint, c);
                    assert(r@[r@.len() - 1].channel == c2);
                } else {
                    let i = choose|i: int| 0 <= i < old_r.len() && #[trigger] old_r[i].channel == c2;
                    assert(r@[i] == old_r[i]);
                }
            }
            j = j + 1;
        }
        assert forall|c: Channel| #[trigger] self@.contains_key((*endpoint, c)) implies exists|i: int|
            0 <= i < r@.len() && #[trigger] r@[i].channel == c by {
            lemma_slot(*endpoint, c, *endpoint, c);
        }
        r
    }

    /// Obtains all of the endpoints that hold subscriptions, each once.
    pub fn get_keys(&self) -> (r: Vec<EndpointType>)
        requires
            self.wf(),
        ensures
            forall|e: EndpointType|
                r@.contains(e) <==> exists|c: Channel| #[trigger] self@.contains_key((e, c)),
            r@.no_duplicates(),
    {
        let mut r: Vec<EndpointType> = Vec::new();
        if self.has_endpoint(&EndpointType::Public) {
            r.push(EndpointType::Public);
        }
        if self.has_endpoint(&EndpointType::User) {
            r.push(EndpointType::User);
        }
        proof {
            assert forall|e: EndpointType|
                r@.contains(e) <==> exists|c: Channel| #[trigger] self@.contains_key((e, c)) by {
                match e {
                    EndpointType::Public => {
                        if r@.contains(e) {
                            assert(r@[0] == EndpointType::Public);
                        }
                    },
                    EndpointType::User => {
                        if exists|c: Channel| #[trigger] self@.contains_key((e, c)) {
                            assert(r@[r@.len() - 1] == EndpointType::User);
                        }
                    },
                }
            }
        }
        r
    }
}


/// A filter that keeps no element of the sequence gives the empty sequence.
proof fn lemma_filter_none(s: Seq<Seq<char>>, p: spec_fn(Seq<char>) -> bool)
    requires
        forall|i: int| 0 <= i < s.len() ==> !p(#[trigger] s[i]),
    ensures
        s.filter(p) == Seq::<Seq<char>>::empty(),
{
    if s.filter(p).len() > 0 {
        s.lemma_filter_pred(p, 0);
        s.lemma_filter_contains_rev(p, s.filter(p)[0]);
    }
    assert(s.filter(p) =~= Seq::<Seq<char>>::empty());
}

/// After subscribing a channel to product ids, the channel holds each of them, and every other
/// channel holds what it held before.
pub proof fn lemma_add_holds_all(
    m: Map<(EndpointType, Channel), Seq<Seq<char>>>,
    endpoint: EndpointType,
    channel: Channel,
    added: Seq<Seq<char>>,
)
    ensures
        after_add(m, endpoint, channel, added).contains_key((endpoint, channel)),
        forall|i: int|
            0 <= i < added.len() ==> after_add(m, endpoint, channel, added)[(
                endpoint,
                channel,
            )].contains(#[trigger] added[i]),
        forall|k: (EndpointType, Channel)|
            k != (endpoint, channel) ==> (#[trigger] after_add(m, endpoint, channel, added).index_opt(k))
                == m.index_opt(k),
{
    let after = after_add(m, endpoint, channel, added);
    assert forall|i: int| 0 <= i < added.len() implies after[(endpoint, channel)].contains(
        #[trigger] added[i],
    ) by {
        if m.contains_key((endpoint, channel)) {
            let ids = m[(endpoint, channel)];
            let pred = |x: Seq<char>| !ids.contains(x);
            if ids.contains(added[i]) {
                let j = choose|j: int| 0 <= j < ids.len() && ids[j] == added[i];
                assert((ids + added.filter(pred))[j] == added[i]);
            } else {
                added.lemma_filter_contains(pred, i);
                let f = added.filter(pred);
                let j = choose|j: int| 0 <= j < f.len() && f[j] == added[i];
                assert((ids + f)[ids.len() + j] == added[i]);
            }
        } else {
            assert(after[(endpoint, channel)][i] == added[i]);
        }
    }
}

/// Subscribing keeps the product ids that a channel held, first and in their order.
pub proof fn lemma_add_keeps_existing(
    m: Map<(EndpointType, Channel), Seq<Seq<char>>>,
    endpoint: EndpointType,
    channel: Channel,
    added: Seq<Seq<char>>,
)
    requires
        m.contains_key((endpoint, channel)),
    ensures
        after_add(m, endpoint, channel, added)[(endpoint, channel)].take(
            m[(endpoint, channel)].len() as int,
        ) == m[(endpoint, channel)],
{
    let ids = m[(endpoint, channel)];
    let f = added.filter(|x: Seq<char>| !ids.contains(x));
    assert((ids + f).take(ids.len() as int) =~= ids);
}

/// Subscribing twice to the same product ids gives what subscribing once gives.
pub proof fn lemma_add_idempotent(
    m: Map<(EndpointType, Channel), Seq<Seq<char>>>,
    endpoint: EndpointType,
    channel: Channel,
    added: Seq<Seq<char>>,
)
    ensures
        after_add(after_add(m, endpoint, channel, added), endpoint, channel, added) == after_add(
            m,
            endpoint,
            channel,
            added,
        ),
{
    let once = after_add(m, endpoint, channel, added);
    let ids = once[(endpoint, channel)];
    lemma_add_holds_all(m, endpoint, channel, added);
    let pred = |x: Seq<char>| !ids.contains(x);
    assert forall|i: int| 0 <= i < added.len() implies !pred(#[trigger] added[i]) by {
        assert(ids.contains(added[i]));
    }
    lemma_filter_none(added, pred);
    assert(ids + added.filter(pred) =~= ids);
    assert(after_add(once, endpoint, channel, added) =~= once);
}

/// After unsubscribing a channel from product ids, it holds none of them, it still holds every
/// other id it held, and every other channel holds what it held before.
pub proof fn lemma_remove_drops_all(
    m: Map<(EndpointType, Channel), Seq<Seq<char>>>,
    endpoint: EndpointType,
    channel: Channel,
    removed: Seq<Seq<char>>,
)
    requires
        m.contains_key((endpoint, channel)),
    ensures
        forall|i: int|
            0 <= i < removed.len() ==> !after_remove(m, endpoint, channel, removed)[(
                endpoint,
                channel,
            )].contains(#[trigger] removed[i]),
        forall|i: int|
            0 <= i < m[(endpoint, channel)].len() && !removed.contains(
                #[trigger] m[(endpoint, channel)][i],
            ) ==> after_remove(m, endpoint, channel, removed)[(endpoint, channel)].contains(
                m[(endpoint, channel)][i],
            ),
        forall|k: (EndpointType, Channel)|
            k != (endpoint, channel) ==> (#[trigger] after_remove(
                m,
                endpoint,
                channel,
                removed,
            ).index_opt(k)) == m.index_opt(k),
{
    let ids = m[(endpoint, channel)];
    let pred = |x: Seq<char>| !removed.contains(x);
    let kept = ids.filter(pred);
    assert forall|i: int| 0 <= i < removed.len() implies !kept.contains(#[trigger] removed[i]) by {
        if kept.contains(removed[i]) {
            let j = choose|j: int| 0 <= j < kept.len() && kept[j] == removed[i];
            ids.lemma_filter_pred(pred, j);
        }
    }
    assert forall|i: int|
        0 <= i < ids.len() && !removed.contains(#[trigger] ids[i]) implies kept.contains(ids[i]) by {
        ids.lemma_filter_contains(pred, i);
    }
}

/// Subscribing a channel to product ids and then unsubscribing it from the same ids leaves the
/// channel with what it held before, less those ids; a channel seen for the first time is left
/// with none.
pub proof fn lemma_add_then_remove(
    m: Map<(EndpointType, Channel), Seq<Seq<char>>>,
    endpoint: EndpointType,
    channel: Channel,
    ids: Seq<Seq<char>>,
)
    ensures
        after_remove(after_add(m, endpoint, channel, ids), endpoint, channel, ids)[(
            endpoint,
            channel,
        )] == (if m.contains_key((endpoint, channel)) {
            without(m[(endpoint, channel)], ids)
        } else {
            Seq::<Seq<char>>::empty()
        }),
{
    let pred = |x: Seq<char>| !ids.contains(x);
    assert forall|i: int| 0 <= i < ids.len() implies !pred(#[trigger] ids[i]) by {
        assert(ids.contains(ids[i]));
    }
    lemma_filter_none(ids, pred);
    if m.contains_key((endpoint, channel)) {
        let old_ids = m[(endpoint, channel)];
        let f = ids.filter(|x: Seq<char>| !old_ids.contains(x));
        Seq::filter_distributes_over_add(old_ids, f, pred);
        assert forall|i: int| 0 <= i < f.len() implies !pred(#[trigger] f[i]) by {
            ids.lemma_filter_contains_rev(|x: Seq<char>| !old_ids.contains(x), f[i]);
        }
        lemma_filter_none(f, pred);
        assert(old_ids.filter(pred) + f.filter(pred) =~= old_ids.filter(pred));
    }
}

} // verus!
