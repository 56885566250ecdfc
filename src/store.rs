use vstd::prelude::*;

use crate::events::{AuctionStatus, BlockchainEvent};
use crate::pricing::{price_at, price_view, progress_at, remaining_at, PriceView};
use crate::state::{AuctionRecord, BidAggregate, ClaimRecord};
use crate::sync::{
    auction_step, bid_step, claim_step, decide_auction, decide_bid, decide_claim,
    decide_settlement, settlement_step, SyncOutcome,
};

verus! {

/// The contents of a store: auctions and bid totals keyed by auction id,
/// claims keyed by auction id and user address.
pub struct StoreView {
    pub auctions: Map<Seq<char>, AuctionRecord>,
    pub bids: Map<Seq<char>, BidAggregate>,
    pub claims: Map<(Seq<char>, Seq<char>), ClaimRecord>,
}

pub open spec fn lookup<K, V>(m: Map<K, V>, k: K) -> Option<V> {
    if m.contains_key(k) {
        Some(m[k])
    } else {
        None
    }
}

pub open spec fn write<K, V>(m: Map<K, V>, k: K, w: Option<V>) -> Map<K, V> {
    match w {
        Some(v) => m.insert(k, v),
        None => m,
    }
}

pub open spec fn claim_key(c: ClaimRecord) -> (Seq<char>, Seq<char>) {
    (c.auction_id@, c.user_address@)
}

impl StoreView {
    /// Every row sits under its own key, and every auction row keeps its invariants.
    pub open spec fn wf(&self) -> bool {
        &&& forall|k| #[trigger]
            self.auctions.contains_key(k) ==> self.auctions[k].auction_id@ == k
                && self.auctions[k].wf()
        &&& forall|k| #[trigger]
            self.bids.contains_key(k) ==> self.bids[k].auction_id@ == k
        &&& forall|k| #[trigger] self.claims.contains_key(k) ==> claim_key(self.claims[k]) == k
    }
}

/// The outcome of applying `ev` to a store holding `v`, and what it then holds.
pub open spec fn store_step(v: StoreView, ev: BlockchainEvent) -> (SyncOutcome, StoreView) {
    match ev {
        BlockchainEvent::Auction(e) => {
            let k = e.auction_id@;
            let (o, w) = auction_step(lookup(v.auctions, k), e);
            (o, StoreView { auctions: write(v.auctions, k, w), ..v })
        },
        BlockchainEvent::Settlement(e) => {
            let k = e.auction_id@;
            let (o, w) = settlement_step(lookup(v.auctions, k), e);
            (o, StoreView { auctions: write(v.auctions, k, w), ..v })
        },
        BlockchainEvent::Bid(e) => {
            let k = e.auction_id@;
            let (o, w) = bid_step(lookup(v.bids, k), e);
            (o, StoreView { bids: write(v.bids, k, w), ..v })
        },
        BlockchainEvent::Claim(e) => {
            let k = (e.auction_id@, e.claimer@);
            let (o, w) = claim_step(lookup(v.claims, k), e);
            (o, StoreView { claims: write(v.claims, k, w), ..v })
        },
    }
}

/// The materialized view of the chain: one row per auction, one bid total per
/// auction, one claim per auction and user. Every write is an upsert by key.

/// A row type stored under a key of its own.
pub trait Keyed: Sized {
    type Key;

    type Query;

    spec fn key(&self) -> Self::Key;

    spec fn query_key(q: &Self::Query) -> Self::Key;

    fn has_key(&self, q: &Self::Query) -> (r: bool)
        ensures
            r == (self.key() == Self::query_key(q)),
    ;
}

impl Keyed for AuctionRecord {
    type Key = Seq<char>;

    type Query = String;

    open spec fn key(&self) -> Seq<char> {
        self.auction_id@
    }

    open spec fn query_key(q: &String) -> Seq<char> {
        q@
    }

    fn has_key(&self, q: &String) -> (r: bool) {
        self.auction_id == *q
    }
}

impl Keyed for BidAggregate {
    type Key = Seq<char>;

    type Query = String;

    open spec fn key(&self) -> Seq<char> {
        self.auction_id@
    }

    open spec fn query_key(q: &String) -> Seq<char> {
        q@
    }

    fn has_key(&self, q: &String) -> (r: bool) {
        self.auction_id == *q
    }
}

impl Keyed for ClaimRecord {
    type Key = (Seq<char>, Seq<char>);

    type Query = (String, String);

    open spec fn key(&self) -> (Seq<char>, Seq<char>) {
        claim_key(*self)
    }

    open spec fn query_key(q: &(String, String)) -> (Seq<char>, Seq<char>) {
        (q.0@, q.1@)
    }

    fn has_key(&self, q: &(String, String)) -> (r: bool) {
        self.auction_id == q.0 && self.user_address == q.1
    }
}

/// Rows held in a vector, at most one per key, with the key-to-row map that
/// they stand for.
pub struct Table<R: Keyed> {
    rows: Vec<R>,
    index: Ghost<Map<R::Key, R>>,
}

impl<R: Keyed> Table<R> {
    pub closed spec fn map(&self) -> Map<R::Key, R> {
        self.index@
    }

    pub closed spec fn wf(&self) -> bool {
        &&& forall|i: int|
            0 <= i < self.rows@.len() ==> #[trigger] self.index@.contains_key(self.rows@[i].key())
                && self.index@[self.rows@[i].key()] == self.rows@[i]
        &&& forall|k| #[trigger]
            self.index@.contains_key(k) ==> exists|i: int|
                0 <= i < self.rows@.len() && #[trigger] self.rows@[i].key() == k
        &&& forall|i: int, j: int|
            0 <= i < j < self.rows@.len() ==> #[trigger] self.rows@[i].key()
                != #[trigger] self.rows@[j].key()
    }

    pub fn new() -> (r: Self)
        ensures
            r.wf(),
            r.map() == Map::<R::Key, R>::empty(),
    {
        Table { rows: Vec::new(), index: Ghost(Map::empty()) }
    }

    fn find(&self, q: &R::Query) -> (r: Option<usize>)
        requires
            self.wf(),
        ensures
            match r {
                Some(i) => i < self.rows@.len() && self.rows@[i as int].key() == R::query_key(q),
                None => !self.map().contains_key(R::query_key(q)),
            },
    {
        let mut i: usize = 0;
        while i < self.rows.len()
            invariant
                self.wf(),
                i <= self.rows@.len(),
                forall|j: int| 0 <= j < i ==> self.rows@[j].key() != R::query_key(q),
            decreases self.rows@.len() - i,
        {
            if self.rows[i].has_key(q) {
                return Some(i);
            }
            i = i + 1;
        }
        None
    }

    /// Writes `rec` at `at`, the place of the row with its key, or appends it
    /// when no row has that key.
    fn put(&mut self, at: Option<usize>, rec: R)
        requires
            old(self).wf(),
            match at {
                Some(i) => i < old(self).rows@.len() && old(self).rows@[i as int].key() == rec.key(),
                None => !old(self).map().contains_key(rec.key()),
            },
        ensures
            final(self).wf(),
            final(self).map() == old(self).map().insert(rec.key(), rec),
    {
        let ghost k = rec.key();
        let ghost r = rec;
        self.index = Ghost(self.index@.insert(k, r));
        match at {
            Some(i) => {
                self.rows.set(i, rec);
                assert forall|j: int|
                    0 <= j < self.rows@.len() && j != i implies #[trigger] self.rows@[j].key() != k by {
                    if j < i {
                        assert(old(self).rows@[j].key() != old(self).rows@[i as int].key());
                    } else {
                        assert(old(self).rows@[i as int].key() != old(self).rows@[j].key());
                    }
                }
                assert forall|k2| #[trigger] self.index@.contains_key(k2) implies exists|j: int|
                    0 <= j < self.rows@.len() && #[trigger] self.rows@[j].key() == k2 by {
                    if k2 != k {
                        let j = choose|j: int|
                            0 <= j < old(self).rows@.len() && #[trigger] old(self).rows@[j].key() == k2;
                        assert(self.rows@[j].key() == k2);
                    } else {
                        assert(self.rows@[i as int].key() == k2);
                    }
                }
                assert forall|a: int, b: int|
                    0 <= a < b < self.rows@.len() implies #[trigger] self.rows@[a].key()
                        != #[trigger] self.rows@[b].key() by {
                    if a != i && b != i {
                        assert(old(self).rows@[a].key() != old(self).rows@[b].key());
                    }
                }
            },
            None => {
                self.rows.push(rec);
                assert forall|j: int|
                    0 <= j < old(self).rows@.len() implies #[trigger] self.rows@[j].key() != k by {
                    assert(old(self).index@.contains_key(old(self).rows@[j].key()));
                }
                assert forall|a: int, b: int|
                    0 <= a < b < self.rows@.len() implies #[trigger] self.rows@[a].key()
                        != #[trigger] self.rows@[b].key() by {
                    if b < old(self).rows@.len() {
                        assert(old(self).rows@[a].key() != old(self).rows@[b].key());
                    }
                }
                assert forall|k2| #[trigger] self.index@.contains_key(k2) implies exists|j: int|
                    0 <= j < self.rows@.len() && #[trigger] self.rows@[j].key() == k2 by {
                    if k2 != k {
                        let j = choose|j: int|
                            0 <= j < old(self).rows@.len() && #[trigger] old(self).rows@[j].key() == k2;
                        assert(self.rows@[j].key() == k2);
                    } else {
                        assert(self.rows@[old(self).rows@.len() as int].key() == k2);
                    }
                }
            },
        }
    }
}

/// The materialized view of the chain: one row per auction, one bid total per
/// auction, one claim per auction and user. Every write is an upsert by key.
pub struct Store {
    auctions: Table<AuctionRecord>,
    bids: Table<BidAggregate>,
    claims: Table<ClaimRecord>,
}

impl View for Store {
    type V = StoreView;

    closed spec fn view(&self) -> StoreView {
        StoreView { auctions: self.auctions.map(), bids: self.bids.map(), claims: self.claims.map() }
    }
}

fn copy_auction(a: &AuctionRecord) -> (r: AuctionRecord)
    ensures
        r == *a,
{
    AuctionRecord {
        auction_id: a.auction_id.clone(),
        creator: a.creator.clone(),
        item_name: a.item_name.clone(),
        item_description: match &a.item_description {
            Some(d) => Some(d.clone()),
            None => None,
        },
        total_supply: a.total_supply,
        remaining_supply: a.remaining_supply,
        start_price: a.start_price,
        reserve_price: a.reserve_price,
        clearing_price: a.clearing_price,
        start_time: a.start_time,
        end_time: a.end_time,
        status: a.status,
        block_height: a.block_height,
        created_at: a.created_at,
        updated_at: a.updated_at,
    }
}

fn copy_bid(b: &BidAggregate) -> (r: BidAggregate)
    ensures
        r == *b,
{
    BidAggregate {
        auction_id: b.auction_id.clone(),
        bid_count: b.bid_count,
        total_volume: b.total_volume,
        block_height: b.block_height,
        updated_at: b.updated_at,
    }
}

fn copy_claim(c: &ClaimRecord) -> (r: ClaimRecord)
    ensures
        r == *c,
{
    ClaimRecord {
        auction_id: c.auction_id.clone(),
        user_address: c.user_address.clone(),
        items_claimed: c.items_claimed,
        amount_paid: c.amount_paid,
        refund_amount: c.refund_amount,
        claimed_at: c.claimed_at,
    }
}

impl Store {
    pub closed spec fn wf(&self) -> bool {
        &&& self@.wf()
        &&& self.auctions.wf()
        &&& self.bids.wf()
        &&& self.claims.wf()
    }

    /// An empty store.
    pub fn new() -> (r: Store)
        ensures
            r.wf(),
            r@.wf(),
            r@.auctions == Map::<Seq<char>, AuctionRecord>::empty(),
            r@.bids == Map::<Seq<char>, BidAggregate>::empty(),
            r@.claims == Map::<(Seq<char>, Seq<char>), ClaimRecord>::empty(),
    {
        Store { auctions: Table::new(), bids: Table::new(), claims: Table::new() }
    }

    /// Applies one chain event, as an upsert keyed by the event's natural key.
    pub fn sync_event(&mut self, ev: &BlockchainEvent) -> (r: SyncOutcome)
        requires
            old(self).wf(),
        ensures
            final(self).wf(),
            final(self)@.wf(),
            (r, final(self)@) == store_step(old(self)@, *ev),
    {
        match ev {
            BlockchainEvent::Auction(e) => {
                let at = self.auctions.find(&e.auction_id);
                let (o, w) = match at {
                    Some(i) => decide_auction(Some(&self.auctions.rows[i]), e),
                    None => decide_auction(None, e),
                };
                if let Some(rec) = w {
                    self.auctions.put(at, rec);
                }
                o
            },
            BlockchainEvent::Settlement(e) => {
                let at = self.auctions.find(&e.auction_id);
                let (o, w) = match at {
                    Some(i) => decide_settlement(Some(&self.auctions.rows[i]), e),
                    None => decide_settlement(None, e),
                };
                if let Some(rec) = w {
                    self.auctions.put(at, rec);
                }
                o
            },
            BlockchainEvent::Bid(e) => {
                let at = self.bids.find(&e.auction_id);
                let (o, w) = match at {
                    Some(i) => decide_bid(Some(&self.bids.rows[i]), e),
                    None => decide_bid(None, e),
                };
                if let Some(rec) = w {
                    self.bids.put(at, rec);
                }
                o
            },
            BlockchainEvent::Claim(e) => {
                let at = self.claims.find(&(e.auction_id.clone(), e.claimer.clone()));
                let (o, w) = match at {
                    Some(i) => decide_claim(Some(&self.claims.rows[i]), e),
                    None => decide_claim(None, e),
                };
                if let Some(rec) = w {
                    self.claims.put(at, rec);
                }
                o
            },
        }
    }

    /// The stored row of auction `id`, if any.
    pub fn get_auction(&self, id: &String) -> (r: Option<AuctionRecord>)
        requires
            self.wf(),
        ensures
            r == lookup(self@.auctions, id@),
    {
        match self.auctions.find(id) {
            Some(i) => Some(copy_auction(&self.auctions.rows[i])),
            None => None,
        }
    }

    /// The bid totals of auction `id`; zero totals when none are stored.
    pub fn get_bid_aggregate(&self, id: &String, now: u64) -> (r: BidAggregate)
        requires
            self.wf(),
        ensures
            self@.bids.contains_key(id@) ==> r == self@.bids[id@],
            !self@.bids.contains_key(id@) ==> r.auction_id == *id && r.bid_count == 0
                && r.total_volume == 0 && r.block_height == 0 && r.updated_at == now,
    {
        match self.bids.find(id) {
            Some(i) => copy_bid(&self.bids.rows[i]),
            None => BidAggregate::empty(id, now),
        }
    }

    /// Price, time remaining and progress of auction `id` at `now`; `None`
    /// when the auction is not stored.
    pub fn get_current_price(&self, id: &String, now: u64) -> (r: Option<PriceView>)
        requires
            self.wf(),
        ensures
            r is None <==> !self@.auctions.contains_key(id@),
            r matches Some(p) ==> {
                let a = self@.auctions[id@];
                &&& p.current_price == price_at(
                    a.start_price,
                    a.reserve_price,
                    a.start_time,
                    a.end_time,
                    now,
                )
                &&& p.time_remaining == remaining_at(a.end_time, now)
                &&& p.progress_basis_points == progress_at(a.start_time, a.end_time, now)
            },
    {
        match self.auctions.find(id) {
            Some(i) => {
                assert(self@.auctions.contains_key(self.auctions.rows@[i as int].auction_id@));
                Some(price_view(&self.auctions.rows[i], now))
            },
            None => None,
        }
    }
    /// All stored auctions, or those in status `filter` when one is given,
    /// each once.
    pub fn list_auctions(&self, filter: Option<AuctionStatus>) -> (r: Vec<AuctionRecord>)
        requires
            self.wf(),
        ensures
            forall|i: int|
                0 <= i < r@.len() ==> self@.auctions.contains_key((#[trigger] r@[i]).auction_id@)
                    && self@.auctions[r@[i].auction_id@] == r@[i] && status_matches(
                    filter,
                    r@[i].status,
                ),
            forall|k|
                #![trigger self@.auctions[k]]
                self@.auctions.contains_key(k) && status_matches(filter, self@.auctions[k].status)
                    ==> exists|i: int| 0 <= i < r@.len() && r@[i] == self@.auctions[k],
            forall|i: int, j: int|
                0 <= i < j < r@.len() ==> #[trigger] r@[i].auction_id@ != #[trigger] r@[j].auction_id@,
    {
        let mut r: Vec<AuctionRecord> = Vec::new();
        let ghost mut idx: Seq<int> = Seq::empty();
        let mut n: usize = 0;
        while n < self.auctions.rows.len()
            invariant
                self.wf(),
                n <= self.auctions.rows@.len(),
                idx.len() == r@.len(),
                forall|j: int|
                    0 <= j < idx.len() ==> 0 <= #[trigger] idx[j] < n && r@[j]
                        == self.auctions.rows@[idx[j]],
                forall|j: int| 0 <= j < r@.len() ==> status_matches(filter, (#[trigger] r@[j]).status),
                forall|a: int, b: int| 0 <= a < b < idx.len() ==> #[trigger] idx[a] < #[trigger] idx[b],
                forall|m: int|
                    0 <= m < n && status_matches(filter, #[trigger] self.auctions.rows@[m].status)
                        ==> exists|j: int| 0 <= j < idx.len() && idx[j] == m,
            decreases self.auctions.rows@.len() - n,
        {
            if status_filter_matches(filter, self.auctions.rows[n].status) {
                let ghost r0 = r@;
                let ghost idx0 = idx;
                assert(status_matches(filter, self.auctions.rows@[n as int].status));
                r.push(copy_auction(&self.auctions.rows[n]));
                proof {
                    assert(r@[r@.len() - 1] == self.auctions.rows@[n as int]);
                    idx = idx.push(n as int);
                    assert(idx[idx.len() - 1] == n);
                    assert forall|j: int| 0 <= j < idx.len() implies 0 <= idx[j] <= n && r@[j] == self.auctions.rows@[idx[j]] && status_matches(filter, r@[j].status) by {
                        if j < idx0.len() {
                            assert(r@[j] == r0[j]);
                            assert(idx[j] == idx0[j]);
                        }
                    }
                    assert forall|m: int| 0 <= m < n && status_matches(filter, self.auctions.rows@[m].status) implies exists|j: int|
                        0 <= j < idx.len() && idx[j] == m by {
                        let j = choose|j: int| 0 <= j < idx0.len() && idx0[j] == m;
                        assert(idx[j] == m);
                    }
                }
            }
            n = n + 1;
        }
        assert forall|i: int, j: int| 0 <= i < j < r@.len() implies #[trigger] r@[i].auction_id@
            != #[trigger] r@[j].auction_id@ by {
            assert(idx[i] < idx[j]);
            assert(self.auctions.rows@[idx[i]].key() != self.auctions.rows@[idx[j]].key());
        }
        assert forall|k|
            #![trigger self@.auctions[k]]
            self@.auctions.contains_key(k) && status_matches(filter, self@.auctions[k].status)
                implies exists|i: int| 0 <= i < r@.len() && r@[i] == self@.auctions[k] by {
            let m = choose|m: int| 0 <= m < self.auctions.rows@.len() && #[trigger] self.auctions.rows@[m].key() == k;
            assert(self.auctions.index@.contains_key(self.auctions.rows@[m].key()));
            let j = choose|j: int| 0 <= j < idx.len() && idx[j] == m;
            assert(r@[j] == self@.auctions[k]);
        }
        assert forall|i: int| 0 <= i < r@.len() implies self@.auctions.contains_key((#[trigger] r@[i]).auction_id@)
            && self@.auctions[r@[i].auction_id@] == r@[i] && status_matches(filter, r@[i].status) by {
            assert(self.auctions.index@.contains_key(self.auctions.rows@[idx[i]].key()));
        }
        r
    }

    /// The claims of user `user`, each once.
    pub fn list_claims(&self, user: &String) -> (r: Vec<ClaimRecord>)
        requires
            self.wf(),
        ensures
            forall|i: int|
                0 <= i < r@.len() ==> self@.claims.contains_key(claim_key(#[trigger] r@[i]))
                    && self@.claims[claim_key(r@[i])] == r@[i] && r@[i].user_address@ == user@,
            forall|k: (Seq<char>, Seq<char>)|
                #![trigger self@.claims[k]]
                self@.claims.contains_key(k) && k.1 == user@ ==> exists|i: int|
                    0 <= i < r@.len() && r@[i] == self@.claims[k],
            forall|i: int, j: int|
                0 <= i < j < r@.len() ==> #[trigger] claim_key(r@[i]) != #[trigger] claim_key(r@[j]),
    {
        let mut r: Vec<ClaimRecord> = Vec::new();
        let ghost mut idx: Seq<int> = Seq::empty();
        let mut n: usize = 0;
        while n < self.claims.rows.len()
            invariant
                self.wf(),
                n <= self.claims.rows@.len(),
                idx.len() == r@.len(),
                forall|j: int|
                    0 <= j < idx.len() ==> 0 <= #[trigger] idx[j] < n && r@[j] == self.claims.rows@[idx[j]]
                        && r@[j].user_address@ == user@,
                forall|a: int, b: int| 0 <= a < b < idx.len() ==> #[trigger] idx[a] < #[trigger] idx[b],
                forall|m: int|
                    0 <= m < n && (#[trigger] self.claims.rows@[m]).user_address@ == user@ ==> exists|j: int|
                        0 <= j < idx.len() && idx[j] == m,
            decreases self.claims.rows@.len() - n,
        {
            if self.claims.rows[n].user_address == *user {
                let ghost r0 = r@;
                let ghost idx0 = idx;
                r.push(copy_claim(&self.claims.rows[n]));
                proof {
                    idx = idx.push(n as int);
                    assert(idx[idx.len() - 1] == n);
                    assert forall|j: int| 0 <= j < idx.len() implies 0 <= idx[j] <= n && r@[j] == self.claims.rows@[idx[j]] && r@[j].user_address@ == user@ by {
                        if j < idx0.len() {
                            assert(r@[j] == r0[j]);
                            assert(idx[j] == idx0[j]);
                        }
                    }
                    assert forall|m: int| 0 <= m < n && self.claims.rows@[m].user_address@ == user@ implies exists|j: int|
                        0 <= j < idx.len() && idx[j] == m by {
                        let j = choose|j: int| 0 <= j < idx0.len() && idx0[j] == m;
                        assert(idx[j] == m);
                    }
                }
            }
            n = n + 1;
        }
        assert forall|i: int, j: int| 0 <= i < j < r@.len() implies #[trigger] claim_key(r@[i])
            != #[trigger] claim_key(r@[j]) by {
            assert(idx[i] < idx[j]);
            assert(self.claims.rows@[idx[i]].key() != self.claims.rows@[idx[j]].key());
        }
        assert forall|k: (Seq<char>, Seq<char>)|
            #![trigger self@.claims[k]]
            self@.claims.contains_key(k) && k.1 == user@ implies exists|i: int|
                0 <= i < r@.len() && r@[i] == self@.claims[k] by {
            let m = choose|m: int| 0 <= m < self.claims.rows@.len() && #[trigger] self.claims.rows@[m].key() == k;
            assert(self.claims.index@.contains_key(self.claims.rows@[m].key()));
            let j = choose|j: int| 0 <= j < idx.len() && idx[j] == m;
            assert(r@[j] == self@.claims[k]);
        }
        assert forall|i: int| 0 <= i < r@.len() implies self@.claims.contains_key(claim_key(#[trigger] r@[i]))
            && self@.claims[claim_key(r@[i])] == r@[i] && r@[i].user_address@ == user@ by {
            assert(self.claims.index@.contains_key(self.claims.rows@[idx[i]].key()));
        }
        r
    }
}

/// Whether a row in status `s` passes the optional status filter.
pub open spec fn status_matches(filter: Option<AuctionStatus>, s: AuctionStatus) -> bool {
    match filter {
        Some(f) => f == s,
        None => true,
    }
}

fn status_filter_matches(filter: Option<AuctionStatus>, s: AuctionStatus) -> (r: bool)
    ensures
        r == status_matches(filter, s),
{
    match filter {
        Some(f) => f == s,
        None => true,
    }
}

} // verus!
