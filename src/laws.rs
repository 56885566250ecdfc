use vstd::prelude::*;

use crate::events::{legal_transition, AuctionEvent, AuctionStatus, BlockchainEvent};
use crate::store::{lookup, store_step, StoreView};
use crate::sync::{new_auction, status_accepted, SyncOutcome};

verus! {

/// Applying the same event twice leaves the store as applying it once.
pub proof fn lemma_sync_idempotent(v: StoreView, ev: BlockchainEvent)
    ensures
        store_step(store_step(v, ev).1, ev).1 == store_step(v, ev).1,
{
    let v1 = store_step(v, ev).1;
    let v2 = store_step(v1, ev).1;
    match ev {
        BlockchainEvent::Auction(e) => {
            assert(v2.auctions =~= v1.auctions);
        },
        BlockchainEvent::Settlement(e) => {
            assert(v2.auctions =~= v1.auctions);
        },
        BlockchainEvent::Bid(e) => {
            assert(v2.bids =~= v1.bids);
        },
        BlockchainEvent::Claim(e) => {
            assert(v2.claims =~= v1.claims);
        },
    }
}

/// Applies a sequence of events in order.
pub open spec fn apply_all(v: StoreView, evs: Seq<BlockchainEvent>) -> StoreView
    decreases evs.len(),
{
    if evs.len() == 0 {
        v
    } else {
        apply_all(store_step(v, evs[0]).1, evs.drop_first())
    }
}

/// No event lowers a stored bid count or bid volume, nor removes bid totals.
pub proof fn lemma_bid_totals_monotone(v: StoreView, ev: BlockchainEvent, k: Seq<char>)
    requires
        v.bids.contains_key(k),
    ensures
        store_step(v, ev).1.bids.contains_key(k),
        store_step(v, ev).1.bids[k].bid_count >= v.bids[k].bid_count,
        store_step(v, ev).1.bids[k].total_volume >= v.bids[k].total_volume,
{
}

/// Whatever events arrive, in whatever order, stored bid totals never decrease.
pub proof fn lemma_bid_totals_monotone_all(v: StoreView, evs: Seq<BlockchainEvent>, k: Seq<char>)
    requires
        v.bids.contains_key(k),
    ensures
        apply_all(v, evs).bids.contains_key(k),
        apply_all(v, evs).bids[k].bid_count >= v.bids[k].bid_count,
        apply_all(v, evs).bids[k].total_volume >= v.bids[k].total_volume,
    decreases evs.len(),
{
    if evs.len() > 0 {
        lemma_bid_totals_monotone(v, evs[0], k);
        lemma_bid_totals_monotone_all(store_step(v, evs[0]).1, evs.drop_first(), k);
    }
}

/// A stored auction is never removed, and its status changes only along a
/// legal transition.
pub proof fn lemma_status_changes_legal(v: StoreView, ev: BlockchainEvent, k: Seq<char>)
    requires
        v.auctions.contains_key(k),
    ensures
        store_step(v, ev).1.auctions.contains_key(k),
        store_step(v, ev).1.auctions[k].status == v.auctions[k].status || legal_transition(
            v.auctions[k].status,
            store_step(v, ev).1.auctions[k].status,
        ),
{
}

/// An auction event that asks a stored auction for a status change outside
/// the legal transitions leaves its status as it is.
pub proof fn lemma_illegal_transition_keeps_status(v: StoreView, e: AuctionEvent)
    requires
        v.auctions.contains_key(e.auction_id@),
        !legal_transition(v.auctions[e.auction_id@].status, e.status),
    ensures
        store_step(v, BlockchainEvent::Auction(e)).1.auctions[e.auction_id@].status
            == v.auctions[e.auction_id@].status,
{
}

/// An auction event whose status change is not accepted is rejected and
/// changes nothing, whatever else it carries.
pub proof fn lemma_illegal_transition_rejected(v: StoreView, e: AuctionEvent)
    requires
        v.auctions.contains_key(e.auction_id@),
        !status_accepted(v.auctions[e.auction_id@].status, e.status),
    ensures
        store_step(v, BlockchainEvent::Auction(e)).0 == SyncOutcome::RejectedInvalidTransition,
        store_step(v, BlockchainEvent::Auction(e)).1 == v,
{
    assert(store_step(v, BlockchainEvent::Auction(e)).1.auctions =~= v.auctions);
}

/// The first event of an auction with valid prices stores it, in the
/// Created baseline moved on to the event's status where that move is legal.
pub proof fn lemma_first_event_stores_auction(v: StoreView, e: AuctionEvent)
    requires
        !v.auctions.contains_key(e.auction_id@),
        e.reserve_price <= e.start_price,
    ensures
        store_step(v, BlockchainEvent::Auction(e)).1.auctions.contains_key(e.auction_id@),
        store_step(v, BlockchainEvent::Auction(e)).1.auctions[e.auction_id@] == new_auction(e),
        new_auction(e).status == (if e.status == AuctionStatus::Created || legal_transition(
            AuctionStatus::Created,
            e.status,
        ) {
            e.status
        } else {
            AuctionStatus::Created
        }),
{
}

/// A legal status change carried by a valid auction event that is not behind
/// the stored row is applied.
pub proof fn lemma_legal_transition_applied(v: StoreView, e: AuctionEvent)
    requires
        v.auctions.contains_key(e.auction_id@),
        e.reserve_price <= e.start_price,
        legal_transition(v.auctions[e.auction_id@].status, e.status),
        e.block_height >= v.auctions[e.auction_id@].block_height,
    ensures
        store_step(v, BlockchainEvent::Auction(e)).0 == SyncOutcome::Applied,
        store_step(v, BlockchainEvent::Auction(e)).1.auctions[e.auction_id@].status == e.status,
{
    assert(lookup(v.auctions, e.auction_id@) == Some(v.auctions[e.auction_id@]));
}

} // verus!
