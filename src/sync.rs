use vstd::prelude::*;

use crate::events::{
    is_terminal, legal_transition, AuctionEvent, AuctionStatus, BidEvent, ClaimEvent,
    SettlementEvent,
};
use crate::state::{AuctionRecord, BidAggregate, ClaimRecord};

verus! {

/// What became of one event.
#[derive(Debug, Clone, Copy, PartialEq, Eq, Structural)]
pub enum SyncOutcome {
    /// The event was applied (or was a repeat that changes nothing).
    Applied,
    /// The event is behind the stored state and was dropped.
    DiscardedStale,
    /// The event asks for a status change that the lifecycle forbids.
    RejectedInvalidTransition,
    /// A claim disagrees with the claim already stored for its key.
    Conflict,
    /// The event refers to an auction that is not stored.
    NotFound,
    /// The event would store an auction whose reserve exceeds its start price.
    InvalidRecord,
}

/// A record accepts an event's status when the change is legal or, for a
/// status that is not terminal, when the status stays as it is.
pub open spec fn status_accepted(from: AuctionStatus, to: AuctionStatus) -> bool {
    legal_transition(from, to) || (from == to && !is_terminal(from))
}

/// The status of a newly stored auction: the Created baseline, moved on to
/// the event's status when that move is accepted from Created.
pub open spec fn first_status(s: AuctionStatus) -> AuctionStatus {
    if status_accepted(AuctionStatus::Created, s) {
        s
    } else {
        AuctionStatus::Created
    }
}

/// The row that the first event of an auction stores.
pub open spec fn new_auction(ev: AuctionEvent) -> AuctionRecord {
    AuctionRecord {
        auction_id: ev.auction_id,
        creator: ev.creator,
        item_name: ev.item_name,
        item_description: None,
        total_supply: ev.total_supply,
        remaining_supply: ev.total_supply,
        start_price: ev.start_price,
        reserve_price: ev.reserve_price,
        clearing_price: None,
        start_time: ev.start_time,
        end_time: ev.end_time,
        status: first_status(ev.status),
        block_height: ev.block_height,
        created_at: ev.timestamp,
        updated_at: ev.timestamp,
    }
}

/// The stored row with supply, prices, timing and status taken from the event.
pub open spec fn updated_auction(a: AuctionRecord, ev: AuctionEvent) -> AuctionRecord {
    AuctionRecord {
        total_supply: ev.total_supply,
        remaining_supply: if a.remaining_supply <= ev.total_supply {
            a.remaining_supply
        } else {
            ev.total_supply
        },
        start_price: ev.start_price,
        reserve_price: ev.reserve_price,
        start_time: ev.start_time,
        end_time: ev.end_time,
        status: ev.status,
        block_height: ev.block_height,
        updated_at: ev.timestamp,
        ..a
    }
}

/// The outcome of an auction event, and the row to write if any. A missing
/// auction is stored from any event with valid prices; for a stored one the
/// status change is judged first, then the prices, then the block height.
pub open spec fn auction_step(cur: Option<AuctionRecord>, ev: AuctionEvent) -> (
    SyncOutcome,
    Option<AuctionRecord>,
) {
    match cur {
        None => if ev.reserve_price > ev.start_price {
            (SyncOutcome::InvalidRecord, None)
        } else if status_accepted(AuctionStatus::Created, ev.status) {
            (SyncOutcome::Applied, Some(new_auction(ev)))
        } else {
            (SyncOutcome::RejectedInvalidTransition, Some(new_auction(ev)))
        },
        Some(a) => if !status_accepted(a.status, ev.status) {
            (SyncOutcome::RejectedInvalidTransition, None)
        } else if ev.reserve_price > ev.start_price {
            (SyncOutcome::InvalidRecord, None)
        } else if ev.block_height < a.block_height {
            (SyncOutcome::DiscardedStale, None)
        } else {
            (SyncOutcome::Applied, Some(updated_auction(a, ev)))
        },
    }
}

pub open spec fn settled_auction(a: AuctionRecord, ev: SettlementEvent) -> AuctionRecord {
    AuctionRecord {
        status: AuctionStatus::Settled,
        clearing_price: Some(ev.clearing_price),
        remaining_supply: if ev.total_sold >= a.remaining_supply {
            0
        } else {
            (a.remaining_supply - ev.total_sold) as u64
        },
        block_height: ev.block_height,
        updated_at: ev.timestamp,
        ..a
    }
}

/// The outcome of a settlement event, and the row to write if any.
pub open spec fn settlement_step(cur: Option<AuctionRecord>, ev: SettlementEvent) -> (
    SyncOutcome,
    Option<AuctionRecord>,
) {
    match cur {
        None => (SyncOutcome::NotFound, None),
        Some(a) => if a.status != AuctionStatus::Active {
            (SyncOutcome::RejectedInvalidTransition, None)
        } else if ev.block_height < a.block_height {
            (SyncOutcome::DiscardedStale, None)
        } else {
            (SyncOutcome::Applied, Some(settled_auction(a, ev)))
        },
    }
}

pub open spec fn new_aggregate(ev: BidEvent) -> BidAggregate {
    BidAggregate {
        auction_id: ev.auction_id,
        bid_count: ev.bid_count,
        total_volume: ev.total_volume,
        block_height: ev.block_height,
        updated_at: ev.timestamp,
    }
}

/// The outcome of a bid-aggregate event, and the row to write if any.
pub open spec fn bid_step(cur: Option<BidAggregate>, ev: BidEvent) -> (
    SyncOutcome,
    Option<BidAggregate>,
) {
    match cur {
        None => (SyncOutcome::Applied, Some(new_aggregate(ev))),
        Some(b) => if ev.bid_count >= b.bid_count && ev.total_volume >= b.total_volume {
            (SyncOutcome::Applied, Some(new_aggregate(ev)))
        } else {
            (SyncOutcome::DiscardedStale, None)
        },
    }
}

pub open spec fn new_claim(ev: ClaimEvent) -> ClaimRecord {
    ClaimRecord {
        auction_id: ev.auction_id,
        user_address: ev.claimer,
        items_claimed: ev.items_claimed,
        amount_paid: ev.amount_paid,
        refund_amount: ev.refund_amount,
        claimed_at: ev.timestamp,
    }
}

pub open spec fn same_claim(c: ClaimRecord, ev: ClaimEvent) -> bool {
    &&& c.items_claimed == ev.items_claimed
    &&& c.amount_paid == ev.amount_paid
    &&& c.refund_amount == ev.refund_amount
}

/// The outcome of a claim event, and the row to write if any.
pub open spec fn claim_step(cur: Option<ClaimRecord>, ev: ClaimEvent) -> (
    SyncOutcome,
    Option<ClaimRecord>,
) {
    match cur {
        None => (SyncOutcome::Applied, Some(new_claim(ev))),
        Some(c) => if same_claim(c, ev) {
            (SyncOutcome::Applied, None)
        } else {
            (SyncOutcome::Conflict, None)
        },
    }
}

pub open spec fn opt_ref<T>(o: Option<&T>) -> Option<T> {
    match o {
        Some(x) => Some(*x),
        None => None,
    }
}

fn clone_opt_string(o: &Option<String>) -> (r: Option<String>)
    ensures
        r == *o,
{
    match o {
        Some(s) => Some(s.clone()),
        None => None,
    }
}

/// Decides an auction event against the stored row of its auction.
pub fn decide_auction(cur: Option<&AuctionRecord>, ev: &AuctionEvent) -> (r: (
    SyncOutcome,
    Option<AuctionRecord>,
))
    ensures
        r == auction_step(opt_ref(cur), *ev),
{
    match cur {
        None => {
            if ev.reserve_price > ev.start_price {
                return (SyncOutcome::InvalidRecord, None);
            }
            let accepted = AuctionStatus::Created.can_transition_to(ev.status)
                || ev.status == AuctionStatus::Created;
            let status = if accepted {
                ev.status
            } else {
                AuctionStatus::Created
            };
            let rec = AuctionRecord {
                auction_id: ev.auction_id.clone(),
                creator: ev.creator.clone(),
                item_name: ev.item_name.clone(),
                item_description: None,
                total_supply: ev.total_supply,
                remaining_supply: ev.total_supply,
                start_price: ev.start_price,
                reserve_price: ev.reserve_price,
                clearing_price: None,
                start_time: ev.start_time,
                end_time: ev.end_time,
                status,
                block_height: ev.block_height,
                created_at: ev.timestamp,
                updated_at: ev.timestamp,
            };
            if accepted {
                (SyncOutcome::Applied, Some(rec))
            } else {
                (SyncOutcome::RejectedInvalidTransition, Some(rec))
            }
        },
        Some(a) => {
            let accepted = a.status.can_transition_to(ev.status) || (a.status == ev.status
                && !a.status.is_terminal());
            if !accepted {
                (SyncOutcome::RejectedInvalidTransition, None)
            } else if ev.reserve_price > ev.start_price {
                (SyncOutcome::InvalidRecord, None)
            } else if ev.block_height < a.block_height {
                (SyncOutcome::DiscardedStale, None)
            } else {
                let remaining = if a.remaining_supply <= ev.total_supply {
                    a.remaining_supply
                } else {
                    ev.total_supply
                };
                let rec = AuctionRecord {
                    auction_id: a.auction_id.clone(),
                    creator: a.creator.clone(),
                    item_name: a.item_name.clone(),
                    item_description: clone_opt_string(&a.item_description),
                    total_supply: ev.total_supply,
                    remaining_supply: remaining,
                    start_price: ev.start_price,
                    reserve_price: ev.reserve_price,
                    clearing_price: a.clearing_price,
                    start_time: ev.start_time,
                    end_time: ev.end_time,
                    status: ev.status,
                    block_height: ev.block_height,
                    created_at: a.created_at,
                    updated_at: ev.timestamp,
                };
                (SyncOutcome::Applied, Some(rec))
            }
        },
    }
}

/// Decides a settlement event against the stored row of its auction.
pub fn decide_settlement(cur: Option<&AuctionRecord>, ev: &SettlementEvent) -> (r: (
    SyncOutcome,
    Option<AuctionRecord>,
))
    ensures
        r == settlement_step(opt_ref(cur), *ev),
{
    match cur {
        None => (SyncOutcome::NotFound, None),
        Some(a) => {
            if a.status != AuctionStatus::Active {
                (SyncOutcome::RejectedInvalidTransition, None)
            } else if ev.block_height < a.block_height {
                (SyncOutcome::DiscardedStale, None)
            } else {
                let remaining = if ev.total_sold >= a.remaining_supply {
                    0
                } else {
                    a.remaining_supply - ev.total_sold
                };
                let rec = AuctionRecord {
                    auction_id: a.auction_id.clone(),
                    creator: a.creator.clone(),
                    item_name: a.item_name.clone(),
                    item_description: clone_opt_string(&a.item_description),
                    total_supply: a.total_supply,
                    remaining_supply: remaining,
                    start_price: a.start_price,
                    reserve_price: a.reserve_price,
                    clearing_price: Some(ev.clearing_price),
                    start_time: a.start_time,
                    end_time: a.end_time,
                    status: AuctionStatus::Settled,
                    block_height: ev.block_height,
                    created_at: a.created_at,
                    updated_at: ev.timestamp,
                };
                (SyncOutcome::Applied, Some(rec))
            }
        },
    }
}

/// Decides a bid-aggregate event against the stored totals of its auction.
pub fn decide_bid(cur: Option<&BidAggregate>, ev: &BidEvent) -> (r: (
    SyncOutcome,
    Option<BidAggregate>,
))
    ensures
        r == bid_step(opt_ref(cur), *ev),
{
    let fresh = match cur {
        None => true,
        Some(b) => ev.bid_count >= b.bid_count && ev.total_volume >= b.total_volume,
    };
    if fresh {
        let rec = BidAggregate {
            auction_id: ev.auction_id.clone(),
            bid_count: ev.bid_count,
            total_volume: ev.total_volume,
            block_height: ev.block_height,
            updated_at: ev.timestamp,
        };
        (SyncOutcome::Applied, Some(rec))
    } else {
        (SyncOutcome::DiscardedStale, None)
    }
}

/// Decides a claim event against the claim stored for its key.
pub fn decide_claim(cur: Option<&ClaimRecord>, ev: &ClaimEvent) -> (r: (
    SyncOutcome,
    Option<ClaimRecord>,
))
    ensures
        r == claim_step(opt_ref(cur), *ev),
{
    match cur {
        None => {
            let rec = ClaimRecord {
                auction_id: ev.auction_id.clone(),
                user_address: ev.claimer.clone(),
                items_claimed: ev.items_claimed,
                amount_paid: ev.amount_paid,
                refund_amount: ev.refund_amount,
                claimed_at: ev.timestamp,
            };
            (SyncOutcome::Applied, Some(rec))
        },
        Some(c) => {
            if c.items_claimed == ev.items_claimed && c.amount_paid == ev.amount_paid
                && c.refund_amount == ev.refund_amount {
                (SyncOutcome::Applied, None)
            } else {
                (SyncOutcome::Conflict, None)
            }
        },
    }
}

} // verus!
