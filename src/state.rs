use vstd::prelude::*;

use crate::events::AuctionStatus;

verus! {

/// The materialized row of one auction. Times are seconds since the Unix epoch.
#[derive(Debug, Clone, PartialEq, Eq)]
pub struct AuctionRecord {
    pub auction_id: String,
    pub creator: String,
    pub item_name: String,
    pub item_description: Option<String>,
    pub total_supply: u64,
    pub remaining_supply: u64,
    pub start_price: u64,
    pub reserve_price: u64,
    pub clearing_price: Option<u64>,
    pub start_time: u64,
    pub end_time: u64,
    pub status: AuctionStatus,
    /// Height of the block whose event last wrote this row.
    pub block_height: u64,
    pub created_at: u64,
    pub updated_at: u64,
}

impl AuctionRecord {
    /// The row invariants: the reserve never exceeds the start price and the
    /// remaining supply never exceeds the total supply.
    pub open spec fn wf(&self) -> bool {
        &&& self.reserve_price <= self.start_price
        &&& self.remaining_supply <= self.total_supply
    }
}

/// Public bid totals of one auction.
#[derive(Debug, Clone, PartialEq, Eq)]
pub struct BidAggregate {
    pub auction_id: String,
    pub bid_count: u64,
    pub total_volume: u64,
    pub block_height: u64,
    pub updated_at: u64,
}

impl BidAggregate {
    /// The totals of an auction that has seen no bid yet.
    pub fn empty(auction_id: &String, now: u64) -> (r: BidAggregate)
        ensures
            r.auction_id == *auction_id,
            r.bid_count == 0,
            r.total_volume == 0,
            r.block_height == 0,
            r.updated_at == now,
    {
        BidAggregate {
            auction_id: auction_id.clone(),
            bid_count: 0,
            total_volume: 0,
            block_height: 0,
            updated_at: now,
        }
    }
}

/// What one user claimed from one auction.
#[derive(Debug, Clone, PartialEq, Eq)]
pub struct ClaimRecord {
    pub auction_id: String,
    pub user_address: String,
    pub items_claimed: u64,
    pub amount_paid: u64,
    pub refund_amount: u64,
    pub claimed_at: u64,
}

/// One sample of an auction's price, for charts.
#[derive(Debug, Clone, PartialEq, Eq)]
pub struct PricePoint {
    pub auction_id: String,
    pub price: u64,
    pub timestamp: u64,
}

} // verus!
