use vstd::prelude::*;

verus! {

/// Lifecycle state of an auction.
#[derive(Debug, Clone, Copy, PartialEq, Eq, Structural)]
pub enum AuctionStatus {
    Created,
    Active,
    Settled,
    Cancelled,
}

/// A status code that names no status.
#[derive(Debug, Clone, Copy, PartialEq, Eq, Structural)]
pub struct UnknownStatus {
    pub code: u8,
}

pub open spec fn auction_status_of_code(code: u8) -> Option<AuctionStatus> {
    if code == 0 {
        Some(AuctionStatus::Created)
    } else if code == 1 {
        Some(AuctionStatus::Active)
    } else if code == 2 {
        Some(AuctionStatus::Settled)
    } else if code == 3 {
        Some(AuctionStatus::Cancelled)
    } else {
        None
    }
}

impl AuctionStatus {
    /// Decodes an on-chain status code; codes above 3 are an error.
    pub fn from_code(code: u8) -> (r: Result<AuctionStatus, UnknownStatus>)
        ensures
            auction_status_of_code(code) matches Some(s) ==> r == Ok::<AuctionStatus, UnknownStatus>(s),
            auction_status_of_code(code) is None ==> r == Err::<AuctionStatus, UnknownStatus>(UnknownStatus { code }),
    {
        match code {
            0 => Ok(AuctionStatus::Created),
            1 => Ok(AuctionStatus::Active),
            2 => Ok(AuctionStatus::Settled),
            3 => Ok(AuctionStatus::Cancelled),
            _ => Err(UnknownStatus { code }),
        }
    }
}


pub open spec fn is_terminal(s: AuctionStatus) -> bool {
    s == AuctionStatus::Settled || s == AuctionStatus::Cancelled
}

/// The legal status transitions: Created -> Active -> Settled,
/// Created -> Active -> Cancelled, and Created -> Cancelled.
pub open spec fn legal_transition(from: AuctionStatus, to: AuctionStatus) -> bool {
    ||| (from == AuctionStatus::Created && to == AuctionStatus::Active)
    ||| (from == AuctionStatus::Active && to == AuctionStatus::Settled)
    ||| (from == AuctionStatus::Active && to == AuctionStatus::Cancelled)
    ||| (from == AuctionStatus::Created && to == AuctionStatus::Cancelled)
}

impl AuctionStatus {
    /// The on-chain code of the status.
    pub fn code(&self) -> (r: u8)
        ensures
            auction_status_of_code(r) == Some(*self),
    {
        match self {
            AuctionStatus::Created => 0,
            AuctionStatus::Active => 1,
            AuctionStatus::Settled => 2,
            AuctionStatus::Cancelled => 3,
        }
    }

    /// Whether no transition leaves this status.
    pub fn is_terminal(&self) -> (r: bool)
        ensures
            r == is_terminal(*self),
    {
        match self {
            AuctionStatus::Settled | AuctionStatus::Cancelled => true,
            _ => false,
        }
    }

    /// Whether moving from `self` to `to` is one of the legal transitions.
    pub fn can_transition_to(&self, to: AuctionStatus) -> (r: bool)
        ensures
            r == legal_transition(*self, to),
    {
        match (self, to) {
            (AuctionStatus::Created, AuctionStatus::Active) => true,
            (AuctionStatus::Active, AuctionStatus::Settled) => true,
            (AuctionStatus::Active, AuctionStatus::Cancelled) => true,
            (AuctionStatus::Created, AuctionStatus::Cancelled) => true,
            _ => false,
        }
    }
}

/// Status of a sealed bid.
#[derive(Debug, Clone, Copy, PartialEq, Eq, Structural)]
pub enum BidStatus {
    Pending,
    Won,
    Lost,
    Refunded,
}

pub open spec fn bid_status_of_code(code: u8) -> Option<BidStatus> {
    if code == 0 {
        Some(BidStatus::Pending)
    } else if code == 1 {
        Some(BidStatus::Won)
    } else if code == 2 {
        Some(BidStatus::Lost)
    } else if code == 3 {
        Some(BidStatus::Refunded)
    } else {
        None
    }
}

impl BidStatus {
    /// Decodes an on-chain bid status code; codes above 3 are an error.
    pub fn from_code(code: u8) -> (r: Result<BidStatus, UnknownStatus>)
        ensures
            bid_status_of_code(code) matches Some(s) ==> r == Ok::<BidStatus, UnknownStatus>(s),
            bid_status_of_code(code) is None ==> r == Err::<BidStatus, UnknownStatus>(UnknownStatus { code }),
    {
        match code {
            0 => Ok(BidStatus::Pending),
            1 => Ok(BidStatus::Won),
            2 => Ok(BidStatus::Lost),
            3 => Ok(BidStatus::Refunded),
            _ => Err(UnknownStatus { code }),
        }
    }

    /// The on-chain code of the status.
    pub fn code(&self) -> (r: u8)
        ensures
            bid_status_of_code(r) == Some(*self),
    {
        match self {
            BidStatus::Pending => 0,
            BidStatus::Won => 1,
            BidStatus::Lost => 2,
            BidStatus::Refunded => 3,
        }
    }
}

/// An auction was created or its parameters or status changed on chain.
/// Times are seconds since the Unix epoch.
#[derive(Debug, Clone, PartialEq, Eq)]
pub struct AuctionEvent {
    pub auction_id: String,
    pub creator: String,
    pub item_name: String,
    pub total_supply: u64,
    pub start_price: u64,
    pub reserve_price: u64,
    pub start_time: u64,
    pub end_time: u64,
    pub status: AuctionStatus,
    pub block_height: u64,
    pub timestamp: u64,
}

/// New public bid totals of an auction (no individual bid is ever carried).
#[derive(Debug, Clone, PartialEq, Eq)]
pub struct BidEvent {
    pub auction_id: String,
    pub bid_count: u64,
    pub total_volume: u64,
    pub block_height: u64,
    pub timestamp: u64,
}

/// An auction was settled at a clearing price.
#[derive(Debug, Clone, PartialEq, Eq)]
pub struct SettlementEvent {
    pub auction_id: String,
    pub clearing_price: u64,
    pub total_sold: u64,
    pub total_revenue: u64,
    pub block_height: u64,
    pub timestamp: u64,
}

/// A user claimed their items and refund after settlement.
#[derive(Debug, Clone, PartialEq, Eq)]
pub struct ClaimEvent {
    pub auction_id: String,
    pub claimer: String,
    pub items_claimed: u64,
    pub amount_paid: u64,
    pub refund_amount: u64,
    pub block_height: u64,
    pub timestamp: u64,
}

/// One decoded chain event.
#[derive(Debug, Clone, PartialEq, Eq)]
pub enum BlockchainEvent {
    Auction(AuctionEvent),
    Bid(BidEvent),
    Settlement(SettlementEvent),
    Claim(ClaimEvent),
}

impl BlockchainEvent {
    /// The auction that the event refers to.
    pub fn auction_id(&self) -> (r: &String)
        ensures
            r == event_auction_id(*self),
    {
        match self {
            BlockchainEvent::Auction(e) => &e.auction_id,
            BlockchainEvent::Bid(e) => &e.auction_id,
            BlockchainEvent::Settlement(e) => &e.auction_id,
            BlockchainEvent::Claim(e) => &e.auction_id,
        }
    }

    /// The height of the block that carried the event.
    pub fn block_height(&self) -> (r: u64)
        ensures
            r == event_block_height(*self),
    {
        match self {
            BlockchainEvent::Auction(e) => e.block_height,
            BlockchainEvent::Bid(e) => e.block_height,
            BlockchainEvent::Settlement(e) => e.block_height,
            BlockchainEvent::Claim(e) => e.block_height,
        }
    }
}

pub open spec fn event_auction_id(e: BlockchainEvent) -> String {
    match e {
        BlockchainEvent::Auction(a) => a.auction_id,
        BlockchainEvent::Bid(b) => b.auction_id,
        BlockchainEvent::Settlement(s) => s.auction_id,
        BlockchainEvent::Claim(c) => c.auction_id,
    }
}

pub open spec fn event_block_height(e: BlockchainEvent) -> u64 {
    match e {
        BlockchainEvent::Auction(a) => a.block_height,
        BlockchainEvent::Bid(b) => b.block_height,
        BlockchainEvent::Settlement(s) => s.block_height,
        BlockchainEvent::Claim(c) => c.block_height,
    }
}

/// Raw transaction decoding is not done here: events arrive already typed
/// from the subscription feed, so a raw transaction yields no events.
pub fn parse_transaction_events(_tx_data: &str) -> (r: Vec<BlockchainEvent>)
    ensures
        r@.len() == 0,
{
    Vec::new()
}

} // verus!
