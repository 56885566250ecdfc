use indexer::events::{
    parse_transaction_events, AuctionEvent, AuctionStatus, BidEvent, BidStatus, BlockchainEvent,
    ClaimEvent, SettlementEvent, UnknownStatus,
};
use indexer::pricing::{current_price, price_view, progress_basis_points, time_remaining};
use indexer::service::{status_from_name, ApiResponse, AuctionQuery, InvalidStatusName};
use indexer::state::AuctionRecord;
use indexer::store::Store;
use indexer::sync::{decide_auction, decide_bid, SyncOutcome};

const T: u64 = 1_700_000_000;

fn auction_event(id: &str, status: AuctionStatus, height: u64) -> AuctionEvent {
    AuctionEvent {
        auction_id: id.to_string(),
        creator: "aleo1creator".to_string(),
        item_name: "Widget".to_string(),
        total_supply: 100,
        start_price: 1000,
        reserve_price: 200,
        start_time: T,
        end_time: T + 1000,
        status,
        block_height: height,
        timestamp: T - 10 + height,
    }
}

fn bid_event(id: &str, bid_count: u64, total_volume: u64, height: u64) -> BlockchainEvent {
    BlockchainEvent::Bid(BidEvent {
        auction_id: id.to_string(),
        bid_count,
        total_volume,
        block_height: height,
        timestamp: T + height,
    })
}

fn settlement_event(id: &str, total_sold: u64, height: u64) -> BlockchainEvent {
    BlockchainEvent::Settlement(SettlementEvent {
        auction_id: id.to_string(),
        clearing_price: 450,
        total_sold,
        total_revenue: 450 * total_sold,
        block_height: height,
        timestamp: T + 2000,
    })
}

fn claim_event(id: &str, who: &str, items: u64, paid: u64, refund: u64) -> BlockchainEvent {
    BlockchainEvent::Claim(ClaimEvent {
        auction_id: id.to_string(),
        claimer: who.to_string(),
        items_claimed: items,
        amount_paid: paid,
        refund_amount: refund,
        block_height: 50,
        timestamp: T + 3000,
    })
}

fn record(start_price: u64, reserve_price: u64, start_time: u64, end_time: u64) -> AuctionRecord {
    AuctionRecord {
        auction_id: "a".to_string(),
        creator: "c".to_string(),
        item_name: "i".to_string(),
        item_description: None,
        total_supply: 10,
        remaining_supply: 10,
        start_price,
        reserve_price,
        clearing_price: None,
        start_time,
        end_time,
        status: AuctionStatus::Active,
        block_height: 1,
        created_at: start_time,
        updated_at: start_time,
    }
}

fn active_store(id: &str) -> Store {
    let mut s = Store::new();
    let ev = BlockchainEvent::Auction(auction_event(id, AuctionStatus::Created, 1));
    assert_eq!(s.sync_event(&ev), SyncOutcome::Applied);
    let ev = BlockchainEvent::Auction(auction_event(id, AuctionStatus::Active, 2));
    assert_eq!(s.sync_event(&ev), SyncOutcome::Applied);
    s
}

#[test]
fn price_midway_scenario() {
    let a = record(1000, 200, T, T + 1000);
    let v = price_view(&a, T + 500);
    assert_eq!(v.current_price, 600);
    assert_eq!(v.progress_basis_points, 5000);
    assert_eq!(v.progress_basis_points as f64 / 100.0, 50.0);
    assert_eq!(v.time_remaining, 500);
}

#[test]
fn price_boundaries() {
    let a = record(1000, 200, T, T + 1000);
    assert_eq!(current_price(&a, T), 1000);
    assert_eq!(current_price(&a, T - 50), 1000);
    assert_eq!(current_price(&a, T + 1000), 200);
    assert_eq!(current_price(&a, T + 5000), 200);
    assert_eq!(progress_basis_points(&a, T - 1), 0);
    assert_eq!(progress_basis_points(&a, T + 2000), 10000);
    assert_eq!(time_remaining(&a, T + 2000), 0);
    assert_eq!(time_remaining(&a, T), 1000);
}

#[test]
fn price_rounds_drop_up() {
    // drop 800 over 3 s: after 1 s the share is 266.67, rounded up to 267
    let a = record(1000, 200, T, T + 3);
    assert_eq!(current_price(&a, T + 1), 733);
    assert_eq!(current_price(&a, T + 2), 466);
    assert_eq!(progress_basis_points(&a, T + 1), 3333);
}

#[test]
fn price_never_rises() {
    let a = record(997, 13, T, T + 777);
    let mut last = current_price(&a, T - 5);
    for t in (T - 5)..(T + 800) {
        let p = current_price(&a, t);
        assert!(p <= last);
        assert!(p >= 13 && p <= 997);
        last = p;
    }
}

#[test]
fn zero_duration_auction() {
    let a = record(1000, 200, T, T);
    assert_eq!(current_price(&a, T - 100), 200);
    assert_eq!(current_price(&a, T), 200);
    assert_eq!(progress_basis_points(&a, T - 100), 10000);
    assert_eq!(time_remaining(&a, T - 100), 100);
    let v = price_view(&a, T);
    assert_eq!(v.current_price, 200);
    assert_eq!(v.time_remaining, 0);
}

#[test]
fn extreme_values_do_not_overflow() {
    let a = record(u64::MAX, 0, 0, u64::MAX);
    assert_eq!(current_price(&a, u64::MAX - 1), 1);
    assert_eq!(current_price(&a, 1), u64::MAX - 1);
    assert_eq!(progress_basis_points(&a, u64::MAX / 2), 4999);
}

#[test]
fn stale_bid_aggregate_scenario() {
    let mut s = Store::new();
    assert_eq!(s.sync_event(&bid_event("A", 5, 500, 10)), SyncOutcome::Applied);
    assert_eq!(s.sync_event(&bid_event("A", 3, 9999, 11)), SyncOutcome::DiscardedStale);
    let agg = s.get_bid_aggregate(&"A".to_string(), 0);
    assert_eq!(agg.bid_count, 5);
    assert_eq!(agg.total_volume, 500);
}

#[test]
fn bid_aggregate_needs_both_counters_to_grow() {
    let mut s = Store::new();
    assert_eq!(s.sync_event(&bid_event("A", 5, 500, 10)), SyncOutcome::Applied);
    assert_eq!(s.sync_event(&bid_event("A", 9, 400, 12)), SyncOutcome::DiscardedStale);
    assert_eq!(s.sync_event(&bid_event("A", 7, 800, 9)), SyncOutcome::Applied);
    let agg = s.get_bid_aggregate(&"A".to_string(), 0);
    assert_eq!((agg.bid_count, agg.total_volume), (7, 800));
}

#[test]
fn bid_totals_monotone_in_any_order() {
    let events = [(4, 40), (2, 90), (9, 100), (1, 1), (9, 100), (12, 130), (11, 500)];
    let mut s = Store::new();
    let (mut c, mut v) = (0u64, 0u64);
    for (h, (count, volume)) in events.iter().enumerate() {
        s.sync_event(&bid_event("A", *count, *volume, h as u64));
        let agg = s.get_bid_aggregate(&"A".to_string(), 0);
        assert!(agg.bid_count >= c && agg.total_volume >= v);
        c = agg.bid_count;
        v = agg.total_volume;
    }
    assert_eq!((c, v), (12, 130));
}

#[test]
fn missing_bid_aggregate_is_zero() {
    let s = Store::new();
    let agg = s.get_bid_aggregate(&"nobody".to_string(), 77);
    assert_eq!(agg.auction_id, "nobody");
    assert_eq!(agg.bid_count, 0);
    assert_eq!(agg.total_volume, 0);
    assert_eq!(agg.updated_at, 77);
}

#[test]
fn settlement_on_cancelled_auction_rejected() {
    let mut s = Store::new();
    s.sync_event(&BlockchainEvent::Auction(auction_event("A", AuctionStatus::Created, 1)));
    let cancel = BlockchainEvent::Auction(auction_event("A", AuctionStatus::Cancelled, 2));
    assert_eq!(s.sync_event(&cancel), SyncOutcome::Applied);
    assert_eq!(
        s.sync_event(&settlement_event("A", 5, 3)),
        SyncOutcome::RejectedInvalidTransition
    );
    assert_eq!(s.get_auction(&"A".to_string()).unwrap().status, AuctionStatus::Cancelled);
}

#[test]
fn settlement_of_active_auction() {
    let mut s = active_store("A");
    assert_eq!(s.sync_event(&settlement_event("A", 30, 3)), SyncOutcome::Applied);
    let a = s.get_auction(&"A".to_string()).unwrap();
    assert_eq!(a.status, AuctionStatus::Settled);
    assert_eq!(a.clearing_price, Some(450));
    assert_eq!(a.remaining_supply, 70);
    assert_eq!(a.block_height, 3);
}

#[test]
fn settlement_clamps_remaining_supply() {
    let mut s = active_store("A");
    assert_eq!(s.sync_event(&settlement_event("A", 500, 3)), SyncOutcome::Applied);
    assert_eq!(s.get_auction(&"A".to_string()).unwrap().remaining_supply, 0);
}

#[test]
fn settlement_of_missing_auction() {
    let mut s = Store::new();
    assert_eq!(s.sync_event(&settlement_event("A", 5, 3)), SyncOutcome::NotFound);
    assert!(s.get_auction(&"A".to_string()).is_none());
}

#[test]
fn settlement_behind_stored_height_is_stale() {
    let mut s = active_store("A");
    assert_eq!(s.sync_event(&settlement_event("A", 5, 1)), SyncOutcome::DiscardedStale);
    assert_eq!(s.get_auction(&"A".to_string()).unwrap().status, AuctionStatus::Active);
}

#[test]
fn identical_claim_is_noop_and_differing_claim_conflicts() {
    let mut s = Store::new();
    assert_eq!(s.sync_event(&claim_event("A", "u1", 3, 300, 20)), SyncOutcome::Applied);
    let first = s.list_claims(&"u1".to_string());
    assert_eq!(s.sync_event(&claim_event("A", "u1", 3, 300, 20)), SyncOutcome::Applied);
    assert_eq!(s.list_claims(&"u1".to_string()), first);
    assert_eq!(s.sync_event(&claim_event("A", "u1", 4, 300, 20)), SyncOutcome::Conflict);
    let after = s.list_claims(&"u1".to_string());
    assert_eq!(after.len(), 1);
    assert_eq!(after[0].items_claimed, 3);
    assert_eq!(after[0].amount_paid, 300);
    assert_eq!(after[0].refund_amount, 20);
}

#[test]
fn claims_listed_by_user() {
    let mut s = Store::new();
    s.sync_event(&claim_event("A", "u1", 1, 10, 0));
    s.sync_event(&claim_event("B", "u1", 2, 20, 5));
    s.sync_event(&claim_event("A", "u2", 3, 30, 0));
    let mine = s.list_claims(&"u1".to_string());
    assert_eq!(mine.len(), 2);
    assert!(mine.iter().all(|c| c.user_address == "u1"));
    assert_eq!(s.list_claims(&"u3".to_string()).len(), 0);
}

#[test]
fn every_event_kind_is_idempotent() {
    let events = vec![
        BlockchainEvent::Auction(auction_event("A", AuctionStatus::Created, 1)),
        BlockchainEvent::Auction(auction_event("A", AuctionStatus::Active, 2)),
        bid_event("A", 4, 400, 3),
        settlement_event("A", 10, 4),
        claim_event("A", "u1", 2, 900, 100),
    ];
    let mut once = Store::new();
    let mut twice = Store::new();
    for ev in &events {
        once.sync_event(ev);
        twice.sync_event(ev);
        twice.sync_event(ev);
        let id = "A".to_string();
        assert_eq!(once.get_auction(&id), twice.get_auction(&id));
        assert_eq!(once.get_bid_aggregate(&id, 0), twice.get_bid_aggregate(&id, 0));
        assert_eq!(once.list_claims(&"u1".to_string()), twice.list_claims(&"u1".to_string()));
    }
}

#[test]
fn transitions_follow_the_lifecycle() {
    let all = [AuctionStatus::Created, AuctionStatus::Active, AuctionStatus::Settled, AuctionStatus::Cancelled];
    let legal = [(AuctionStatus::Created, AuctionStatus::Active), (AuctionStatus::Active, AuctionStatus::Settled), (AuctionStatus::Active, AuctionStatus::Cancelled), (AuctionStatus::Created, AuctionStatus::Cancelled)];
    for from in all {
        for to in all {
            assert_eq!(from.can_transition_to(to), legal.contains(&(from, to)));
        }
    }
}

fn store_in(status: AuctionStatus) -> Store {
    let mut s = Store::new();
    let path: Vec<AuctionStatus> = match status {
        AuctionStatus::Created => vec![AuctionStatus::Created],
        AuctionStatus::Active => vec![AuctionStatus::Created, AuctionStatus::Active],
        AuctionStatus::Settled => vec![AuctionStatus::Created, AuctionStatus::Active, AuctionStatus::Settled],
        AuctionStatus::Cancelled => vec![AuctionStatus::Created, AuctionStatus::Cancelled],
    };
    for (h, st) in path.iter().enumerate() {
        let ev = BlockchainEvent::Auction(auction_event("A", *st, h as u64 + 1));
        assert_eq!(s.sync_event(&ev), SyncOutcome::Applied);
    }
    s
}

#[test]
fn store_applies_only_legal_transitions() {
    let all = [AuctionStatus::Created, AuctionStatus::Active, AuctionStatus::Settled, AuctionStatus::Cancelled];
    for from in all {
        for to in all {
            let mut s = store_in(from);
            let out = s.sync_event(&BlockchainEvent::Auction(auction_event("A", to, 10)));
            let now = s.get_auction(&"A".to_string()).unwrap().status;
            if from.can_transition_to(to) {
                assert_eq!(out, SyncOutcome::Applied);
                assert_eq!(now, to);
            } else {
                assert_eq!(now, from);
                if from != to || from.is_terminal() {
                    assert_eq!(out, SyncOutcome::RejectedInvalidTransition);
                }
            }
        }
    }
}

#[test]
fn out_of_order_auction_events() {
    let mut s = Store::new();
    let active = BlockchainEvent::Auction(auction_event("A", AuctionStatus::Active, 5));
    assert_eq!(s.sync_event(&active), SyncOutcome::Applied);
    let created = BlockchainEvent::Auction(auction_event("A", AuctionStatus::Created, 4));
    assert_eq!(s.sync_event(&created), SyncOutcome::RejectedInvalidTransition);
    let mut older = auction_event("A", AuctionStatus::Active, 3);
    older.start_price = 5000;
    assert_eq!(s.sync_event(&BlockchainEvent::Auction(older)), SyncOutcome::DiscardedStale);
    let a = s.get_auction(&"A".to_string()).unwrap();
    assert_eq!(a.start_price, 1000);
    assert_eq!(a.block_height, 5);
}

#[test]
fn auction_update_keeps_identity_and_clamps_supply() {
    let mut s = active_store("A");
    s.sync_event(&settlement_event("A", 0, 2));
    let mut s2 = active_store("B");
    let mut ev = auction_event("B", AuctionStatus::Active, 7);
    ev.total_supply = 40;
    ev.creator = "someone else".to_string();
    assert_eq!(s2.sync_event(&BlockchainEvent::Auction(ev)), SyncOutcome::Applied);
    let b = s2.get_auction(&"B".to_string()).unwrap();
    assert_eq!(b.total_supply, 40);
    assert_eq!(b.remaining_supply, 40);
    assert_eq!(b.creator, "aleo1creator");
    assert_eq!(b.created_at, T - 9);
    assert_eq!(b.updated_at, T - 3);
}

#[test]
fn reserve_above_start_price_is_invalid() {
    let mut s = Store::new();
    let mut ev = auction_event("A", AuctionStatus::Created, 1);
    ev.reserve_price = 2000;
    assert_eq!(s.sync_event(&BlockchainEvent::Auction(ev)), SyncOutcome::InvalidRecord);
    assert!(s.get_auction(&"A".to_string()).is_none());
}

#[test]
fn first_settled_event_stores_created_baseline() {
    let mut s = Store::new();
    let ev = BlockchainEvent::Auction(auction_event("A", AuctionStatus::Settled, 1));
    assert_eq!(s.sync_event(&ev), SyncOutcome::RejectedInvalidTransition);
    let a = s.get_auction(&"A".to_string()).unwrap();
    assert_eq!(a.status, AuctionStatus::Created);
    assert_eq!(a.start_price, 1000);
    assert_eq!(a.remaining_supply, 100);
    assert_eq!(a.clearing_price, None);
}

#[test]
fn cancellation_before_creation_stays_cancelled() {
    let mut s = Store::new();
    let cancel = BlockchainEvent::Auction(auction_event("A", AuctionStatus::Cancelled, 2));
    assert_eq!(s.sync_event(&cancel), SyncOutcome::Applied);
    assert_eq!(s.get_auction(&"A".to_string()).unwrap().status, AuctionStatus::Cancelled);
    let created = BlockchainEvent::Auction(auction_event("A", AuctionStatus::Created, 1));
    assert_eq!(s.sync_event(&created), SyncOutcome::RejectedInvalidTransition);
    assert_eq!(s.get_auction(&"A".to_string()).unwrap().status, AuctionStatus::Cancelled);
    assert_eq!(s.sync_event(&cancel), SyncOutcome::RejectedInvalidTransition);
}

#[test]
fn illegal_transition_checked_before_prices() {
    let mut s = store_in(AuctionStatus::Settled);
    let mut ev = auction_event("A", AuctionStatus::Active, 20);
    ev.reserve_price = 5000;
    assert_eq!(
        s.sync_event(&BlockchainEvent::Auction(ev)),
        SyncOutcome::RejectedInvalidTransition
    );
    assert_eq!(s.get_auction(&"A".to_string()).unwrap().status, AuctionStatus::Settled);
    let mut t = active_store("B");
    let mut ev = auction_event("B", AuctionStatus::Cancelled, 20);
    ev.reserve_price = 5000;
    assert_eq!(t.sync_event(&BlockchainEvent::Auction(ev)), SyncOutcome::InvalidRecord);
    assert_eq!(t.get_auction(&"B".to_string()).unwrap().status, AuctionStatus::Active);
}

#[test]
fn list_auctions_by_status() {
    let mut s = active_store("A");
    s.sync_event(&BlockchainEvent::Auction(auction_event("B", AuctionStatus::Created, 1)));
    s.sync_event(&BlockchainEvent::Auction(auction_event("C", AuctionStatus::Active, 1)));
    assert_eq!(s.list_auctions(None).len(), 3);
    let active = s.list_auctions(Some(AuctionStatus::Active));
    let mut ids: Vec<String> = active.iter().map(|a| a.auction_id.clone()).collect();
    ids.sort();
    assert_eq!(ids, vec!["A".to_string(), "C".to_string()]);
    assert!(s.list_auctions(Some(AuctionStatus::Settled)).is_empty());
}

#[test]
fn current_price_through_store() {
    let s = active_store("A");
    let v = s.get_current_price(&"A".to_string(), T + 500).unwrap();
    assert_eq!((v.current_price, v.time_remaining, v.progress_basis_points), (600, 500, 5000));
    assert!(s.get_current_price(&"Z".to_string(), T).is_none());
}

#[test]
fn decisions_on_plain_rows() {
    let ev = auction_event("A", AuctionStatus::Created, 1);
    let (out, row) = decide_auction(None, &ev);
    assert_eq!(out, SyncOutcome::Applied);
    let row = row.unwrap();
    assert_eq!(row.remaining_supply, 100);
    assert_eq!(row.status, AuctionStatus::Created);
    let again = decide_auction(Some(&row), &ev);
    assert_eq!(again, (SyncOutcome::Applied, Some(row.clone())));
    let bid = BidEvent {
        auction_id: "A".to_string(),
        bid_count: 1,
        total_volume: 10,
        block_height: 2,
        timestamp: T,
    };
    let (out, agg) = decide_bid(None, &bid);
    assert_eq!(out, SyncOutcome::Applied);
    assert_eq!(agg.unwrap().total_volume, 10);
}

#[test]
fn status_codes_round_trip() {
    for code in 0u8..4 {
        assert_eq!(AuctionStatus::from_code(code).unwrap().code(), code);
        assert_eq!(BidStatus::from_code(code).unwrap().code(), code);
    }
    assert_eq!(AuctionStatus::from_code(1), Ok(AuctionStatus::Active));
    assert_eq!(BidStatus::from_code(2), Ok(BidStatus::Lost));
    assert_eq!(AuctionStatus::from_code(4), Err(UnknownStatus { code: 4 }));
    assert_eq!(BidStatus::from_code(255), Err(UnknownStatus { code: 255 }));
}

#[test]
fn status_names() {
    assert_eq!(status_from_name("created"), Some(AuctionStatus::Created));
    assert_eq!(status_from_name("active"), Some(AuctionStatus::Active));
    assert_eq!(status_from_name("settled"), Some(AuctionStatus::Settled));
    assert_eq!(status_from_name("cancelled"), Some(AuctionStatus::Cancelled));
    assert_eq!(status_from_name("Active"), None);
    assert_eq!(status_from_name(""), None);
    let q = AuctionQuery { status: Some("settled".to_string()), limit: None, offset: None };
    assert_eq!(q.status_filter(), Ok(Some(AuctionStatus::Settled)));
    let q = AuctionQuery { status: Some("bogus".to_string()), limit: Some(5), offset: None };
    assert_eq!(q.status_filter(), Err(InvalidStatusName));
    let q = AuctionQuery { status: None, limit: None, offset: Some(3) };
    assert_eq!(q.status_filter(), Ok(None));
}

#[test]
fn api_response_envelopes() {
    let ok = ApiResponse::success(42u64);
    assert!(ok.success);
    assert_eq!(ok.data, Some(42));
    assert_eq!(ok.error, None);
    let err: ApiResponse<u64> = ApiResponse::error("Auction not found");
    assert!(!err.success);
    assert_eq!(err.data, None);
    assert_eq!(err.error.as_deref(), Some("Auction not found"));
}

#[test]
fn raw_transactions_yield_no_events() {
    assert!(parse_transaction_events("at1qqq...").is_empty());
}
