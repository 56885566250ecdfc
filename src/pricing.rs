use vstd::prelude::*;

use crate::state::AuctionRecord;

verus! {

/// Live price and timing of an auction at a query time.
#[derive(Debug, Clone, Copy, PartialEq, Eq, Structural)]
pub struct PriceView {
    pub current_price: u64,
    /// Seconds until the end time, zero once it has passed.
    pub time_remaining: u64,
    /// Elapsed share of the auction's duration in hundredths of a percent (0 to 10000).
    pub progress_basis_points: u64,
}

/// An auction with no positive duration counts as ended at any time.
pub open spec fn has_ended(start_time: u64, end_time: u64, now: u64) -> bool {
    end_time <= start_time || now >= end_time
}

/// `a / b` rounded up, for `b > 0`.
pub open spec fn ceil_div(a: int, b: int) -> int {
    (a + b - 1) / b
}

/// The Dutch-auction price: the start price until the start time, the reserve
/// from the end time on, and in between the start price less the linear share
/// of the drop, the share rounded up to whole price units.
pub open spec fn price_at(
    start_price: u64,
    reserve_price: u64,
    start_time: u64,
    end_time: u64,
    now: u64,
) -> int {
    if has_ended(start_time, end_time, now) {
        reserve_price as int
    } else if now <= start_time {
        start_price as int
    } else {
        start_price - ceil_div(
            (start_price - reserve_price) * (now - start_time),
            end_time - start_time,
        )
    }
}

/// Progress through the auction in basis points, rounded down.
pub open spec fn progress_at(start_time: u64, end_time: u64, now: u64) -> int {
    if has_ended(start_time, end_time, now) {
        10000
    } else if now <= start_time {
        0
    } else {
        (10000 * (now - start_time)) / ((end_time - start_time) as int)
    }
}

pub open spec fn remaining_at(end_time: u64, now: u64) -> int {
    if end_time > now {
        end_time - now
    } else {
        0
    }
}

proof fn lemma_ceil_share_bounds(drop: int, elapsed: int, dur: int)
    requires
        drop >= 0,
        0 < elapsed < dur,
    ensures
        0 <= ceil_div(drop * elapsed, dur) <= drop,
{
    assert(drop * elapsed <= drop * dur - drop) by (nonlinear_arith)
        requires
            drop >= 0,
            0 < elapsed < dur,
    ;
    assert(0 <= (drop * elapsed + dur - 1) / dur <= drop) by (nonlinear_arith)
        requires
            drop >= 0,
            0 < dur,
            0 <= drop * elapsed,
            drop * elapsed <= drop * dur - drop,
    ;
}

/// The Dutch-auction price of `auction` at `now`.
pub fn current_price(auction: &AuctionRecord, now: u64) -> (r: u64)
    requires
        auction.reserve_price <= auction.start_price,
    ensures
        r == price_at(
            auction.start_price,
            auction.reserve_price,
            auction.start_time,
            auction.end_time,
            now,
        ),
        auction.reserve_price <= r <= auction.start_price,
{
    let start = auction.start_time;
    let end = auction.end_time;
    if end <= start || now >= end {
        auction.reserve_price
    } else if now <= start {
        auction.start_price
    } else {
        let drop = (auction.start_price - auction.reserve_price) as u128;
        let elapsed = (now - start) as u128;
        let dur = (end - start) as u128;
        proof {
            lemma_ceil_share_bounds(drop as int, elapsed as int, dur as int);
            assert(drop * elapsed <= 0xffff_ffff_ffff_ffffu128 * 0xffff_ffff_ffff_ffffu128)
                by (nonlinear_arith)
                requires
                    drop <= 0xffff_ffff_ffff_ffffu128,
                    elapsed <= 0xffff_ffff_ffff_ffffu128,
            ;
        }
        let share = (drop * elapsed + dur - 1) / dur;
        auction.start_price - (share as u64)
    }
}

/// Seconds left until the end of `auction` at `now`.
pub fn time_remaining(auction: &AuctionRecord, now: u64) -> (r: u64)
    ensures
        r == remaining_at(auction.end_time, now),
{
    if auction.end_time > now {
        auction.end_time - now
    } else {
        0
    }
}

/// How far `auction` has run at `now`, in basis points.
pub fn progress_basis_points(auction: &AuctionRecord, now: u64) -> (r: u64)
    ensures
        r == progress_at(auction.start_time, auction.end_time, now),
        r <= 10000,
{
    let start = auction.start_time;
    let end = auction.end_time;
    if end <= start || now >= end {
        10000
    } else if now <= start {
        0
    } else {
        let elapsed = (now - start) as u128;
        let dur = (end - start) as u128;
        proof {
            assert((10000 * (elapsed as int)) / (dur as int) <= 10000) by (nonlinear_arith)
                requires
                    0 < elapsed < dur,
            ;
        }
        (10000 * elapsed / dur) as u64
    }
}

/// Price, time remaining and progress of `auction` at `now`.
pub fn price_view(auction: &AuctionRecord, now: u64) -> (r: PriceView)
    requires
        auction.reserve_price <= auction.start_price,
    ensures
        r.current_price == price_at(
            auction.start_price,
            auction.reserve_price,
            auction.start_time,
            auction.end_time,
            now,
        ),
        r.time_remaining == remaining_at(auction.end_time, now),
        r.progress_basis_points == progress_at(auction.start_time, auction.end_time, now),
{
    PriceView {
        current_price: current_price(auction, now),
        time_remaining: time_remaining(auction, now),
        progress_basis_points: progress_basis_points(auction, now),
    }
}

/// At its start time an auction of positive duration costs its start price,
/// and at its end time its reserve price.
pub proof fn lemma_price_boundaries(
    start_price: u64,
    reserve_price: u64,
    start_time: u64,
    end_time: u64,
)
    requires
        reserve_price <= start_price,
        start_time < end_time,
    ensures
        price_at(start_price, reserve_price, start_time, end_time, start_time) == start_price,
        price_at(start_price, reserve_price, start_time, end_time, end_time) == reserve_price,
{
}

/// The price never rises as time goes on.
pub proof fn lemma_price_non_increasing(
    start_price: u64,
    reserve_price: u64,
    start_time: u64,
    end_time: u64,
    t1: u64,
    t2: u64,
)
    requires
        reserve_price <= start_price,
        t1 <= t2,
    ensures
        price_at(start_price, reserve_price, start_time, end_time, t1) >= price_at(
            start_price,
            reserve_price,
            start_time,
            end_time,
            t2,
        ),
{
    let drop = start_price - reserve_price;
    let dur = end_time - start_time;
    if !has_ended(start_time, end_time, t1) && t1 > start_time {
        lemma_ceil_share_bounds(drop, t1 - start_time, dur);
        if !has_ended(start_time, end_time, t2) {
            lemma_ceil_share_bounds(drop, t2 - start_time, dur);
            let a1 = drop * (t1 - start_time);
            let a2 = drop * (t2 - start_time);
            assert(a1 <= a2) by (nonlinear_arith)
                requires
                    drop >= 0,
                    t1 - start_time <= t2 - start_time,
                    a1 == drop * (t1 - start_time),
                    a2 == drop * (t2 - start_time),
            ;
            assert((a1 + dur - 1) / dur <= (a2 + dur - 1) / dur) by (nonlinear_arith)
                requires
                    a1 <= a2,
                    dur > 0,
            ;
        }
    } else if !has_ended(start_time, end_time, t2) && t2 > start_time {
        lemma_ceil_share_bounds(drop, t2 - start_time, dur);
    }
}

/// Pricing is total on every auction: an auction whose end time does not
/// follow its start time is priced at its reserve with full progress.
pub proof fn lemma_zero_duration(
    start_price: u64,
    reserve_price: u64,
    start_time: u64,
    end_time: u64,
    now: u64,
)
    requires
        end_time <= start_time,
    ensures
        price_at(start_price, reserve_price, start_time, end_time, now) == reserve_price,
        progress_at(start_time, end_time, now) == 10000,
{
}

} // verus!
