use vstd::prelude::*;
use vstd::string::*;

use crate::events::AuctionStatus;

verus! {

/// The envelope of every query answer.
#[derive(Debug)]
pub struct ApiResponse<T> {
    pub success: bool,
    pub data: Option<T>,
    pub error: Option<String>,
}

impl<T> ApiResponse<T> {
    /// A successful answer carrying `data`.
    pub fn success(data: T) -> (r: Self)
        ensures
            r.success,
            r.data == Some(data),
            r.error is None,
    {
        ApiResponse { success: true, data: Some(data), error: None }
    }

    /// A failed answer carrying `message`.
    pub fn error(message: &str) -> (r: Self)
        ensures
            !r.success,
            r.data is None,
            r.error matches Some(e) && e@ == message@,
    {
        ApiResponse { success: false, data: None, error: Some(String::from_str(message)) }
    }
}

/// Query parameters of an auction listing.
#[derive(Debug, Clone)]
pub struct AuctionQuery {
    pub status: Option<String>,
    pub limit: Option<i32>,
    pub offset: Option<i32>,
}

/// A status name in a query that names no status.
#[derive(Debug, Clone, Copy, PartialEq, Eq, Structural)]
pub struct InvalidStatusName;

/// Platform-wide totals.
#[derive(Debug, Clone, Copy, PartialEq, Eq, Structural)]
pub struct AuctionStatsResponse {
    pub total_auctions: i64,
    pub active_auctions: i64,
    pub total_volume: i64,
    pub total_bids: i64,
}

/// The status that a lower-case status name stands for.
pub open spec fn status_of_name(s: Seq<char>) -> Option<AuctionStatus> {
    if s == "created"@ {
        Some(AuctionStatus::Created)
    } else if s == "active"@ {
        Some(AuctionStatus::Active)
    } else if s == "settled"@ {
        Some(AuctionStatus::Settled)
    } else if s == "cancelled"@ {
        Some(AuctionStatus::Cancelled)
    } else {
        None
    }
}

fn same_text(a: &str, b: &str) -> (r: bool)
    ensures
        r == (a@ == b@),
{
    let n = a.unicode_len();
    if n != b.unicode_len() {
        return false;
    }
    let mut i: usize = 0;
    while i < n
        invariant
            n == a@.len(),
            n == b@.len(),
            i <= n,
            forall|j: int| 0 <= j < i ==> a@[j] == b@[j],
        decreases n - i,
    {
        if a.get_char(i) != b.get_char(i) {
            return false;
        }
        i = i + 1;
    }
    assert(a@ =~= b@);
    true
}

/// Reads a lower-case status name.
pub fn status_from_name(name: &str) -> (r: Option<AuctionStatus>)
    ensures
        r == status_of_name(name@),
{
    if same_text(name, "created") {
        Some(AuctionStatus::Created)
    } else if same_text(name, "active") {
        Some(AuctionStatus::Active)
    } else if same_text(name, "settled") {
        Some(AuctionStatus::Settled)
    } else if same_text(name, "cancelled") {
        Some(AuctionStatus::Cancelled)
    } else {
        None
    }
}

impl AuctionQuery {
    /// The status filter that the query asks for: none when it names no
    /// status, an error when the name is unknown.
    pub fn status_filter(&self) -> (r: Result<Option<AuctionStatus>, InvalidStatusName>)
        ensures
            self.status is None ==> r == Ok::<Option<AuctionStatus>, InvalidStatusName>(None),
            self.status matches Some(s) ==> (match status_of_name(s@) {
                Some(st) => r == Ok::<Option<AuctionStatus>, InvalidStatusName>(Some(st)),
                None => r == Err::<Option<AuctionStatus>, InvalidStatusName>(InvalidStatusName),
            }),
    {
        match &self.status {
            None => Ok(None),
            Some(s) => match status_from_name(s.as_str()) {
                Some(st) => Ok(Some(st)),
                None => Err(InvalidStatusName),
            },
        }
    }
}

} // verus!
