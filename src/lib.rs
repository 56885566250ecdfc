//! Auction state synchronization and pricing for sealed-bid Dutch auctions.
//!
//! `events` holds the decoded chain events, `state` the materialized rows,
//! `sync` the decision that each event makes against the stored row of its
//! key, `store` an in-memory materialized view built on those decisions,
//! `pricing` the live Dutch-auction price, `laws` the properties that hold
//! across events, and `service` the envelope and query types of the API.

pub mod events;
pub mod laws;
pub mod pricing;
pub mod service;
pub mod state;
pub mod store;
pub mod sync;
