//! Lifecycle rules for viral-content records.
//!
//! A record is minted once for a piece of externally-authored content,
//! climbs through strictly increasing popularity tiers, and can be claimed
//! exactly once.  An optional aggregate counter tracks totals across all
//! records and is updated in the same step as the record mutation it
//! accompanies.

pub mod auth;
pub mod counter;
pub mod record;
pub mod store;
pub mod laws;
