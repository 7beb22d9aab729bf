//! The aggregate counter: an optional, shared running total of records
//! minted and claimed.
//!
//! The counter is a passive collaborator.  It lives in a singleton slot
//! (`Option<Counter>`) owned by the hosting storage; a record operation that
//! is handed a populated slot updates it in the same step as the record
//! mutation, and an empty slot is a valid "no telemetry" configuration that
//! never blocks a record mutation.

use vstd::prelude::*;

use crate::auth::Identity;
use crate::record::ErrorCode;

verus! {

/// Running totals across all records, plus the identity that initialized
/// the slot.  Every field is monotonically non-decreasing.
#[derive(Clone, Copy, PartialEq, Eq, Structural, Debug)]
pub struct Counter {
    /// The identity that initialized this counter.
    pub authority: Identity,
    /// Count of initializations observed; set once, never decremented.
    pub count: u64,
    /// Incremented exactly once per successful mint that references this
    /// counter.
    pub viral_posts_minted: u64,
    /// Incremented exactly once per successful claim that references this
    /// counter.
    pub viral_posts_claimed: u64,
}

/// The zeroed counter that `initialize` installs for `authority`.
pub open spec fn spec_initialized(authority: Identity) -> Counter {
    Counter { authority, count: 0, viral_posts_minted: 0, viral_posts_claimed: 0 }
}

/// `c` after one successful mint has been counted.
pub open spec fn spec_mint_counted(c: Counter) -> Counter {
    Counter { viral_posts_minted: (c.viral_posts_minted + 1) as u64, ..c }
}

/// `c` after one successful claim has been counted.
pub open spec fn spec_claim_counted(c: Counter) -> Counter {
    Counter { viral_posts_claimed: (c.viral_posts_claimed + 1) as u64, ..c }
}

/// The slot can count one more mint: either it is empty or its mint total
/// has room left.
pub open spec fn can_count_mint(slot: Option<Counter>) -> bool {
    slot matches Some(c) ==> c.viral_posts_minted < u64::MAX
}

/// The slot can count one more claim.
pub open spec fn can_count_claim(slot: Option<Counter>) -> bool {
    slot matches Some(c) ==> c.viral_posts_claimed < u64::MAX
}

impl Counter {
    /// Initializes the singleton counter slot with zeroed totals, owned by
    /// `authority`.  Re-initialization is rejected with `AlreadyInitialized`
    /// and leaves the existing counter untouched (the hosting storage's
    /// create-once semantics).
    pub fn initialize(slot: &mut Option<Counter>, authority: Identity) -> (r: Result<(), ErrorCode>)
        ensures
            r is Ok <==> (*old(slot)) is None,
            (*old(slot)) is None ==> *final(slot) == Some(spec_initialized(authority)),
            (*old(slot)) is Some ==> *final(slot) == *old(slot) && r == Err::<(), ErrorCode>(
                ErrorCode::AlreadyInitialized,
            ),
    {
        match slot {
            Some(_) => Err(ErrorCode::AlreadyInitialized),
            None => {
                *slot = Some(
                    Counter {
                        authority,
                        count: 0,
                        viral_posts_minted: 0,
                        viral_posts_claimed: 0,
                    },
                );
                Ok(())
            },
        }
    }

    /// Counts one successful mint: `viral_posts_minted` grows by exactly 1
    /// and every other field is unchanged.
    pub fn record_mint(&mut self)
        requires
            old(self).viral_posts_minted < u64::MAX,
        ensures
            *final(self) == spec_mint_counted(*old(self)),
    {
        self.viral_posts_minted = self.viral_posts_minted + 1;
    }

    /// Counts one successful claim: `viral_posts_claimed` grows by exactly 1
    /// and every other field is unchanged.
    pub fn record_claim(&mut self)
        requires
            old(self).viral_posts_claimed < u64::MAX,
        ensures
            *final(self) == spec_claim_counted(*old(self)),
    {
        self.viral_posts_claimed = self.viral_posts_claimed + 1;
    }
}

} // verus!
