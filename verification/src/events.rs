use vstd::prelude::*;

use crate::state::AccountId;

verus! {

/// Notification payload for a newly created schedule.
pub struct VestingInitialized {
    pub vesting: AccountId,
    pub beneficiary: AccountId,
    pub creator: AccountId,
    pub total_amount: u64,
}

/// Notification payload for a successful claim.
pub struct VestingClaimed {
    pub vesting: AccountId,
    pub amount: u64,
    pub time: i64,
}

/// Notification payload for a revocation.
pub struct RevokedEvent {
    /// The schedule that was revoked.
    pub vesting: AccountId,
    /// Amount of tokens returned to the creator.
    pub unvested: u64,
    /// When the revocation occurred.
    pub timestamp: i64,
}

} // verus!
