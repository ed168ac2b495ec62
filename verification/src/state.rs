use vstd::prelude::*;

verus! {

/// Opaque 32-byte identity reference: beneficiary, creator, or asset.
pub type AccountId = [u8; 32];

/// One vesting schedule: the sole entity of the accounting core.
///
/// `beneficiary`, `creator`, `mint`, `start_time`, `end_time`,
/// `total_amount`, `cliff_percentage`, `payment_interval`, `name` and
/// `revocable` are fixed at creation.  Claims raise `claimed_amount` and
/// `last_claimed_at`; a revocation sets `revoked_at` once, after which the
/// record is terminal for claiming purposes.
pub struct Vesting {
    pub beneficiary: AccountId,
    pub creator: AccountId,
    pub mint: AccountId,
    pub start_time: i64,
    pub end_time: i64,
    pub total_amount: u64,
    pub claimed_amount: u64,
    pub cliff_percentage: u8,
    pub payment_interval: i64,
    pub name: String,
    pub revocable: bool,
    pub revoked_at: i64,
    pub last_claimed_at: i64,
}

impl Vesting {
    /// The schedule invariants: established at creation and preserved by
    /// every transition.
    ///
    /// `revoked_at` is `0` while the schedule is live; once set it is a
    /// positive timestamp no earlier than `start_time`, so "revoked" and
    /// `revoked_at > 0` mean the same thing.
    pub open spec fn well_formed(self) -> bool {
        &&& self.claimed_amount <= self.total_amount
        &&& self.cliff_percentage <= 100
        &&& self.start_time < self.end_time
        &&& self.payment_interval >= 0
        &&& self.revoked_at >= 0
        &&& (self.revoked_at != 0 ==> self.revoked_at >= self.start_time)
    }

    /// Machine limits the calculator needs beyond the invariants: the cliff
    /// product and the schedule duration fit their machine types.  Both hold
    /// for any schedule of realistic size.
    pub open spec fn arith_safe(self) -> bool {
        &&& self.total_amount * self.cliff_percentage <= u64::MAX
        &&& self.end_time - self.start_time <= i64::MAX
    }

    /// True once the creator has revoked the schedule.
    pub open spec fn is_revoked(self) -> bool {
        self.revoked_at > 0
    }
}

} // verus!
