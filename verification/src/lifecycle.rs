use vstd::prelude::*;

use crate::calc::calculate_claimable_amount;
use crate::calc::lemma_claimable_bounds;
use crate::error::VestingError;
use crate::state::AccountId;
use crate::state::Vesting;

verus! {

/// Validates the creation parameters and builds the schedule record.
///
/// Exactly the three creation checks are made, in order: the time range,
/// the cliff percentage, and (only when given) the payment interval.  On
/// success the record starts live and unclaimed, with `payment_interval`
/// zero meaning continuous release.  The caller moves `amount` units into
/// custody atomically with storing the record.
pub fn initialize_handler(
    beneficiary: AccountId,
    creator: AccountId,
    mint: AccountId,
    amount: u64,
    start_time: i64,
    end_time: i64,
    cliff_percentage: u8,
    payment_interval: Option<i64>,
    name: String,
    revocable: bool,
) -> (r: Result<Vesting, VestingError>)
    ensures
        r is Ok <==> (end_time > start_time && cliff_percentage <= 100 && (payment_interval
            is Some ==> payment_interval.unwrap() > 0)),
        match r {
            Ok(v) => {
                &&& v == (Vesting {
                    beneficiary,
                    creator,
                    mint,
                    start_time,
                    end_time,
                    total_amount: amount,
                    claimed_amount: 0,
                    cliff_percentage,
                    payment_interval: if payment_interval is Some {
                        payment_interval.unwrap()
                    } else {
                        0
                    },
                    name,
                    revocable,
                    revoked_at: 0,
                    last_claimed_at: 0,
                })
                &&& v.well_formed()
            },
            Err(e) => e == (if end_time <= start_time {
                VestingError::InvalidTimeRange
            } else if cliff_percentage > 100 {
                VestingError::InvalidCliff
            } else {
                VestingError::InvalidInterval
            }),
        },
{
    if end_time <= start_time {
        return Err(VestingError::InvalidTimeRange);
    }
    if cliff_percentage > 100 {
        return Err(VestingError::InvalidCliff);
    }
    let interval: i64 = match payment_interval {
        Some(i) => {
            if i <= 0 {
                return Err(VestingError::InvalidInterval);
            }
            i
        },
        None => 0,
    };
    Ok(
        Vesting {
            beneficiary,
            creator,
            mint,
            start_time,
            end_time,
            total_amount: amount,
            claimed_amount: 0,
            cliff_percentage,
            payment_interval: interval,
            name,
            revocable,
            revoked_at: 0,
            last_claimed_at: 0,
        },
    )
}

/// Applies a claim at time `now`: pays out the whole claimable amount.
///
/// Rejected, in order and without touching the record, when the schedule is
/// revoked, when `now` is before the start, when the calculator overflows,
/// and when nothing is claimable.  On success `claimed_amount` grows by the
/// returned amount — which the caller transfers from custody to the
/// beneficiary atomically with this mutation — and `last_claimed_at`
/// records the time.  The invariants are preserved either way.
pub fn claim_handler(vesting: &mut Vesting, now: i64) -> (r: Result<u64, VestingError>)
    requires
        old(vesting).well_formed(),
        old(vesting).arith_safe(),
    ensures
        final(vesting).well_formed(),
        r is Ok <==> (old(vesting).revoked_at == 0 && now >= old(vesting).start_time && !old(
            vesting,
        ).overflows_at(now as int) && old(vesting).claimable_at(now as int) > 0),
        match r {
            Ok(amount) => {
                &&& amount == old(vesting).claimable_at(now as int)
                &&& amount > 0
                &&& *final(vesting) == (Vesting {
                    claimed_amount: (old(vesting).claimed_amount + amount) as u64,
                    last_claimed_at: now,
                    ..*old(vesting)
                })
                &&& final(vesting).claimed_amount <= final(vesting).total_amount
            },
            Err(e) => {
                &&& *final(vesting) == *old(vesting)
                &&& e == (if old(vesting).revoked_at != 0 {
                    VestingError::VestingRevoked
                } else if now < old(vesting).start_time {
                    VestingError::CliffNotReached
                } else if old(vesting).overflows_at(now as int) {
                    VestingError::MathOverflow
                } else {
                    VestingError::NothingToClaim
                })
            },
        },
{
    if vesting.revoked_at != 0 {
        return Err(VestingError::VestingRevoked);
    }
    if now < vesting.start_time {
        return Err(VestingError::CliffNotReached);
    }

    let claimable: u64 = match calculate_claimable_amount(vesting, now) {
        Ok(c) => c,
        Err(e) => { return Err(e); },
    };
    if claimable == 0 {
        return Err(VestingError::NothingToClaim);
    }

    proof {
        lemma_claimable_bounds(*vesting, now as int);
    }
    vesting.claimed_amount = match vesting.claimed_amount.checked_add(claimable) {
        Some(c) => c,
        None => { return Err(VestingError::MathOverflow); },
    };
    vesting.last_claimed_at = now;
    Ok(claimable)
}

/// Applies a revocation at time `now`: the schedule becomes terminal and
/// the unvested-by-claims remainder goes back to the creator.
///
/// Rejected, in order and without touching the record, when the schedule
/// was created irrevocable and when it is already revoked.  On success the
/// returned amount is exactly `total_amount - claimed_amount` — the caller
/// transfers it from custody to the creator and closes the custody account
/// atomically with this mutation — and only `revoked_at` changes.  Any
/// vested-but-unclaimed balance is forfeited by design: later claims all
/// fail with `VestingRevoked`.
pub fn revoke_handler(vesting: &mut Vesting, now: i64) -> (r: Result<u64, VestingError>)
    requires
        old(vesting).well_formed(),
        now >= old(vesting).start_time,
        now > 0,
    ensures
        final(vesting).well_formed(),
        r is Ok <==> (old(vesting).revocable && old(vesting).revoked_at == 0),
        match r {
            Ok(unvested) => {
                &&& unvested == old(vesting).total_amount - old(vesting).claimed_amount
                &&& *final(vesting) == (Vesting { revoked_at: now, ..*old(vesting) })
                &&& final(vesting).claimed_amount + unvested == final(vesting).total_amount
                &&& final(vesting).is_revoked()
            },
            Err(e) => {
                &&& *final(vesting) == *old(vesting)
                &&& e == (if !old(vesting).revocable {
                    VestingError::NotRevocable
                } else {
                    VestingError::AlreadyRevoked
                })
            },
        },
{
    if !vesting.revocable {
        return Err(VestingError::NotRevocable);
    }
    if vesting.revoked_at != 0 {
        return Err(VestingError::AlreadyRevoked);
    }

    let unvested: u64 = match vesting.total_amount.checked_sub(vesting.claimed_amount) {
        Some(u) => u,
        None => { return Err(VestingError::MathOverflow); },
    };
    vesting.revoked_at = now;
    Ok(unvested)
}

/// Read-only preview of a claim: the claimable amount at `now`, with no
/// mutation.
pub fn estimate_claimable_handler(vesting: &Vesting, now: i64) -> (r: Result<
    u64,
    VestingError,
>)
    requires
        vesting.well_formed(),
        vesting.arith_safe(),
    ensures
        match r {
            Ok(amount) => !vesting.overflows_at(now as int) && amount == vesting.claimable_at(
                now as int,
            ),
            Err(e) => vesting.overflows_at(now as int) && e == VestingError::MathOverflow,
        },
{
    calculate_claimable_amount(vesting, now)
}

} // verus!
