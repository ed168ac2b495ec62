use vstd::prelude::*;

use crate::calc::lemma_cliff_bounds;
use crate::calc::lemma_vested_bounds;
use crate::state::Vesting;
use vstd::arithmetic::div_mod::lemma_div_is_ordered;
use vstd::arithmetic::div_mod::lemma_div_pos_is_pos;
use vstd::arithmetic::mul::lemma_mul_inequality;

verus! {

/// The linear release never decreases as time advances within the schedule.
pub proof fn lemma_linear_vested_monotone(v: Vesting, t1: int, t2: int)
    requires
        v.well_formed(),
        v.start_time <= t1 <= t2 < v.end_time,
    ensures
        v.linear_vested(t1) <= v.linear_vested(t2),
{
    lemma_cliff_bounds(v);
    let e1 = t1 - v.start_time;
    let e2 = t2 - v.start_time;
    let d = v.duration();
    if v.payment_interval > 0 {
        let i = v.payment_interval as int;
        let total_intervals = d / i;
        if total_intervals != 0 {
            let per = v.linear_amount() / total_intervals;
            lemma_div_pos_is_pos(d, i);
            lemma_div_pos_is_pos(v.linear_amount(), total_intervals);
            lemma_div_is_ordered(e1, e2, i);
            lemma_mul_inequality(e1 / i, e2 / i, per);
        }
    } else {
        lemma_mul_inequality(e1, e2, v.linear_amount());
        lemma_div_is_ordered(v.linear_amount() * e1, v.linear_amount() * e2, d);
    }
}

/// Vesting is monotone in time: between two instants no later than the end
/// of the schedule, the earlier vested total never exceeds the later one.
/// Rounding in the cliff, the intervals and the continuous release loses
/// ground but never gives it back.
pub proof fn lemma_vested_monotone(v: Vesting, t1: int, t2: int)
    requires
        v.well_formed(),
        t1 <= t2 <= v.end_time,
    ensures
        v.vested_at(t1) <= v.vested_at(t2),
{
    let e1 = v.effective_now(t1);
    let e2 = v.effective_now(t2);
    if e1 < v.start_time {
        lemma_vested_bounds(v, t2);
    } else if e2 == v.end_time {
        lemma_vested_bounds(v, t1);
    } else {
        lemma_linear_vested_monotone(v, e1, e2);
    }
}

/// Claims at one instant are idempotent: a schedule `after` that differs
/// from `before` only in having absorbed the full claimable amount at `now`
/// (and in its claim timestamp) has nothing further claimable at `now`.
pub proof fn lemma_claim_idempotent(before: Vesting, after: Vesting, now: int)
    requires
        before.well_formed(),
        after.claimed_amount == before.claimed_amount + before.claimable_at(now),
        after.total_amount == before.total_amount,
        after.start_time == before.start_time,
        after.end_time == before.end_time,
        after.cliff_percentage == before.cliff_percentage,
        after.payment_interval == before.payment_interval,
        after.revoked_at == before.revoked_at,
    ensures
        after.claimable_at(now) == 0,
{
    assert(after.vested_at(now) == before.vested_at(now));
}

/// At or after the end of the schedule the whole unclaimed remainder is
/// claimable, exactly and regardless of cliff and interval configuration:
/// no rounding loss survives the end boundary.
pub proof fn lemma_boundary_exact(v: Vesting, now: int)
    requires
        v.well_formed(),
        !v.is_revoked(),
        now >= v.end_time,
    ensures
        v.claimable_at(now) == v.total_amount - v.claimed_amount,
{
}

/// Revocation is terminal: once a schedule is revoked, nothing is claimable
/// at any time, even past the revocation instant or the schedule end.
pub proof fn lemma_revoked_never_claimable(v: Vesting, now: int)
    requires
        v.is_revoked(),
    ensures
        v.claimable_at(now) == 0,
{
}

} // verus!
