use vstd::prelude::*;

use crate::error::VestingError;
use crate::state::Vesting;
use vstd::arithmetic::div_mod::lemma_div_is_ordered;
use vstd::arithmetic::div_mod::lemma_div_multiples_vanish;
use vstd::arithmetic::div_mod::lemma_div_pos_is_pos;
use vstd::arithmetic::div_mod::lemma_fundamental_div_mod;
use vstd::arithmetic::div_mod::lemma_mod_division_less_than_divisor;
use vstd::arithmetic::mul::lemma_mul_inequality;
use vstd::arithmetic::mul::lemma_mul_nonnegative;

verus! {

impl Vesting {
    /// The instant the calculator evaluates: time beyond the end counts as
    /// the end.
    pub open spec fn effective_now(self, now: int) -> int {
        if now < self.end_time {
            now
        } else {
            self.end_time as int
        }
    }

    /// The cliff portion, released atomically at `start_time`:
    /// `floor(total_amount * cliff_percentage / 100)`.
    pub open spec fn cliff_amount(self) -> int {
        self.total_amount * self.cliff_percentage / 100
    }

    /// The remainder after the cliff, released progressively.
    pub open spec fn linear_amount(self) -> int {
        self.total_amount - self.cliff_amount()
    }

    /// Length of the schedule in seconds; positive for a well-formed record.
    pub open spec fn duration(self) -> int {
        self.end_time - self.start_time
    }

    /// How much of the linear portion has been released at clamped time `t`,
    /// for `start_time <= t < end_time`.
    ///
    /// With a positive `payment_interval` the release is stepwise: each
    /// whole elapsed interval releases `floor(linear / total_intervals)`
    /// units, so rounding loss accrues per interval.  An interval longer
    /// than the whole duration makes the release all-or-nothing.  With no
    /// interval the release is continuous, rounded down once.
    pub open spec fn linear_vested(self, t: int) -> int {
        let elapsed = t - self.start_time;
        if self.payment_interval > 0 {
            let total_intervals = self.duration() / (self.payment_interval as int);
            let interval_count = elapsed / (self.payment_interval as int);
            if total_intervals == 0 {
                if elapsed >= self.duration() {
                    self.linear_amount()
                } else {
                    0
                }
            } else {
                (self.linear_amount() / total_intervals) * interval_count
            }
        } else {
            self.linear_amount() * elapsed / self.duration()
        }
    }

    /// Total units vested at time `now`, ignoring revocation: nothing before
    /// the start, everything exactly at (or after) the end, and otherwise
    /// the cliff plus the linear release, capped at `total_amount`.
    pub open spec fn vested_at(self, now: int) -> int {
        let t = self.effective_now(now);
        if t < self.start_time {
            0
        } else if t == self.end_time {
            self.total_amount as int
        } else {
            let raw = self.cliff_amount() + self.linear_vested(t);
            if raw > self.total_amount {
                self.total_amount as int
            } else {
                raw
            }
        }
    }

    /// What the beneficiary may withdraw at time `now`: the vested total
    /// minus what was already claimed, never negative, and zero for a
    /// revoked schedule.
    pub open spec fn claimable_at(self, now: int) -> int {
        if self.is_revoked() {
            0
        } else if self.claimed_amount >= self.vested_at(now) {
            0
        } else {
            self.vested_at(now) - self.claimed_amount
        }
    }

    /// The single intermediate product that can exceed 64 bits under the
    /// schedule invariants: the continuous-release multiplication.  The
    /// calculator reports `MathOverflow` exactly when this holds.
    pub open spec fn overflows_at(self, now: int) -> bool {
        let t = self.effective_now(now);
        &&& self.revoked_at == 0
        &&& t >= self.start_time
        &&& t != self.end_time
        &&& self.payment_interval == 0
        &&& self.linear_amount() * (t - self.start_time) > u64::MAX
    }
}

/// The cliff portion lies between zero and the total amount.
pub proof fn lemma_cliff_bounds(v: Vesting)
    requires
        v.cliff_percentage <= 100,
    ensures
        0 <= v.cliff_amount() <= v.total_amount,
{
    lemma_mul_nonnegative(v.total_amount as int, v.cliff_percentage as int);
    lemma_div_pos_is_pos(v.total_amount * v.cliff_percentage, 100);
    lemma_mul_inequality(v.cliff_percentage as int, 100, v.total_amount as int);
    lemma_div_is_ordered(v.total_amount * v.cliff_percentage, 100 * v.total_amount, 100);
    lemma_div_multiples_vanish(v.total_amount as int, 100);
}

/// Within the schedule the linear release lies between zero and the whole
/// linear portion.
pub proof fn lemma_linear_vested_bounds(v: Vesting, t: int)
    requires
        v.well_formed(),
        v.start_time <= t < v.end_time,
    ensures
        0 <= v.linear_vested(t) <= v.linear_amount(),
{
    lemma_cliff_bounds(v);
    let elapsed = t - v.start_time;
    let d = v.duration();
    if v.payment_interval > 0 {
        let i = v.payment_interval as int;
        let total_intervals = d / i;
        let interval_count = elapsed / i;
        lemma_div_pos_is_pos(elapsed, i);
        if total_intervals != 0 {
            let per = v.linear_amount() / total_intervals;
            lemma_div_pos_is_pos(d, i);
            lemma_div_pos_is_pos(v.linear_amount(), total_intervals);
            lemma_mul_nonnegative(per, interval_count);
            lemma_div_is_ordered(elapsed, d, i);
            lemma_mul_inequality(interval_count, total_intervals, per);
            lemma_fundamental_div_mod(v.linear_amount(), total_intervals);
            lemma_mod_division_less_than_divisor(v.linear_amount(), total_intervals);
        }
    } else {
        let num = v.linear_amount() * elapsed;
        lemma_mul_nonnegative(v.linear_amount(), elapsed);
        lemma_div_pos_is_pos(num, d);
        lemma_mul_inequality(elapsed, d, v.linear_amount());
        lemma_div_is_ordered(num, v.linear_amount() * d, d);
        lemma_div_multiples_vanish(v.linear_amount(), d);
    }
}

/// The vested total lies between zero and `total_amount` at every time.
pub proof fn lemma_vested_bounds(v: Vesting, now: int)
    requires
        v.well_formed(),
    ensures
        0 <= v.vested_at(now) <= v.total_amount,
{
    let t = v.effective_now(now);
    if v.start_time <= t && t != v.end_time {
        lemma_cliff_bounds(v);
        lemma_linear_vested_bounds(v, t);
    }
}

/// The claimable amount never exceeds the unclaimed remainder, so paying it
/// out keeps `claimed_amount` within `total_amount`.
pub proof fn lemma_claimable_bounds(v: Vesting, now: int)
    requires
        v.well_formed(),
    ensures
        0 <= v.claimable_at(now),
        v.claimable_at(now) + v.claimed_amount <= v.total_amount,
{
    lemma_vested_bounds(v, now);
}

/// How much the beneficiary may withdraw from `vesting` at time `now`.
///
/// Mirrors the model exactly: `Ok(amount)` carries `claimable_at(now)`, and
/// `MathOverflow` is returned precisely when the continuous-release product
/// exceeds 64 bits (`overflows_at`).
pub fn calculate_claimable_amount(vesting: &Vesting, now: i64) -> (r: Result<
    u64,
    VestingError,
>)
    requires
        vesting.well_formed(),
        vesting.arith_safe(),
    ensures
        match r {
            Ok(amount) => !vesting.overflows_at(now as int) && amount == vesting.claimable_at(
                now as int,
            ),
            Err(e) => vesting.overflows_at(now as int) && e == VestingError::MathOverflow,
        },
{
    let ghost query_time: int = now as int;
    let now: i64 = if now < vesting.end_time {
        now
    } else {
        vesting.end_time
    };
    proof {
        assert(now == vesting.effective_now(query_time));
    }

    if vesting.revoked_at > 0 || now < vesting.start_time {
        return Ok(0);
    }

    if now == vesting.end_time {
        return Ok(vesting.total_amount - vesting.claimed_amount);
    }

    proof {
        lemma_cliff_bounds(*vesting);
    }
    let cliff_amt: u64 = vesting.total_amount * (vesting.cliff_percentage as u64) / 100;

    let linear_amt: u64 = match vesting.total_amount.checked_sub(cliff_amt) {
        Some(l) => l,
        None => { return Err(VestingError::MathOverflow); },
    };

    let elapsed: u64 = (now - vesting.start_time) as u64;
    let duration: u64 = (vesting.end_time - vesting.start_time) as u64;

    let vested: u64 = if vesting.payment_interval > 0 {
        let interval: u64 = vesting.payment_interval as u64;
        let total_intervals: u64 = duration / interval;
        let interval_count: u64 = elapsed / interval;

        if total_intervals == 0 {
            if elapsed >= duration {
                linear_amt
            } else {
                0
            }
        } else {
            let amount_per_interval: u64 = linear_amt / total_intervals;
            proof {
                lemma_div_is_ordered(elapsed as int, duration as int, interval as int);
                lemma_mul_inequality(
                    interval_count as int,
                    total_intervals as int,
                    amount_per_interval as int,
                );
                lemma_fundamental_div_mod(linear_amt as int, total_intervals as int);
                lemma_mod_division_less_than_divisor(linear_amt as int, total_intervals as int);
            }
            match amount_per_interval.checked_mul(interval_count) {
                Some(x) => x,
                None => { return Err(VestingError::MathOverflow); },
            }
        }
    } else {
        match linear_amt.checked_mul(elapsed) {
            Some(product) => {
                proof {
                    lemma_mul_inequality(elapsed as int, duration as int, linear_amt as int);
                    lemma_div_is_ordered(product as int, linear_amt * duration, duration as int);
                    lemma_div_multiples_vanish(linear_amt as int, duration as int);
                }
                product / duration
            },
            None => { return Err(VestingError::MathOverflow); },
        }
    };

    proof {
        assert(vested as int == vesting.linear_vested(now as int));
        lemma_linear_vested_bounds(*vesting, now as int);
    }

    let mut total_vested: u64 = cliff_amt + vested;
    if total_vested > vesting.total_amount {
        total_vested = vesting.total_amount;
    }
    proof {
        assert(total_vested as int == vesting.vested_at(query_time));
    }

    if vesting.claimed_amount >= total_vested {
        Ok(0)
    } else {
        match total_vested.checked_sub(vesting.claimed_amount) {
            Some(c) => Ok(c),
            None => Err(VestingError::MathOverflow),
        }
    }
}

} // verus!
