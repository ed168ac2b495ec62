use vesting_core::claim_handler;
use vesting_core::estimate_claimable_handler;
use vesting_core::initialize_handler;
use vesting_core::revoke_handler;
use vesting_core::Vesting;
use vesting_core::VestingError;

fn new_schedule(
    total_amount: u64,
    start_time: i64,
    end_time: i64,
    cliff_percentage: u8,
    payment_interval: Option<i64>,
    revocable: bool,
) -> Vesting {
    initialize_handler(
        [1u8; 32],
        [2u8; 32],
        [3u8; 32],
        total_amount,
        start_time,
        end_time,
        cliff_percentage,
        payment_interval,
        String::from("Test"),
        revocable,
    )
    .unwrap()
}

#[test]
fn initialize_rejects_bad_time_range() {
    let r = initialize_handler(
        [1u8; 32],
        [2u8; 32],
        [3u8; 32],
        1000,
        2000,
        2000,
        20,
        None,
        String::from("Test"),
        true,
    );
    assert_eq!(r.err(), Some(VestingError::InvalidTimeRange));
}

#[test]
fn initialize_rejects_bad_cliff() {
    let r = initialize_handler(
        [1u8; 32],
        [2u8; 32],
        [3u8; 32],
        1000,
        1000,
        2000,
        101,
        None,
        String::from("Test"),
        true,
    );
    assert_eq!(r.err(), Some(VestingError::InvalidCliff));
}

#[test]
fn initialize_rejects_bad_interval() {
    let r = initialize_handler(
        [1u8; 32],
        [2u8; 32],
        [3u8; 32],
        1000,
        1000,
        2000,
        20,
        Some(0),
        String::from("Test"),
        true,
    );
    assert_eq!(r.err(), Some(VestingError::InvalidInterval));
}

#[test]
fn initialize_builds_a_live_unclaimed_record() {
    let v = new_schedule(1000, 1000, 2000, 20, None, true);
    assert_eq!(v.total_amount, 1000);
    assert_eq!(v.claimed_amount, 0);
    assert_eq!(v.payment_interval, 0);
    assert_eq!(v.revoked_at, 0);
    assert_eq!(v.last_claimed_at, 0);
    let w = new_schedule(1000, 1000, 2000, 20, Some(100), true);
    assert_eq!(w.payment_interval, 100);
}

#[test]
fn claim_pays_the_claimable_amount_and_records_it() {
    let mut v = new_schedule(1000, 1000, 2000, 20, None, true);
    let paid = claim_handler(&mut v, 1500).unwrap();
    assert_eq!(paid, 600);
    assert_eq!(v.claimed_amount, 600);
    assert_eq!(v.last_claimed_at, 1500);
}

#[test]
fn claim_before_start_fails_cliff_not_reached() {
    let mut v = new_schedule(1000, 1000, 2000, 20, None, true);
    let r = claim_handler(&mut v, 900);
    assert_eq!(r.err(), Some(VestingError::CliffNotReached));
    assert_eq!(v.claimed_amount, 0);
}

#[test]
fn second_claim_at_same_instant_fails_nothing_to_claim() {
    let mut v = new_schedule(1000, 1000, 2000, 20, None, true);
    let paid = claim_handler(&mut v, 1500).unwrap();
    assert_eq!(paid, 600);
    let r = claim_handler(&mut v, 1500);
    assert_eq!(r.err(), Some(VestingError::NothingToClaim));
    assert_eq!(v.claimed_amount, 600);
}

#[test]
fn claim_on_revoked_schedule_fails_vesting_revoked() {
    let mut v = new_schedule(1000, 1000, 2000, 20, None, true);
    revoke_handler(&mut v, 1500).unwrap();
    let r = claim_handler(&mut v, 1600);
    assert_eq!(r.err(), Some(VestingError::VestingRevoked));
}

#[test]
fn claim_propagates_math_overflow() {
    let mut v = new_schedule(u64::MAX, 0, 1000, 0, None, true);
    let r = claim_handler(&mut v, 500);
    assert_eq!(r.err(), Some(VestingError::MathOverflow));
    assert_eq!(v.claimed_amount, 0);
}

#[test]
fn revoke_returns_the_unclaimed_remainder() {
    let mut v = new_schedule(1000, 1000, 2000, 20, None, true);
    let returned = revoke_handler(&mut v, 1500).unwrap();
    assert_eq!(returned, 1000);
    assert_eq!(v.revoked_at, 1500);
    assert_eq!(estimate_claimable_handler(&v, 1500).unwrap(), 0);
    assert_eq!(estimate_claimable_handler(&v, 1700).unwrap(), 0);
    assert_eq!(estimate_claimable_handler(&v, 2000).unwrap(), 0);
    assert_eq!(estimate_claimable_handler(&v, 9999).unwrap(), 0);
}

#[test]
fn revoke_conserves_funds_after_partial_claims() {
    let mut v = new_schedule(1000, 1000, 2000, 20, None, true);
    let paid = claim_handler(&mut v, 1500).unwrap();
    let returned = revoke_handler(&mut v, 1600).unwrap();
    // The beneficiary keeps what was claimed; the creator gets the rest,
    // including any vested-but-unclaimed balance.
    assert_eq!(paid + returned, 1000);
    assert_eq!(v.claimed_amount + returned, v.total_amount);
}

#[test]
fn revoke_on_irrevocable_schedule_fails_not_revocable() {
    let mut v = new_schedule(1000, 1000, 2000, 20, None, false);
    let r = revoke_handler(&mut v, 1500);
    assert_eq!(r.err(), Some(VestingError::NotRevocable));
    assert_eq!(v.revoked_at, 0);
}

#[test]
fn second_revoke_fails_already_revoked() {
    let mut v = new_schedule(1000, 1000, 2000, 20, None, true);
    revoke_handler(&mut v, 1500).unwrap();
    let r = revoke_handler(&mut v, 1600);
    assert_eq!(r.err(), Some(VestingError::AlreadyRevoked));
    assert_eq!(v.revoked_at, 1500);
}

#[test]
fn estimate_never_mutates() {
    let v = new_schedule(1000, 1000, 2000, 20, None, true);
    assert_eq!(estimate_claimable_handler(&v, 1500).unwrap(), 600);
    assert_eq!(estimate_claimable_handler(&v, 1500).unwrap(), 600);
    assert_eq!(v.claimed_amount, 0);
    assert_eq!(v.last_claimed_at, 0);
}

#[test]
fn vested_amount_is_monotone_in_time() {
    // With a coarse interval the release is a staircase: flat between
    // steps, never decreasing.
    let v = new_schedule(997, 1000, 2000, 13, Some(300), true);
    let mut previous: u64 = 0;
    let mut t: i64 = 900;
    while t <= 2000 {
        let claimable = estimate_claimable_handler(&v, t).unwrap();
        assert!(claimable >= previous);
        previous = claimable;
        t += 50;
    }
    assert_eq!(previous, 997);
}

#[test]
fn end_boundary_is_exact_despite_rounding() {
    // 997 * 13 / 100 = 129 cliff; linear 868 over 3 whole intervals loses
    // rounding mid-schedule but the end pays out everything.
    let mut v = new_schedule(997, 1000, 2000, 13, Some(300), true);
    let paid = claim_handler(&mut v, 1700).unwrap();
    assert_eq!(paid, 129 + 2 * 289);
    let rest = claim_handler(&mut v, 2000).unwrap();
    assert_eq!(paid + rest, 997);
}
