//! Accounting core for token vesting schedules.
//!
//! A schedule releases `total_amount` units of an asset to a beneficiary
//! between `start_time` and `end_time`: an optional cliff fraction opens at
//! the start, the remainder vests linearly, either continuously or in fixed
//! payment intervals.  The creator may hold a revocation right that returns
//! the unclaimed remainder and permanently stops further claims.
//!
//! The crate proves the calculator and the lifecycle transitions against a
//! mathematical model of the schedule, including conservation of funds,
//! monotonicity of vesting in time, exactness at the end boundary, and the
//! terminal character of revocation.

pub mod calc;
pub mod error;
pub mod events;
pub mod laws;
pub mod lifecycle;
pub mod state;

pub use calc::calculate_claimable_amount;
pub use error::VestingError;
pub use events::RevokedEvent;
pub use events::VestingClaimed;
pub use events::VestingInitialized;
pub use lifecycle::claim_handler;
pub use lifecycle::estimate_claimable_handler;
pub use lifecycle::initialize_handler;
pub use lifecycle::revoke_handler;
pub use state::Vesting;
