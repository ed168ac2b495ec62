use vstd::prelude::*;

verus! {

/// Everything that can go wrong in a vesting operation.
///
/// Validation errors (`InvalidTimeRange`, `InvalidCliff`, `InvalidInterval`)
/// reject bad creation parameters; precondition errors (`CliffNotReached`,
/// `NothingToClaim`, `VestingRevoked`, `NotRevocable`, `AlreadyRevoked`)
/// reject transitions the schedule state does not allow; `MathOverflow`
/// reports an intermediate amount that does not fit in 64 bits; and
/// `TokenMintMismatch` is raised by the custody layer when a recipient
/// account holds a different asset than the vault.
#[derive(Clone, Copy, Debug, PartialEq, Eq, Structural)]
pub enum VestingError {
    InvalidTimeRange,
    CliffNotReached,
    NothingToClaim,
    MathOverflow,
    InvalidCliff,
    InvalidInterval,
    NotRevocable,
    VestingRevoked,
    TokenMintMismatch,
    AlreadyRevoked,
}

} // verus!
