use vstd::prelude::*;

verus! {

/// Errors that the staking instructions answer with.
#[derive(Clone, Copy, Debug, PartialEq, Eq, Structural)]
pub enum StakingError {
    WrongCollection,
    Unauthorized,
    NotStaked,
    AlreadyStaked,
    FreezePeriodNotPassed,
    Overflow,
    NoRewardsToClaim,
}

} // verus!
