use vstd::prelude::*;

verus! {

/// Errors that the AMM instructions answer with.
#[derive(Clone, Copy, Debug, PartialEq, Eq, Structural)]
pub enum AmmError {
    InvalidFee,
    InvalidRatio,
    SlippageExceeded,
    ZeroAmount,
    PoolAlreadyExists,
    ZeroLpAmount,
    MathOverflow,
    PoolLocked,
    InvalidMint,
    InvalidVaultOwner,
    InvalidConfig,
    Unauthorized,
    AuthorityRenounced,
}

} // verus!
