use vstd::prelude::*;

use crate::pubkey::Pubkey;

verus! {

/// Staking parameters.
#[derive(Clone, Copy, Debug)]
pub struct Config {
    /// Reward rate in basis points per day (100 = 1%).
    pub rewards_bps: u16,
    /// Minimum days an asset must stay staked before unstaking.
    pub freeze_period: u16,
    /// Bump of the reward mint address.
    pub rewards_bump: u8,
    pub bump: u8,
}

/// One staked asset.
#[derive(Clone, Copy, Debug)]
pub struct StakeInfo {
    /// Wallet that staked the asset.
    pub owner: Pubkey,
    pub asset: Pubkey,
    pub collection: Pubkey,
    /// Unix time of staking.
    pub staked_at: i64,
    /// Unix time of the last reward claim.
    pub last_claimed: i64,
    pub bump: u8,
}

} // verus!
