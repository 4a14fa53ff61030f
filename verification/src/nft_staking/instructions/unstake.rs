use vstd::prelude::*;

use crate::nft_staking::assets::{
    in_collection,
    is_in_collection,
    recorded_count,
    staked_count,
    AssetInfo,
    CollectionInfo,
};
use crate::nft_staking::error::StakingError;
use crate::nft_staking::state::{Config, StakeInfo};
use crate::pubkey::Pubkey;

verus! {

/// Accounts of the instruction that unstakes an asset.
#[derive(Clone, Debug)]
pub struct Unstake {
    pub owner: Pubkey,
    pub asset: AssetInfo,
    pub collection: CollectionInfo,
    pub config: Config,
    pub stake_info: StakeInfo,
}

/// The collection's staked count after unstaking at `now`, or the error the
/// unstake is refused with.
pub open spec fn unstake_spec(ctx: Unstake, now: i64) -> Result<u64, StakingError> {
    if ctx.asset.owner@ != ctx.owner@ {
        Err(StakingError::Unauthorized)
    } else if !in_collection(ctx.asset, ctx.collection.key) {
        Err(StakingError::WrongCollection)
    } else if ctx.stake_info.owner@ != ctx.owner@ {
        Err(StakingError::Unauthorized)
    } else if ctx.stake_info.asset@ != ctx.asset.key@ {
        Err(StakingError::NotStaked)
    } else if now as int - ctx.stake_info.staked_at as int > i64::MAX || (now as int
        - ctx.stake_info.staked_at as int) < i64::MIN {
        Err(StakingError::Overflow)
    } else if (now as int - ctx.stake_info.staked_at as int) < ctx.config.freeze_period as int
        * 86_400 {
        Err(StakingError::FreezePeriodNotPassed)
    } else {
        let count = recorded_count(ctx.collection.attributes@);
        Ok(if count == 0 { 0 } else { (count - 1) as u64 })
    }
}

/// Unstakes the asset at time `now`, once the freeze period (days) has
/// passed since staking. On success gives the collection's new staked count,
/// one less than the recorded one (never below zero); the asset is then
/// thawed and marked unstaked, the count written, and the stake record
/// closed.
pub fn handler(ctx: &Unstake, now: i64) -> (r: Result<u64, StakingError>)
    ensures
        r == unstake_spec(*ctx, now),
{
    if !(ctx.asset.owner == ctx.owner) {
        return Err(StakingError::Unauthorized);
    }
    if !is_in_collection(&ctx.asset, &ctx.collection.key) {
        return Err(StakingError::WrongCollection);
    }
    if !(ctx.stake_info.owner == ctx.owner) {
        return Err(StakingError::Unauthorized);
    }
    if !(ctx.stake_info.asset == ctx.asset.key) {
        return Err(StakingError::NotStaked);
    }
    let elapsed = match now.checked_sub(ctx.stake_info.staked_at) {
        Some(e) => e,
        None => {
            return Err(StakingError::Overflow);
        },
    };
    let freeze_period_seconds: i64 = (ctx.config.freeze_period as i64) * 86_400;
    if !(elapsed >= freeze_period_seconds) {
        return Err(StakingError::FreezePeriodNotPassed);
    }
    let current_count = staked_count(&ctx.collection.attributes);
    Ok(current_count.saturating_sub(1))
}

} // verus!
