use vstd::prelude::*;

use crate::nft_staking::assets::{
    in_collection,
    is_in_collection,
    recorded_count,
    staked_count,
    AssetInfo,
    CollectionInfo,
};
use crate::nft_staking::error::StakingError;
use crate::nft_staking::state::{Config, StakeInfo};
use crate::pubkey::Pubkey;

verus! {

/// Accounts of the instruction that stakes an asset.
#[derive(Clone, Debug)]
pub struct Stake {
    pub owner: Pubkey,
    pub asset: AssetInfo,
    pub collection: CollectionInfo,
    pub config: Config,
    pub stake_info: StakeInfo,
    /// Bump seed of the stake record's address.
    pub stake_info_bump: u8,
}

/// The error staking is refused with, if any.
pub open spec fn stake_refusal(ctx: Stake) -> Option<StakingError> {
    if ctx.asset.owner@ != ctx.owner@ {
        Some(StakingError::Unauthorized)
    } else if !in_collection(ctx.asset, ctx.collection.key) {
        Some(StakingError::WrongCollection)
    } else if recorded_count(ctx.collection.attributes@) == u64::MAX {
        Some(StakingError::Overflow)
    } else {
        None
    }
}

/// The stake record written at time `now`.
pub open spec fn new_stake_record(ctx: Stake, now: i64) -> StakeInfo {
    StakeInfo {
        owner: ctx.owner,
        asset: ctx.asset.key,
        collection: ctx.collection.key,
        staked_at: now,
        last_claimed: now,
        bump: ctx.stake_info_bump,
    }
}

/// Stakes the asset at time `now`: records owner, asset, collection and the
/// time (staking time and reward timer). On success gives the collection's
/// new staked count, one more than the recorded one; the asset is then
/// frozen and marked staked, and the count written to the collection.
pub fn handler(ctx: &mut Stake, now: i64) -> (r: Result<u64, StakingError>)
    ensures
        match stake_refusal(*old(ctx)) {
            Some(e) => r == Err::<u64, StakingError>(e) && *final(ctx) == *old(ctx),
            None => r == Ok::<u64, StakingError>(
                (recorded_count(old(ctx).collection.attributes@) + 1) as u64,
            ) && *final(ctx) == (Stake { stake_info: new_stake_record(*old(ctx), now), ..*old(ctx) }),
        },
{
    if !(ctx.asset.owner == ctx.owner) {
        return Err(StakingError::Unauthorized);
    }
    if !is_in_collection(&ctx.asset, &ctx.collection.key) {
        return Err(StakingError::WrongCollection);
    }
    let current_count = staked_count(&ctx.collection.attributes);
    let new_count = match current_count.checked_add(1) {
        Some(c) => c,
        None => {
            return Err(StakingError::Overflow);
        },
    };
    ctx.stake_info = StakeInfo {
        owner: ctx.owner,
        asset: ctx.asset.key,
        collection: ctx.collection.key,
        staked_at: now,
        last_claimed: now,
        bump: ctx.stake_info_bump,
    };
    Ok(new_count)
}

} // verus!
