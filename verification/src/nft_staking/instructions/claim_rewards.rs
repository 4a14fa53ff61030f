use vstd::prelude::*;

use crate::nft_staking::assets::{in_collection, is_in_collection, AssetInfo};
use crate::nft_staking::error::StakingError;
use crate::nft_staking::state::{Config, StakeInfo};
use crate::pubkey::Pubkey;

verus! {

/// Seconds in a day.
pub const SECONDS_PER_DAY: u64 = 86_400;

/// Accounts of the instruction that pays staking rewards.
#[derive(Clone, Copy, Debug)]
pub struct ClaimRewards {
    pub owner: Pubkey,
    pub asset: AssetInfo,
    pub collection: Pubkey,
    pub config: Config,
    pub stake_info: StakeInfo,
}

/// Reward for the time since `last_claimed`: whole days elapsed times
/// `rewards_bps`, in 6-decimal token units, over 10_000. The elapsed seconds
/// are taken as `u64` (a clock behind `last_claimed` wraps around).
pub open spec fn reward_spec(last_claimed: i64, now: i64, rewards_bps: u16) -> Result<u64, StakingError> {
    if now as int - last_claimed as int > i64::MAX || (now as int - last_claimed as int) < i64::MIN {
        Err(StakingError::Overflow)
    } else {
        let elapsed = ((now as int - last_claimed as int) as i64) as u64;
        let days = elapsed / 86_400;
        if days as int * rewards_bps as int > u64::MAX {
            Err(StakingError::Overflow)
        } else if days as int * rewards_bps as int * 1_000_000 > u64::MAX {
            Err(StakingError::Overflow)
        } else {
            let reward = (days as int * rewards_bps as int * 1_000_000) / 10_000;
            if reward == 0 {
                Err(StakingError::NoRewardsToClaim)
            } else {
                Ok(reward as u64)
            }
        }
    }
}

/// The error a claim is refused with for its accounts, if any.
pub open spec fn claim_accounts_refusal(ctx: ClaimRewards) -> Option<StakingError> {
    if ctx.asset.owner@ != ctx.owner@ {
        Some(StakingError::Unauthorized)
    } else if !in_collection(ctx.asset, ctx.collection) {
        Some(StakingError::WrongCollection)
    } else if ctx.stake_info.owner@ != ctx.owner@ {
        Some(StakingError::Unauthorized)
    } else if ctx.stake_info.asset@ != ctx.asset.key@ {
        Some(StakingError::NotStaked)
    } else {
        None
    }
}

/// The reward of a claim at `now`, or the error it is refused with.
pub open spec fn claim_spec(ctx: ClaimRewards, now: i64) -> Result<u64, StakingError> {
    match claim_accounts_refusal(ctx) {
        Some(e) => Err(e),
        None => reward_spec(ctx.stake_info.last_claimed, now, ctx.config.rewards_bps),
    }
}

/// Whole days from `last_claimed` to `now`.
pub open spec fn whole_days(last_claimed: i64, now: i64) -> int {
    (now as int - last_claimed as int) / 86_400
}

/// The reward is paid per whole day: on a clock that has not gone back, a
/// claim that succeeds pays `rewards_bps * 100` units (`rewards_bps` basis
/// points of one 6-decimal token) for every whole day since the last claim,
/// so `k` days pay `k` times one day. It succeeds whenever at least one day
/// has passed, `rewards_bps` is not zero and `days * rewards_bps * 1_000_000`
/// fits in `u64`; with no whole day or no rate it pays nothing and is refused.
pub proof fn lemma_reward_is_per_whole_day(last_claimed: i64, now: i64, rewards_bps: u16)
    requires
        last_claimed <= now,
    ensures
        reward_spec(last_claimed, now, rewards_bps) matches Ok(reward) ==> reward
            == whole_days(last_claimed, now) * rewards_bps * 100,
        now as int - last_claimed as int <= i64::MAX && whole_days(last_claimed, now) >= 1
            && rewards_bps > 0 && whole_days(last_claimed, now) * rewards_bps * 1_000_000
            <= u64::MAX ==> reward_spec(last_claimed, now, rewards_bps) == Ok::<u64, StakingError>(
            (whole_days(last_claimed, now) * rewards_bps * 100) as u64,
        ),
        now as int - last_claimed as int <= i64::MAX && (whole_days(last_claimed, now) == 0
            || rewards_bps == 0) ==> reward_spec(last_claimed, now, rewards_bps) == Err::<
            u64,
            StakingError,
        >(StakingError::NoRewardsToClaim),
{
    let d = now as int - last_claimed as int;
    if d <= i64::MAX {
        let elapsed = (d as i64) as u64;
        assert(elapsed as int == d);
        let days = elapsed / 86_400;
        assert(days as int == whole_days(last_claimed, now));
        let x = days as int * rewards_bps as int;
        assert(x >= 0) by (nonlinear_arith)
            requires
                x == days as int * rewards_bps as int,
                days >= 0,
                rewards_bps >= 0,
        ;
        assert(x * 1_000_000 / 10_000 == x * 100) by (nonlinear_arith);
        assert(x * 1_000_000 >= x) by (nonlinear_arith)
            requires
                x >= 0,
        ;
        assert((days >= 1 && rewards_bps > 0) ==> x >= 1) by (nonlinear_arith)
            requires
                x == days as int * rewards_bps as int,
        ;
        assert((days == 0 || rewards_bps == 0) ==> x == 0) by (nonlinear_arith)
            requires
                x == days as int * rewards_bps as int,
        ;
    }
}

fn compute_reward(last_claimed: i64, now: i64, rewards_bps: u16) -> (r: Result<u64, StakingError>)
    ensures
        r == reward_spec(last_claimed, now, rewards_bps),
        last_claimed <= now ==> (r matches Ok(reward) ==> reward == whole_days(last_claimed, now)
            * rewards_bps * 100),
{
    proof {
        if last_claimed <= now {
            lemma_reward_is_per_whole_day(last_claimed, now, rewards_bps);
        }
    }
    let elapsed = match now.checked_sub(last_claimed) {
        Some(e) => e as u64,
        None => {
            return Err(StakingError::Overflow);
        },
    };
    let elapsed_days = elapsed / SECONDS_PER_DAY;
    let per_day = match elapsed_days.checked_mul(rewards_bps as u64) {
        Some(p) => p,
        None => {
            return Err(StakingError::Overflow);
        },
    };
    let scaled = match per_day.checked_mul(1_000_000) {
        Some(s) => s,
        None => {
            return Err(StakingError::Overflow);
        },
    };
    let reward_amount = scaled / 10_000;
    if !(reward_amount > 0) {
        return Err(StakingError::NoRewardsToClaim);
    }
    Ok(reward_amount)
}

/// Pays the rewards earned since the last claim and restarts the reward
/// timer at `now`. On success gives the amount, which is minted to the owner.
pub fn handler(ctx: &mut ClaimRewards, now: i64) -> (r: Result<u64, StakingError>)
    ensures
        match claim_spec(*old(ctx), now) {
            Ok(reward) => r == Ok::<u64, StakingError>(reward) && *final(ctx) == (ClaimRewards {
                stake_info: StakeInfo { last_claimed: now, ..old(ctx).stake_info },
                ..*old(ctx)
            }),
            Err(e) => r == Err::<u64, StakingError>(e) && *final(ctx) == *old(ctx),
        },
        old(ctx).stake_info.last_claimed <= now ==> (r matches Ok(reward) ==> reward
            == whole_days(old(ctx).stake_info.last_claimed, now) * old(ctx).config.rewards_bps
            * 100),
{
    if !(ctx.asset.owner == ctx.owner) {
        return Err(StakingError::Unauthorized);
    }
    if !is_in_collection(&ctx.asset, &ctx.collection) {
        return Err(StakingError::WrongCollection);
    }
    if !(ctx.stake_info.owner == ctx.owner) {
        return Err(StakingError::Unauthorized);
    }
    if !(ctx.stake_info.asset == ctx.asset.key) {
        return Err(StakingError::NotStaked);
    }
    let reward_amount = compute_reward(ctx.stake_info.last_claimed, now, ctx.config.rewards_bps)?;
    ctx.stake_info.last_claimed = now;
    Ok(reward_amount)
}

} // verus!
