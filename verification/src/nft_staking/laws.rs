use vstd::prelude::*;

use crate::nft_staking::error::StakingError;
use crate::nft_staking::instructions::claim_rewards::{claim_spec, reward_spec, ClaimRewards};
use crate::nft_staking::assets::{in_collection, recorded_count};
use crate::nft_staking::instructions::stake::{new_stake_record, stake_refusal, Stake};
use crate::nft_staking::instructions::unstake::{unstake_spec, Unstake};
use crate::nft_staking::state::StakeInfo;

verus! {

/// Rewards cannot be claimed twice for the same time: right after a claim at
/// `now`, a second claim at `now` earns nothing and is refused.
pub proof fn lemma_no_double_claim(ctx: ClaimRewards, now: i64)
    ensures
        claim_spec(ctx, now) is Ok ==> claim_spec(
            ClaimRewards { stake_info: StakeInfo { last_claimed: now, ..ctx.stake_info }, ..ctx },
            now,
        ) == Err::<u64, StakingError>(StakingError::NoRewardsToClaim),
{
    lemma_reward_needs_a_day(now, now, ctx.config.rewards_bps);
}

/// A reward is paid only for at least one whole day, and less than a day
/// earns nothing.
pub proof fn lemma_reward_needs_a_day(last_claimed: i64, now: i64, rewards_bps: u16)
    requires
        last_claimed <= now < last_claimed + 86_400,
    ensures
        reward_spec(last_claimed, now, rewards_bps) == Err::<u64, StakingError>(
            StakingError::NoRewardsToClaim,
        ),
{
    let d = now as int - last_claimed as int;
    assert(0 <= d < 86_400);
    let elapsed = (d as i64) as u64;
    assert(elapsed as int == d);
    let days = elapsed / 86_400;
    assert(days == 0);
    assert(days as int * rewards_bps as int == 0) by (nonlinear_arith)
        requires
            days == 0,
    ;
    assert(days as int * rewards_bps as int * 1_000_000 == 0) by (nonlinear_arith)
        requires
            days == 0,
    ;
}

/// An asset can be unstaked only once its freeze period has passed since it
/// was staked.
pub proof fn lemma_unstake_respects_freeze(ctx: Unstake, now: i64)
    ensures
        unstake_spec(ctx, now) is Ok ==> now as int - ctx.stake_info.staked_at as int
            >= ctx.config.freeze_period as int * 86_400,
{
}

/// Staking is open to the asset's owner for an asset of the collection, and
/// counts one more staked asset; the record it writes names the owner, the
/// asset and the collection and starts both the stake and the reward timer
/// at `now`.
pub proof fn lemma_stake_records_now(ctx: Stake, now: i64)
    ensures
        stake_refusal(ctx) is None <==> ctx.asset.owner@ == ctx.owner@ && in_collection(
            ctx.asset,
            ctx.collection.key,
        ) && recorded_count(ctx.collection.attributes@) < u64::MAX,
        ({
            let rec = new_stake_record(ctx, now);
            &&& rec.owner == ctx.owner
            &&& rec.asset == ctx.asset.key
            &&& rec.collection == ctx.collection.key
            &&& rec.staked_at == now
            &&& rec.last_claimed == now
        }),
{
}

/// Unstaking counts one staked asset less (never below zero), and it is
/// allowed to the owner of a staked asset of the collection as soon as the
/// freeze period has passed.
pub proof fn lemma_unstake_counts_one_less(ctx: Unstake, now: i64)
    ensures
        unstake_spec(ctx, now) matches Ok(n) ==> {
            let c = recorded_count(ctx.collection.attributes@);
            &&& c > 0 ==> n == c - 1
            &&& c == 0 ==> n == 0
        },
        ctx.asset.owner@ == ctx.owner@ && in_collection(ctx.asset, ctx.collection.key)
            && ctx.stake_info.owner@ == ctx.owner@ && ctx.stake_info.asset@ == ctx.asset.key@
            && ctx.config.freeze_period as int * 86_400 <= now as int - ctx.stake_info.staked_at as int
            <= i64::MAX ==> unstake_spec(ctx, now) is Ok,
{
}

} // verus!
