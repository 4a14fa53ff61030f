use solana_programs::nft_staking::assets::{
    staked_count, staked_count_attribute, staked_flag_attribute, AssetInfo, Attribute, CollectionInfo,
    UpdateAuthority,
};
use solana_programs::nft_staking::error::StakingError;
use solana_programs::nft_staking::instructions::claim_rewards::{self, ClaimRewards};
use solana_programs::nft_staking::instructions::initialize::{self, Initialize, InitializeBumps};
use solana_programs::nft_staking::instructions::stake::{self, Stake};
use solana_programs::nft_staking::instructions::unstake::{self, Unstake};
use solana_programs::nft_staking::state::{Config, StakeInfo};
use solana_programs::pubkey::Pubkey;

fn key(b: u8) -> Pubkey {
    Pubkey([b; 32])
}

fn attr(k: &str, v: &str) -> Attribute {
    Attribute { key: k.to_string(), value: v.to_string() }
}

fn config(rewards_bps: u16, freeze_period: u16) -> Config {
    Config { rewards_bps, freeze_period, rewards_bump: 0, bump: 0 }
}

fn asset() -> AssetInfo {
    AssetInfo { key: key(6), owner: key(5), update_authority: UpdateAuthority::Collection(key(7)) }
}

fn record(staked_at: i64, last_claimed: i64) -> StakeInfo {
    StakeInfo { owner: key(5), asset: key(6), collection: key(7), staked_at, last_claimed, bump: 2 }
}

#[test]
fn staked_count_reads_first_matching_attribute() {
    assert_eq!(staked_count(&vec![]), 0);
    assert_eq!(staked_count(&vec![attr("staked_count", "41")]), 41);
    assert_eq!(staked_count(&vec![attr("other", "3"), attr("staked_count", "+7")]), 7);
    assert_eq!(staked_count(&vec![attr("staked_count", "x"), attr("staked_count", "9")]), 0);
    assert_eq!(staked_count(&vec![attr("staked_count", "18446744073709551616")]), 0);
}

#[test]
fn initialize_config() {
    let mut ctx = Initialize { admin: key(1), config: config(0, 0), bumps: InitializeBumps { config: 3, reward_mint: 4 } };
    assert_eq!(initialize::handler(&mut ctx, 100, 7), Ok(()));
    assert_eq!((ctx.config.rewards_bps, ctx.config.freeze_period, ctx.config.rewards_bump, ctx.config.bump), (100, 7, 4, 3));
}

#[test]
fn stake_records_and_counts() {
    let mut ctx = Stake {
        owner: key(5),
        asset: asset(),
        collection: CollectionInfo { key: key(7), attributes: vec![attr("staked_count", "2")] },
        config: config(100, 7),
        stake_info: record(0, 0),
        stake_info_bump: 9,
    };
    assert_eq!(stake::handler(&mut ctx, 1_000_000), Ok(3));
    assert_eq!(ctx.stake_info.staked_at, 1_000_000);
    assert_eq!(ctx.stake_info.last_claimed, 1_000_000);
    assert_eq!(ctx.stake_info.bump, 9);
    assert!(ctx.stake_info.collection == key(7));
}

#[test]
fn stake_refusals() {
    let base = Stake {
        owner: key(4),
        asset: asset(),
        collection: CollectionInfo { key: key(7), attributes: vec![] },
        config: config(100, 7),
        stake_info: record(0, 0),
        stake_info_bump: 9,
    };
    let mut ctx = base.clone();
    assert_eq!(stake::handler(&mut ctx, 5), Err(StakingError::Unauthorized));
    let mut ctx = Stake { owner: key(5), collection: CollectionInfo { key: key(8), attributes: vec![] }, ..base.clone() };
    assert_eq!(stake::handler(&mut ctx, 5), Err(StakingError::WrongCollection));
    let mut ctx = Stake { owner: key(5), collection: CollectionInfo { key: key(7), attributes: vec![attr("staked_count", "18446744073709551615")] }, ..base };
    assert_eq!(stake::handler(&mut ctx, 5), Err(StakingError::Overflow));
    assert_eq!(ctx.stake_info.staked_at, 0);
}

// Example from the reward comment: one day at 100 bps pays 10_000 units
#[test]
fn claim_one_day_reward() {
    let mut ctx = ClaimRewards { owner: key(5), asset: asset(), collection: key(7), config: config(100, 7), stake_info: record(1_000, 1_000) };
    assert_eq!(claim_rewards::handler(&mut ctx, 1_000 + 86_400), Ok(10_000));
    assert_eq!(ctx.stake_info.last_claimed, 87_400);
    assert_eq!(claim_rewards::handler(&mut ctx, 87_400), Err(StakingError::NoRewardsToClaim));
}

#[test]
fn claim_refusals() {
    let mut ctx = ClaimRewards { owner: key(5), asset: asset(), collection: key(7), config: config(100, 7), stake_info: record(1_000, 1_000) };
    assert_eq!(claim_rewards::handler(&mut ctx, 1_000 + 86_399), Err(StakingError::NoRewardsToClaim));
    assert_eq!(claim_rewards::handler(&mut ctx, i64::MIN), Err(StakingError::Overflow));
    ctx.stake_info.asset = key(1);
    assert_eq!(claim_rewards::handler(&mut ctx, 1_000_000), Err(StakingError::NotStaked));
    ctx.asset.update_authority = UpdateAuthority::Address(key(7));
    assert_eq!(claim_rewards::handler(&mut ctx, 1_000_000), Err(StakingError::WrongCollection));
    assert_eq!(ctx.stake_info.last_claimed, 1_000);
}

// Example from the freeze comment: 7 days, staked at 1_000_000, now 1_500_000
#[test]
fn unstake_respects_freeze_period() {
    let ctx = Unstake {
        owner: key(5),
        asset: asset(),
        collection: CollectionInfo { key: key(7), attributes: vec![attr("staked_count", "3")] },
        config: config(100, 7),
        stake_info: record(1_000_000, 1_000_000),
    };
    assert_eq!(unstake::handler(&ctx, 1_500_000), Err(StakingError::FreezePeriodNotPassed));
    assert_eq!(unstake::handler(&ctx, 1_000_000 + 604_800), Ok(2));
}

#[test]
fn unstake_count_never_below_zero() {
    let ctx = Unstake {
        owner: key(5),
        asset: asset(),
        collection: CollectionInfo { key: key(7), attributes: vec![] },
        config: config(100, 0),
        stake_info: record(10, 10),
    };
    assert_eq!(unstake::handler(&ctx, 10), Ok(0));
    let other = Unstake { owner: key(4), ..ctx };
    assert_eq!(unstake::handler(&other, 10), Err(StakingError::Unauthorized));
}

#[test]
fn written_attributes_read_back() {
    let a = staked_count_attribute(41);
    assert_eq!(a.key, "staked_count");
    assert_eq!(a.value, "41");
    assert_eq!(staked_count(&vec![a]), 41);
    assert_eq!(staked_count_attribute(0).value, "0");
    assert_eq!(staked_count(&vec![staked_count_attribute(u64::MAX)]), u64::MAX);
    let f = staked_flag_attribute(true);
    assert_eq!((f.key.as_str(), f.value.as_str()), ("Staked", "true"));
    assert_eq!(staked_flag_attribute(false).value, "false");
}
