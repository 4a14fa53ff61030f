pub mod claim_rewards;
pub mod initialize;
pub mod stake;
pub mod unstake;
