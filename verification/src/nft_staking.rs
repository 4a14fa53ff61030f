//! NFT staking: owners freeze a collection asset, earn reward tokens per
//! day staked, and may unstake once the freeze period has passed.
pub mod assets;
pub mod error;
pub mod instructions;
pub mod laws;
pub mod state;
