//! Verified decision logic of a set of Solana programs: a constant-product
//! AMM, a SOL/USDC escrow, a last-player-standing dungeon game, an NFT
//! marketplace, an NFT staking pool, and a console price-guessing game.
//!
//! Every instruction handler is a function from the accounts' plain state
//! and the instruction's arguments to the new state and the plan of token
//! movements; the runtime glue that moves lamports and tokens lives outside.
pub mod amm;
pub mod decimal;
pub mod dungeon_vault;
pub mod escrow;
pub mod nft_marketplace;
pub mod nft_staking;
pub mod price_oracle;
pub mod pubkey;
