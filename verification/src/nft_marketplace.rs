//! NFT marketplace: list an asset for SOL or an SPL token, buy it with a
//! marketplace fee and reward tokens, or trade it through escrowed offers.
pub mod error;
pub mod fees;
pub mod instructions;
pub mod state;
pub mod laws;
