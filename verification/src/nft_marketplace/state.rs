use vstd::prelude::*;

use crate::pubkey::Pubkey;

verus! {

/// An asset offered for sale.
#[derive(Clone, Copy, Debug)]
pub struct Listing {
    /// Seller.
    pub maker: Pubkey,
    /// The NFT.
    pub asset: Pubkey,
    /// Lamports, or units of `payment_mint`.
    pub price: u64,
    /// `None` for SOL, the token's mint otherwise.
    pub payment_mint: Option<Pubkey>,
    pub bump: u8,
}

/// The marketplace: its admin, fee (basis points), treasury and reward mint.
#[derive(Clone, Debug)]
pub struct MarketPlace {
    pub admin: Pubkey,
    pub fee: u16,
    pub treasury: Pubkey,
    pub rewards_mint: Pubkey,
    pub treasury_bump: u8,
    pub rewards_bump: u8,
    pub name: String,
    pub bump: u8,
}

/// A buyer's escrowed bid for an asset.
#[derive(Clone, Copy, Debug)]
pub struct Offer {
    /// Buyer.
    pub taker: Pubkey,
    /// The NFT.
    pub asset: Pubkey,
    /// Lamports.
    pub amount: u64,
    pub payment_mint: Option<Pubkey>,
    pub bump: u8,
    pub vault_bump: u8,
}

} // verus!
