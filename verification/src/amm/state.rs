use vstd::prelude::*;

use crate::amm::constants::MAX_FEE;
use crate::pubkey::Pubkey;

verus! {

/// Pool-wide settings: swap fee and the authority allowed to change it.
#[derive(Clone, Copy, Debug)]
pub struct AmmConfig {
    /// Basis points, e.g. 30 = 0.3%.
    pub fee_rate: u16,
    /// Who can update this config; `None` once renounced.
    pub authority: Option<Pubkey>,
    /// Unique index, used as PDA seed.
    pub index: u16,
    pub bump: u8,
}

impl AmmConfig {
    /// The fee rate is a valid basis-point rate below 100%.
    pub open spec fn fee_is_valid(&self) -> bool {
        self.fee_rate < MAX_FEE
    }
}

/// A pool of two tokens and its LP mint.
#[derive(Clone, Copy, Debug)]
pub struct Pool {
    pub config: Pubkey,
    pub mint_x: Pubkey,
    pub mint_y: Pubkey,
    pub lp_mint: Pubkey,
    pub pool_bump: u8,
    pub vault_x_bump: u8,
    pub vault_y_bump: u8,
    pub lp_bump: u8,
    /// While set, deposits and swaps are refused.
    pub locked: bool,
}

} // verus!
