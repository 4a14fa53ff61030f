use vstd::prelude::*;

use crate::pubkey::Pubkey;

verus! {

/// Where an escrow stands.
#[derive(Clone, Copy, Debug, PartialEq, Eq, Structural)]
pub enum EscrowStatus {
    Open,
    Completed,
    Cancelled,
}

/// An offer of `sol_amount` lamports for `usdc_amount` USDC.
#[derive(Clone, Copy, Debug)]
pub struct Escrow {
    /// Offers SOL, wants USDC.
    pub maker: Pubkey,
    pub taker: Pubkey,
    pub sol_amount: u64,
    pub usdc_amount: u64,
    pub status: EscrowStatus,
    pub bump: u8,
    pub vault_bump: u8,
}

} // verus!
