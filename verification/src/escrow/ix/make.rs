use vstd::prelude::*;

use crate::escrow::error::EscrowError;
use crate::escrow::state::{Escrow, EscrowStatus};
use crate::pubkey::Pubkey;

verus! {

/// Bump seeds of the escrow and vault addresses.
#[derive(Clone, Copy, Debug)]
pub struct MakeBumps {
    pub escrow: u8,
    pub vault: u8,
}

/// Accounts of the instruction that opens an escrow.
#[derive(Clone, Copy, Debug)]
pub struct Make {
    pub maker: Pubkey,
    pub escrow: Escrow,
    pub bumps: MakeBumps,
}

/// Opens an escrow for `sol_amount` lamports against `usdc_amount` USDC. On
/// success the maker's `sol_amount` lamports move into the vault.
pub fn make_handler(ctx: &mut Make, sol_amount: u64, usdc_amount: u64) -> (r: Result<(), EscrowError>)
    ensures
        sol_amount == 0 ==> r == Err::<(), EscrowError>(EscrowError::InvalidSolAmount),
        sol_amount > 0 && usdc_amount == 0 ==> r == Err::<(), EscrowError>(
            EscrowError::InvalidUsdcAmount,
        ),
        r is Err ==> *final(ctx) == *old(ctx),
        sol_amount > 0 && usdc_amount > 0 ==> r is Ok,
        r is Ok ==> final(ctx).maker == old(ctx).maker && final(ctx).bumps == old(ctx).bumps
            && final(ctx).escrow.maker == old(ctx).maker && final(ctx).escrow.taker@ == Seq::new(
            32,
            |i: int| 0u8,
        ) && final(ctx).escrow.sol_amount == sol_amount && final(ctx).escrow.usdc_amount
            == usdc_amount && final(ctx).escrow.status == EscrowStatus::Open
            && final(ctx).escrow.bump == old(ctx).bumps.escrow && final(ctx).escrow.vault_bump
            == old(ctx).bumps.vault,
{
    if !(sol_amount > 0) {
        return Err(EscrowError::InvalidSolAmount);
    }
    if !(usdc_amount > 0) {
        return Err(EscrowError::InvalidUsdcAmount);
    }
    ctx.escrow = Escrow {
        maker: ctx.maker,
        taker: Pubkey::default_key(),
        sol_amount,
        usdc_amount,
        status: EscrowStatus::Open,
        bump: ctx.bumps.escrow,
        vault_bump: ctx.bumps.vault,
    };
    Ok(())
}

} // verus!
