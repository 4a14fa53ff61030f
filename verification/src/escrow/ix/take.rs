use vstd::prelude::*;

use crate::escrow::error::EscrowError;
use crate::escrow::state::{Escrow, EscrowStatus};
use crate::pubkey::Pubkey;

verus! {

/// Accounts of the instruction by which a taker completes an escrow.
#[derive(Clone, Copy, Debug)]
pub struct Take {
    pub taker: Pubkey,
    pub maker: Pubkey,
    pub escrow: Escrow,
}

/// The accounts after a take, or the error it is refused with.
pub open spec fn take_spec(ctx: Take) -> Result<Take, EscrowError> {
    if ctx.maker@ != ctx.escrow.maker@ {
        Err(EscrowError::Unauthorized)
    } else if ctx.escrow.status != EscrowStatus::Open {
        Err(EscrowError::NotOpen)
    } else {
        Ok(
            Take {
                escrow: Escrow { taker: ctx.taker, status: EscrowStatus::Completed, ..ctx.escrow },
                ..ctx
            },
        )
    }
}

/// Completes an open escrow; the maker given must be the escrow's maker, who
/// receives the USDC. On success `escrow.usdc_amount` USDC move from
/// the taker to the maker and `escrow.sol_amount` lamports from the vault to
/// the taker; the escrow records the taker and is completed.
pub fn take_handler(ctx: &mut Take) -> (r: Result<(), EscrowError>)
    ensures
        match take_spec(*old(ctx)) {
            Ok(next) => r is Ok && *final(ctx) == next,
            Err(e) => r == Err::<(), EscrowError>(e) && *final(ctx) == *old(ctx),
        },
{
    if !(ctx.maker == ctx.escrow.maker) {
        return Err(EscrowError::Unauthorized);
    }
    if !(ctx.escrow.status == EscrowStatus::Open) {
        return Err(EscrowError::NotOpen);
    }
    ctx.escrow.taker = ctx.taker;
    ctx.escrow.status = EscrowStatus::Completed;
    Ok(())
}

} // verus!
