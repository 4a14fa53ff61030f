use vstd::prelude::*;

use crate::escrow::error::EscrowError;
use crate::escrow::state::{Escrow, EscrowStatus};
use crate::pubkey::Pubkey;

verus! {

/// Accounts of the instruction by which the maker withdraws an escrow.
#[derive(Clone, Copy, Debug)]
pub struct Cancel {
    pub maker: Pubkey,
    pub escrow: Escrow,
}

/// The error a cancellation is refused with, if any.
pub open spec fn cancel_refusal(ctx: Cancel) -> Option<EscrowError> {
    if ctx.escrow.maker@ != ctx.maker@ {
        Some(EscrowError::Unauthorized)
    } else if ctx.escrow.status != EscrowStatus::Open {
        Some(EscrowError::NotOpen)
    } else {
        None
    }
}

/// Cancels an open escrow on its maker's request. On success the vault's
/// `escrow.sol_amount` lamports go back to the maker and the escrow is
/// cancelled (and closed to the maker).
pub fn cancel_handler(ctx: &mut Cancel) -> (r: Result<(), EscrowError>)
    ensures
        match cancel_refusal(*old(ctx)) {
            Some(e) => r == Err::<(), EscrowError>(e) && *final(ctx) == *old(ctx),
            None => r is Ok && *final(ctx) == (Cancel {
                escrow: Escrow { status: EscrowStatus::Cancelled, ..old(ctx).escrow },
                ..*old(ctx)
            }),
        },
{
    if !(ctx.escrow.maker == ctx.maker) {
        return Err(EscrowError::Unauthorized);
    }
    if !(ctx.escrow.status == EscrowStatus::Open) {
        return Err(EscrowError::NotOpen);
    }
    ctx.escrow.status = EscrowStatus::Cancelled;
    Ok(())
}

} // verus!
