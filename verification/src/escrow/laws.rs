use vstd::prelude::*;

use crate::escrow::ix::cancel::{cancel_refusal, Cancel};
use crate::escrow::ix::take::{take_spec, Take};
use crate::escrow::state::{Escrow, EscrowStatus};

verus! {

/// Only the maker can cancel, and only an open escrow.
pub proof fn lemma_only_maker_cancels_open_escrow(ctx: Cancel)
    ensures
        cancel_refusal(ctx) is None ==> ctx.escrow.maker@ == ctx.maker@ && ctx.escrow.status
            == EscrowStatus::Open,
{
}

/// An escrow is settled at most once: a taken escrow is completed and a
/// cancelled one cancelled, and neither can then be taken or cancelled.
/// Settling never changes the amounts or the maker, and a take pays the
/// escrow's own maker.
pub proof fn lemma_escrow_settles_once(take: Take, cancel: Cancel, e: Escrow)
    requires
        take.escrow == e,
        cancel.escrow == e,
    ensures
        take_spec(take) matches Ok(next) ==> {
            &&& next.escrow.status == EscrowStatus::Completed
            &&& take.maker@ == e.maker@
            &&& next.escrow.sol_amount == e.sol_amount
            &&& next.escrow.usdc_amount == e.usdc_amount
            &&& next.escrow.maker == e.maker
            &&& take_spec(next) is Err
            &&& cancel_refusal(Cancel { escrow: next.escrow, ..cancel }) is Some
        },
        cancel_refusal(cancel) is None ==> {
            let cancelled = Escrow { status: EscrowStatus::Cancelled, ..e };
            &&& take_spec(Take { escrow: cancelled, ..take }) is Err
            &&& cancel_refusal(Cancel { escrow: cancelled, ..cancel }) is Some
        },
{
}

} // verus!
