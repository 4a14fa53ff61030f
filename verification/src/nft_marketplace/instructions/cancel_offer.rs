use vstd::prelude::*;

use crate::nft_marketplace::error::MarketPlaceError;
use crate::nft_marketplace::state::Offer;
use crate::pubkey::Pubkey;

verus! {

/// Accounts of the instruction by which a buyer withdraws a bid.
#[derive(Clone, Copy, Debug)]
pub struct CancelOffer {
    pub taker: Pubkey,
    pub asset: Pubkey,
    pub offer: Offer,
}

/// Decides a withdrawal of a bid: only its buyer, only for its asset. On
/// success gives the refund, the whole `offer.amount`, which goes from the
/// offer vault back to the buyer.
pub fn handler(ctx: &CancelOffer) -> (r: Result<u64, MarketPlaceError>)
    ensures
        ctx.offer.taker@ != ctx.taker@ ==> r == Err::<u64, MarketPlaceError>(
            MarketPlaceError::Unauthorized,
        ),
        ctx.offer.taker@ == ctx.taker@ && ctx.offer.asset@ != ctx.asset@ ==> r == Err::<
            u64,
            MarketPlaceError,
        >(MarketPlaceError::OfferNotFound),
        ctx.offer.taker@ == ctx.taker@ && ctx.offer.asset@ == ctx.asset@ ==> r == Ok::<
            u64,
            MarketPlaceError,
        >(ctx.offer.amount),
{
    if !(ctx.offer.taker == ctx.taker) {
        return Err(MarketPlaceError::Unauthorized);
    }
    if !(ctx.offer.asset == ctx.asset) {
        return Err(MarketPlaceError::OfferNotFound);
    }
    Ok(ctx.offer.amount)
}

} // verus!
