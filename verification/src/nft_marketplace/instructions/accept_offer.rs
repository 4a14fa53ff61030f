use vstd::prelude::*;

use crate::nft_marketplace::error::MarketPlaceError;
use crate::nft_marketplace::fees::{compute_payout, payout_or, Payout};
use crate::nft_marketplace::state::{Listing, MarketPlace, Offer};
use crate::pubkey::Pubkey;

verus! {

/// Accounts of the instruction by which a seller accepts a bid.
#[derive(Clone, Debug)]
pub struct AcceptOffer {
    pub maker: Pubkey,
    pub taker: Pubkey,
    pub asset: Pubkey,
    pub market_place: MarketPlace,
    pub listing: Listing,
    pub offer: Offer,
}

/// The payout of an accepted bid, or the error the acceptance is refused with.
pub open spec fn accept_offer_spec(ctx: AcceptOffer) -> Result<Payout, MarketPlaceError> {
    if ctx.listing.maker@ != ctx.maker@ {
        Err(MarketPlaceError::Unauthorized)
    } else if ctx.listing.asset@ != ctx.asset@ {
        Err(MarketPlaceError::ListingNotFound)
    } else if ctx.offer.taker@ != ctx.taker@ {
        Err(MarketPlaceError::Unauthorized)
    } else if ctx.offer.asset@ != ctx.asset@ {
        Err(MarketPlaceError::OfferNotFound)
    } else {
        payout_or(ctx.offer.amount, ctx.market_place.fee, MarketPlaceError::InvalidOfferAmount)
    }
}

/// Decides an acceptance. On success `maker_amount` goes from the offer to
/// the seller and `fee_amount` to the treasury, the asset goes to the buyer,
/// and listing and offer are closed.
pub fn handler(ctx: &AcceptOffer) -> (r: Result<Payout, MarketPlaceError>)
    ensures
        r == accept_offer_spec(*ctx),
{
    if !(ctx.listing.maker == ctx.maker) {
        return Err(MarketPlaceError::Unauthorized);
    }
    if !(ctx.listing.asset == ctx.asset) {
        return Err(MarketPlaceError::ListingNotFound);
    }
    if !(ctx.offer.taker == ctx.taker) {
        return Err(MarketPlaceError::Unauthorized);
    }
    if !(ctx.offer.asset == ctx.asset) {
        return Err(MarketPlaceError::OfferNotFound);
    }
    compute_payout(ctx.offer.amount, ctx.market_place.fee, MarketPlaceError::InvalidOfferAmount)
}

} // verus!
