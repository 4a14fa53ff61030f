use vstd::prelude::*;

use crate::nft_marketplace::error::MarketPlaceError;
use crate::nft_marketplace::fees::{compute_payout, payout_or, reward_amount, reward_for, Settlement};
use crate::nft_marketplace::state::{Listing, MarketPlace};
use crate::pubkey::Pubkey;

verus! {

/// Accounts of the instruction that buys a SOL listing.
#[derive(Clone, Debug)]
pub struct Buy {
    pub taker: Pubkey,
    pub maker: Pubkey,
    pub asset: Pubkey,
    pub market_place: MarketPlace,
    pub listing: Listing,
}

/// The settlement of a SOL purchase, or the error it is refused with.
pub open spec fn buy_spec(ctx: Buy) -> Result<Settlement, MarketPlaceError> {
    if ctx.listing.asset@ != ctx.asset@ {
        Err(MarketPlaceError::ListingNotFound)
    } else if ctx.listing.maker@ != ctx.maker@ {
        Err(MarketPlaceError::Unauthorized)
    } else if ctx.listing.payment_mint is Some {
        Err(MarketPlaceError::WrongPaymentMint)
    } else {
        match payout_or(ctx.listing.price, ctx.market_place.fee, MarketPlaceError::InvalidPrice) {
            Err(e) => Err(e),
            Ok(p) => Ok(Settlement { payout: p, reward_amount: reward_for(ctx.listing.price) }),
        }
    }
}

/// Decides a purchase with SOL. On success the buyer pays `maker_amount` to
/// the seller and `fee_amount` to the treasury, the asset goes to the buyer,
/// the listing is closed, and `reward_amount` reward tokens are minted to the
/// buyer.
pub fn handler(ctx: &Buy) -> (r: Result<Settlement, MarketPlaceError>)
    ensures
        r == buy_spec(*ctx),
{
    if !(ctx.listing.asset == ctx.asset) {
        return Err(MarketPlaceError::ListingNotFound);
    }
    if !(ctx.listing.maker == ctx.maker) {
        return Err(MarketPlaceError::Unauthorized);
    }
    if ctx.listing.payment_mint.is_some() {
        return Err(MarketPlaceError::WrongPaymentMint);
    }
    let price = ctx.listing.price;
    let payout = compute_payout(price, ctx.market_place.fee, MarketPlaceError::InvalidPrice)?;
    Ok(Settlement { payout, reward_amount: reward_amount(price) })
}

} // verus!
