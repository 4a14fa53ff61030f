use vstd::prelude::*;

use crate::nft_marketplace::error::MarketPlaceError;
use crate::nft_marketplace::fees::{compute_payout, payout_or, reward_amount, reward_for, Settlement};
use crate::nft_marketplace::state::{Listing, MarketPlace};
use crate::pubkey::Pubkey;

verus! {

/// Accounts of the instruction that buys a token listing.
#[derive(Clone, Debug)]
pub struct BuyWithToken {
    pub taker: Pubkey,
    pub maker: Pubkey,
    pub asset: Pubkey,
    pub market_place: MarketPlace,
    /// The mint the buyer pays with.
    pub payment_mint: Pubkey,
    pub listing: Listing,
}

/// The settlement of a token purchase, or the error it is refused with.
pub open spec fn buy_with_token_spec(ctx: BuyWithToken) -> Result<Settlement, MarketPlaceError>
    recommends
        ctx.listing.payment_mint is Some,
{
    if ctx.payment_mint@ != ctx.listing.payment_mint.unwrap()@ {
        Err(MarketPlaceError::WrongPaymentMint)
    } else if ctx.listing.asset@ != ctx.asset@ {
        Err(MarketPlaceError::ListingNotFound)
    } else if ctx.listing.maker@ != ctx.maker@ {
        Err(MarketPlaceError::Unauthorized)
    } else {
        match payout_or(ctx.listing.price, ctx.market_place.fee, MarketPlaceError::InvalidPrice) {
            Err(e) => Err(e),
            Ok(p) => Ok(Settlement { payout: p, reward_amount: reward_for(ctx.listing.price) }),
        }
    }
}

/// Decides a purchase with the listing's token. On success the buyer pays
/// `maker_amount` tokens to the seller and `fee_amount` to the treasury's
/// token account, the asset goes to the buyer, the listing is closed, and
/// `reward_amount` reward tokens are minted to the buyer. A SOL listing
/// (no payment mint) is outside the inputs: the account check that reads
/// the listing's mint aborts on it.
pub fn handler(ctx: &BuyWithToken) -> (r: Result<Settlement, MarketPlaceError>)
    requires
        ctx.listing.payment_mint is Some,
    ensures
        r == buy_with_token_spec(*ctx),
{
    let listing_mint = match ctx.listing.payment_mint {
        Some(m) => m,
        None => {
            return Err(MarketPlaceError::WrongPaymentMint);
        },
    };
    if !(ctx.payment_mint == listing_mint) {
        return Err(MarketPlaceError::WrongPaymentMint);
    }
    if !(ctx.listing.asset == ctx.asset) {
        return Err(MarketPlaceError::ListingNotFound);
    }
    if !(ctx.listing.maker == ctx.maker) {
        return Err(MarketPlaceError::Unauthorized);
    }
    let price = ctx.listing.price;
    let payout = compute_payout(price, ctx.market_place.fee, MarketPlaceError::InvalidPrice)?;
    Ok(Settlement { payout, reward_amount: reward_amount(price) })
}

} // verus!
