use vstd::prelude::*;

use crate::nft_marketplace::error::MarketPlaceError;
use crate::nft_marketplace::state::Listing;
use crate::pubkey::Pubkey;

verus! {

/// Accounts of the instruction that withdraws a listing.
#[derive(Clone, Copy, Debug)]
pub struct Delist {
    pub maker: Pubkey,
    pub asset: Pubkey,
    pub listing: Listing,
}

/// Decides a delisting: only the listing's maker, and only for the listed
/// asset. On success the asset goes back to the maker and the listing is
/// closed.
pub fn handler(ctx: &Delist) -> (r: Result<(), MarketPlaceError>)
    ensures
        ctx.listing.maker@ != ctx.maker@ ==> r == Err::<(), MarketPlaceError>(
            MarketPlaceError::Unauthorized,
        ),
        ctx.listing.maker@ == ctx.maker@ && ctx.listing.asset@ != ctx.asset@ ==> r == Err::<
            (),
            MarketPlaceError,
        >(MarketPlaceError::ListingNotFound),
        ctx.listing.maker@ == ctx.maker@ && ctx.listing.asset@ == ctx.asset@ ==> r is Ok,
{
    if !(ctx.listing.maker == ctx.maker) {
        return Err(MarketPlaceError::Unauthorized);
    }
    if !(ctx.listing.asset == ctx.asset) {
        return Err(MarketPlaceError::ListingNotFound);
    }
    Ok(())
}

} // verus!
