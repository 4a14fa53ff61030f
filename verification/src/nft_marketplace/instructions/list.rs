use vstd::prelude::*;

use crate::nft_marketplace::error::MarketPlaceError;
use crate::nft_marketplace::state::Listing;
use crate::pubkey::Pubkey;

verus! {

/// Accounts of the instruction that lists an asset.
#[derive(Clone, Copy, Debug)]
pub struct List {
    pub maker: Pubkey,
    pub listing: Listing,
    /// Bump seed of the listing address.
    pub listing_bump: u8,
    pub asset: Pubkey,
    /// `None` for a SOL listing, the token's mint otherwise.
    pub payment_mint: Option<Pubkey>,
}

/// Lists the asset at `price`; refuses a zero price. On success the asset
/// moves from the maker to the listing account.
pub fn handler(ctx: &mut List, price: u64) -> (r: Result<(), MarketPlaceError>)
    ensures
        price == 0 ==> r == Err::<(), MarketPlaceError>(MarketPlaceError::InvalidPrice) 
            && *final(ctx) == *old(ctx),
        price > 0 ==> r is Ok && *final(ctx) == (List {
            listing: Listing {
                maker: old(ctx).maker,
                asset: old(ctx).asset,
                price,
                payment_mint: old(ctx).payment_mint,
                bump: old(ctx).listing_bump,
            },
            ..*old(ctx)
        }),
{
    if !(price > 0) {
        return Err(MarketPlaceError::InvalidPrice);
    }
    ctx.listing = Listing {
        maker: ctx.maker,
        asset: ctx.asset,
        price,
        payment_mint: ctx.payment_mint,
        bump: ctx.listing_bump,
    };
    Ok(())
}

} // verus!
