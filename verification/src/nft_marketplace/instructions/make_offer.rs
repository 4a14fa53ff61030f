use vstd::prelude::*;

use crate::nft_marketplace::error::MarketPlaceError;
use crate::nft_marketplace::state::Offer;
use crate::pubkey::Pubkey;

verus! {

/// Accounts of the instruction by which a buyer bids for an asset.
#[derive(Clone, Copy, Debug)]
pub struct MakeOffer {
    pub taker: Pubkey,
    pub asset: Pubkey,
    pub offer: Offer,
    /// Bump seed of the offer address.
    pub offer_bump: u8,
}

/// Records a SOL bid of `amount`; refuses zero. On success `amount`
/// lamports move from the buyer into the offer account.
pub fn handler(ctx: &mut MakeOffer, amount: u64) -> (r: Result<(), MarketPlaceError>)
    ensures
        amount == 0 ==> r == Err::<(), MarketPlaceError>(MarketPlaceError::InvalidOfferAmount)
            && *final(ctx) == *old(ctx),
        amount > 0 ==> r is Ok && *final(ctx) == (MakeOffer {
            offer: Offer {
                taker: old(ctx).taker,
                asset: old(ctx).asset,
                amount,
                payment_mint: None,
                bump: old(ctx).offer_bump,
                vault_bump: 0,
            },
            ..*old(ctx)
        }),
{
    if !(amount > 0) {
        return Err(MarketPlaceError::InvalidOfferAmount);
    }
    ctx.offer = Offer {
        taker: ctx.taker,
        asset: ctx.asset,
        amount,
        payment_mint: None,
        bump: ctx.offer_bump,
        vault_bump: 0,
    };
    Ok(())
}

} // verus!
