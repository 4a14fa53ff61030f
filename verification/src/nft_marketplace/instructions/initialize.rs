use vstd::prelude::*;

use crate::nft_marketplace::error::MarketPlaceError;
use crate::nft_marketplace::state::MarketPlace;
use crate::pubkey::Pubkey;

verus! {

/// Bump seeds of the accounts that `initialize` creates.
#[derive(Clone, Copy, Debug)]
pub struct InitializeBumps {
    pub market_place: u8,
    pub treasury_pda: u8,
    pub rewards_mint: u8,
}

/// Accounts of the instruction that creates a marketplace.
#[derive(Clone, Debug)]
pub struct Initialize {
    pub admin: Pubkey,
    pub treasury_pda: Pubkey,
    pub rewards_mint: Pubkey,
    pub market_place: MarketPlace,
    pub bumps: InitializeBumps,
}

/// Creates the marketplace with the given name and fee (basis points);
/// refuses a zero fee and an empty name.
pub fn handler(ctx: &mut Initialize, name: String, fee: u16) -> (r: Result<(), MarketPlaceError>)
    ensures
        fee == 0 ==> r == Err::<(), MarketPlaceError>(MarketPlaceError::InvalidFee),
        fee > 0 && name@.len() == 0 ==> r == Err::<(), MarketPlaceError>(
            MarketPlaceError::InvalidName,
        ),
        r is Err ==> *final(ctx) == *old(ctx),
        fee > 0 && name@.len() > 0 ==> r is Ok && *final(ctx) == (Initialize {
            market_place: MarketPlace {
                admin: old(ctx).admin,
                fee,
                treasury_bump: old(ctx).bumps.treasury_pda,
                rewards_bump: old(ctx).bumps.rewards_mint,
                name,
                bump: old(ctx).bumps.market_place,
                treasury: old(ctx).treasury_pda,
                rewards_mint: old(ctx).rewards_mint,
            },
            ..*old(ctx)
        }),
{
    if !(fee > 0) {
        return Err(MarketPlaceError::InvalidFee);
    }
    if name.as_str().is_empty() {
        return Err(MarketPlaceError::InvalidName);
    }
    ctx.market_place = MarketPlace {
        admin: ctx.admin,
        fee,
        treasury_bump: ctx.bumps.treasury_pda,
        rewards_bump: ctx.bumps.rewards_mint,
        name,
        bump: ctx.bumps.market_place,
        treasury: ctx.treasury_pda,
        rewards_mint: ctx.rewards_mint,
    };
    Ok(())
}

} // verus!
