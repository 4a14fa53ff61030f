use vstd::prelude::*;

use crate::nft_staking::error::StakingError;
use crate::nft_staking::state::Config;
use crate::pubkey::Pubkey;

verus! {

/// Bump seeds of the config and reward mint addresses.
#[derive(Clone, Copy, Debug)]
pub struct InitializeBumps {
    pub config: u8,
    pub reward_mint: u8,
}

/// Accounts of the instruction that sets up staking.
#[derive(Clone, Copy, Debug)]
pub struct Initialize {
    pub admin: Pubkey,
    pub config: Config,
    pub bumps: InitializeBumps,
}

/// Writes the reward rate (basis points per day) and freeze period (days).
pub fn handler(ctx: &mut Initialize, rewards_bps: u16, freeze_period: u16) -> (r: Result<
    (),
    StakingError,
>)
    ensures
        r is Ok,
        *final(ctx) == (Initialize {
            config: Config {
                rewards_bps,
                freeze_period,
                rewards_bump: old(ctx).bumps.reward_mint,
                bump: old(ctx).bumps.config,
            },
            ..*old(ctx)
        }),
{
    ctx.config = Config {
        rewards_bps,
        freeze_period,
        rewards_bump: ctx.bumps.reward_mint,
        bump: ctx.bumps.config,
    };
    Ok(())
}

} // verus!
