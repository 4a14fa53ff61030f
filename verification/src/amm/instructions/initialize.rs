use vstd::prelude::*;

use crate::amm::constants::MAX_FEE;
use crate::amm::errors::AmmError;
use crate::amm::state::{AmmConfig, Pool};
use crate::pubkey::Pubkey;

verus! {

/// Bump seeds found for the accounts that `Initialize` creates.
#[derive(Clone, Copy, Debug)]
pub struct InitializeBumps {
    pub config: u8,
    pub pool: u8,
    pub lp_mint: u8,
    pub vault_x: u8,
    pub vault_y: u8,
}

/// Accounts of the instruction that creates a config and its pool.
#[derive(Clone, Copy, Debug)]
pub struct Initialize {
    pub payer: Pubkey,
    /// Address of the config account being created.
    pub config_key: Pubkey,
    pub mint_x: Pubkey,
    pub mint_y: Pubkey,
    pub lp_mint: Pubkey,
    pub config: AmmConfig,
    pub pool: Pool,
}

impl Initialize {
    /// The accounts after a successful initialization.
    pub open spec fn initialized(self, fee: u16, index: u16, bumps: InitializeBumps) -> Initialize {
        Initialize {
            config: AmmConfig {
                fee_rate: fee,
                authority: Some(self.payer),
                index,
                bump: bumps.config,
            },
            pool: Pool {
                config: self.config_key,
                mint_x: self.mint_x,
                mint_y: self.mint_y,
                lp_mint: self.lp_mint,
                pool_bump: bumps.pool,
                vault_x_bump: bumps.vault_x,
                vault_y_bump: bumps.vault_y,
                lp_bump: bumps.lp_mint,
                locked: false,
            },
            ..self
        }
    }

    /// Writes the config (fee, payer as authority) and the pool; refuses a
    /// fee of 100% or more.
    pub fn handler(&mut self, fee: u16, index: u16, bumps: &InitializeBumps) -> (r: Result<
        (),
        AmmError,
    >)
        ensures
            fee >= MAX_FEE ==> r == Err::<(), AmmError>(AmmError::InvalidFee) && *final(self)
                == *old(self),
            fee < MAX_FEE ==> r is Ok && *final(self) == old(self).initialized(fee, index, *bumps),
    {
        if !(fee < MAX_FEE) {
            return Err(AmmError::InvalidFee);
        }
        self.config = AmmConfig {
            fee_rate: fee,
            authority: Some(self.payer),
            index,
            bump: bumps.config,
        };
        self.pool = Pool {
            config: self.config_key,
            mint_x: self.mint_x,
            mint_y: self.mint_y,
            lp_mint: self.lp_mint,
            pool_bump: bumps.pool,
            vault_x_bump: bumps.vault_x,
            vault_y_bump: bumps.vault_y,
            lp_bump: bumps.lp_mint,
            locked: false,
        };
        Ok(())
    }
}

} // verus!
