use vstd::prelude::*;

use crate::amm::errors::AmmError;
use crate::amm::helper::{lp_tokens, lp_tokens_spec, DepositEvent};
use crate::amm::state::Pool;
use crate::pubkey::Pubkey;

verus! {

/// What a deposit reads: the pool, its reserves and the LP supply.
#[derive(Clone, Copy, Debug)]
pub struct Deposit {
    pub lp_provider: Pubkey,
    pub pool: Pool,
    /// Token X held by the pool's X vault.
    pub vault_x_amount: u64,
    /// Token Y held by the pool's Y vault.
    pub vault_y_amount: u64,
    /// Supply of the pool's LP mint.
    pub lp_supply: u64,
}

impl Deposit {
    /// The answer to a deposit of `amount_x` / `amount_y` with slippage bound `min_lp`.
    pub open spec fn deposit_spec(self, amount_x: u64, amount_y: u64, min_lp: u64) -> Result<
        DepositEvent,
        AmmError,
    > {
        if self.pool.locked {
            Err(AmmError::PoolLocked)
        } else if amount_x == 0 || amount_y == 0 {
            Err(AmmError::ZeroAmount)
        } else {
            match lp_tokens_spec(
                self.vault_x_amount,
                self.vault_y_amount,
                self.lp_supply,
                amount_x,
                amount_y,
            ) {
                Err(e) => Err(e),
                Ok(lp) => if lp < min_lp {
                    Err(AmmError::SlippageExceeded)
                } else {
                    Ok(DepositEvent { user: self.lp_provider, amount_x, amount_y, lp_minted: lp })
                },
            }
        }
    }

    /// Decides a deposit. On success the returned event says how much X and Y
    /// move from the provider into the vaults and how much LP is minted to
    /// the provider.
    pub fn handler(&self, amount_x: u64, amount_y: u64, min_lp: u64) -> (r: Result<
        DepositEvent,
        AmmError,
    >)
        ensures
            r == self.deposit_spec(amount_x, amount_y, min_lp),
            r matches Ok(ev) ==> ev.lp_minted >= min_lp && ev.amount_x == amount_x && ev.amount_y
                == amount_y,
            !self.pool.locked && amount_x > 0 && amount_y > 0 ==> (lp_tokens_spec(
                self.vault_x_amount,
                self.vault_y_amount,
                self.lp_supply,
                amount_x,
                amount_y,
            ) matches Ok(lp) ==> (lp < min_lp ==> r == Err::<DepositEvent, AmmError>(
                AmmError::SlippageExceeded,
            ))),
    {
        if self.pool.locked {
            return Err(AmmError::PoolLocked);
        }
        if !(amount_x > 0 && amount_y > 0) {
            return Err(AmmError::ZeroAmount);
        }
        let lp_to_mint = lp_tokens(
            self.vault_x_amount,
            self.vault_y_amount,
            self.lp_supply,
            amount_x,
            amount_y,
        )?;
        if !(lp_to_mint >= min_lp) {
            return Err(AmmError::SlippageExceeded);
        }
        Ok(DepositEvent { user: self.lp_provider, amount_x, amount_y, lp_minted: lp_to_mint })
    }
}

/// The slippage bound holds whatever the LP supply, the first deposit
/// included: a deposit that goes through mints the LP that the pool's rule
/// gives, at least `min_lp`; when that LP falls short of `min_lp` the deposit
/// is refused with `SlippageExceeded`.
pub proof fn lemma_deposit_honours_min_lp(d: Deposit, amount_x: u64, amount_y: u64, min_lp: u64)
    ensures
        d.deposit_spec(amount_x, amount_y, min_lp) matches Ok(ev) ==> {
            &&& ev.lp_minted >= min_lp
            &&& ev.amount_x == amount_x
            &&& ev.amount_y == amount_y
            &&& lp_tokens_spec(d.vault_x_amount, d.vault_y_amount, d.lp_supply, amount_x, amount_y)
                == Ok::<u64, AmmError>(ev.lp_minted)
        },
        !d.pool.locked && amount_x > 0 && amount_y > 0 ==> (lp_tokens_spec(
            d.vault_x_amount,
            d.vault_y_amount,
            d.lp_supply,
            amount_x,
            amount_y,
        ) matches Ok(lp) ==> (lp < min_lp ==> d.deposit_spec(amount_x, amount_y, min_lp) == Err::<
            DepositEvent,
            AmmError,
        >(AmmError::SlippageExceeded))),
{
}

} // verus!
