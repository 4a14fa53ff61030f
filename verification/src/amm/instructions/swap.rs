use vstd::prelude::*;

use crate::amm::constants::FEE_DENOMINATOR;
use crate::amm::errors::AmmError;
use crate::amm::helper::{swap_spec, swap_tokens, SwapEvent};
use crate::amm::state::{AmmConfig, Pool};
use crate::pubkey::Pubkey;

verus! {

/// What a swap reads: the config (fee), the pool and its reserves.
#[derive(Clone, Copy, Debug)]
pub struct Swap {
    pub user: Pubkey,
    pub config: AmmConfig,
    pub pool: Pool,
    pub vault_x_amount: u64,
    pub vault_y_amount: u64,
}

impl Swap {
    /// Reserves `(in, out)` in the direction of the swap.
    pub open spec fn reserves(self, x_to_y: bool) -> (u64, u64) {
        if x_to_y {
            (self.vault_x_amount, self.vault_y_amount)
        } else {
            (self.vault_y_amount, self.vault_x_amount)
        }
    }

    /// The answer to a swap of `amount_in` with slippage bound `min_out`.
    pub open spec fn swap_answer(self, amount_in: u64, min_out: u64, x_to_y: bool) -> Result<
        SwapEvent,
        AmmError,
    > {
        if self.pool.locked {
            Err(AmmError::PoolLocked)
        } else if amount_in == 0 {
            Err(AmmError::ZeroAmount)
        } else {
            let (vin, vout) = self.reserves(x_to_y);
            match swap_spec(vin, vout, amount_in, self.config.fee_rate) {
                Err(e) => Err(e),
                Ok((amount_out, fee)) => if amount_out < min_out {
                    Err(AmmError::SlippageExceeded)
                } else {
                    Ok(SwapEvent { user: self.user, amount_in, amount_out, fee, x_to_y })
                },
            }
        }
    }

    /// Decides a swap. On success the event says how much goes from the user
    /// into the input vault (`amount_in`) and how much from the output vault
    /// to the user (`amount_out`).
    pub fn handler(&self, amount_in: u64, min_out: u64, x_to_y: bool) -> (r: Result<
        SwapEvent,
        AmmError,
    >)
        requires
            self.config.fee_rate as u64 <= FEE_DENOMINATOR,
        ensures
            r == self.swap_answer(amount_in, min_out, x_to_y),
            r matches Ok(ev) ==> ev.amount_out >= min_out && ev.amount_in == amount_in
                && ev.x_to_y == x_to_y,
            !self.pool.locked && amount_in > 0 ==> ((if x_to_y {
                swap_spec(self.vault_x_amount, self.vault_y_amount, amount_in, self.config.fee_rate)
            } else {
                swap_spec(self.vault_y_amount, self.vault_x_amount, amount_in, self.config.fee_rate)
            }) matches Ok((out, _)) ==> (out < min_out ==> r == Err::<SwapEvent, AmmError>(
                AmmError::SlippageExceeded,
            ))),
    {
        if self.pool.locked {
            return Err(AmmError::PoolLocked);
        }
        if !(amount_in > 0) {
            return Err(AmmError::ZeroAmount);
        }
        let (amount_out, fee) = swap_tokens(
            self.vault_x_amount,
            self.vault_y_amount,
            amount_in,
            self.config.fee_rate,
            x_to_y,
        )?;
        if !(amount_out >= min_out) {
            return Err(AmmError::SlippageExceeded);
        }
        Ok(SwapEvent { user: self.user, amount_in, amount_out, fee, x_to_y })
    }
}

/// The slippage bound holds in both directions: a swap that goes through
/// pays out the constant-product output of the reserves it takes from, and
/// that output is at least `min_out`; when that output falls short of
/// `min_out` the swap is refused with `SlippageExceeded`.
pub proof fn lemma_swap_honours_min_out(s: Swap, amount_in: u64, min_out: u64, x_to_y: bool)
    ensures
        ({
            let (vin, vout) = if x_to_y {
                (s.vault_x_amount, s.vault_y_amount)
            } else {
                (s.vault_y_amount, s.vault_x_amount)
            };
            &&& s.swap_answer(amount_in, min_out, x_to_y) matches Ok(ev) ==> {
                &&& ev.amount_out >= min_out
                &&& ev.amount_in == amount_in
                &&& ev.x_to_y == x_to_y
                &&& swap_spec(vin, vout, amount_in, s.config.fee_rate) == Ok::<(u64, u64), AmmError>(
                    (ev.amount_out, ev.fee),
                )
            }
            &&& !s.pool.locked && amount_in > 0 ==> (swap_spec(
                vin,
                vout,
                amount_in,
                s.config.fee_rate,
            ) matches Ok((out, _)) ==> (out < min_out ==> s.swap_answer(amount_in, min_out, x_to_y)
                == Err::<SwapEvent, AmmError>(AmmError::SlippageExceeded)))
        }),
{
}

} // verus!
