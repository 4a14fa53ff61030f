use vstd::prelude::*;

use crate::amm::errors::AmmError;
use crate::amm::helper::{calculate_withdraw, withdraw_spec, WithdrawEvent};
use crate::amm::state::Pool;
use crate::pubkey::Pubkey;

verus! {

/// A token account as the AMM sees it: owner, mint and balance.
#[derive(Clone, Copy, Debug)]
pub struct TokenVault {
    pub owner: Pubkey,
    pub mint: Pubkey,
    pub amount: u64,
}

/// What a withdrawal reads.
#[derive(Clone, Copy, Debug)]
pub struct Withdraw {
    pub user: Pubkey,
    /// Address of the pool account.
    pub pool_key: Pubkey,
    pub pool: Pool,
    /// Mint accounts passed in for X, Y and LP.
    pub mint_x: Pubkey,
    pub mint_y: Pubkey,
    pub lp_mint: Pubkey,
    pub vault_x: TokenVault,
    pub vault_y: TokenVault,
    /// Supply of the LP mint.
    pub lp_supply: u64,
}

impl Withdraw {
    /// The account checks of the instruction, in the order they run.
    pub open spec fn accounts_check(self) -> Result<(), AmmError> {
        if self.mint_x@ != self.pool.mint_x@ {
            Err(AmmError::InvalidMint)
        } else if self.mint_y@ != self.pool.mint_y@ {
            Err(AmmError::InvalidMint)
        } else if self.lp_mint@ != self.pool.lp_mint@ {
            Err(AmmError::InvalidMint)
        } else if self.vault_x.owner@ != self.pool_key@ {
            Err(AmmError::InvalidVaultOwner)
        } else if self.vault_x.mint@ != self.mint_x@ {
            Err(AmmError::InvalidMint)
        } else if self.vault_y.owner@ != self.pool_key@ {
            Err(AmmError::InvalidVaultOwner)
        } else if self.vault_y.mint@ != self.mint_y@ {
            Err(AmmError::InvalidMint)
        } else {
            Ok(())
        }
    }

    /// The answer to burning `lp_amount` with slippage bounds `min_x`, `min_y`.
    pub open spec fn withdraw_answer(self, lp_amount: u64, min_x: u64, min_y: u64) -> Result<
        WithdrawEvent,
        AmmError,
    > {
        match self.accounts_check() {
            Err(e) => Err(e),
            Ok(_) => if lp_amount == 0 {
                Err(AmmError::ZeroLpAmount)
            } else {
                match withdraw_spec(
                    self.vault_x.amount,
                    self.vault_y.amount,
                    self.lp_supply,
                    lp_amount,
                ) {
                    Err(e) => Err(e),
                    Ok((x_out, y_out)) => if x_out < min_x || y_out < min_y {
                        Err(AmmError::SlippageExceeded)
                    } else {
                        Ok(
                            WithdrawEvent {
                                user: self.user,
                                lp_burned: lp_amount,
                                amount_x: x_out,
                                amount_y: y_out,
                            },
                        )
                    },
                }
            },
        }
    }

    fn check_accounts(&self) -> (r: Result<(), AmmError>)
        ensures
            r == self.accounts_check(),
    {
        if self.mint_x != self.pool.mint_x {
            return Err(AmmError::InvalidMint);
        }
        if self.mint_y != self.pool.mint_y {
            return Err(AmmError::InvalidMint);
        }
        if self.lp_mint != self.pool.lp_mint {
            return Err(AmmError::InvalidMint);
        }
        if self.vault_x.owner != self.pool_key {
            return Err(AmmError::InvalidVaultOwner);
        }
        if self.vault_x.mint != self.mint_x {
            return Err(AmmError::InvalidMint);
        }
        if self.vault_y.owner != self.pool_key {
            return Err(AmmError::InvalidVaultOwner);
        }
        if self.vault_y.mint != self.mint_y {
            return Err(AmmError::InvalidMint);
        }
        Ok(())
    }

    /// Decides a withdrawal. On success the event says how much LP the user
    /// burns and how much X and Y go from the vaults to the user.
    pub fn handler(&self, lp_amount: u64, min_x: u64, min_y: u64) -> (r: Result<
        WithdrawEvent,
        AmmError,
    >)
        ensures
            r == self.withdraw_answer(lp_amount, min_x, min_y),
            r matches Ok(ev) ==> ev.amount_x <= self.vault_x.amount && ev.amount_y
                <= self.vault_y.amount,
    {
        self.check_accounts()?;
        if !(lp_amount > 0) {
            return Err(AmmError::ZeroLpAmount);
        }
        let (x_out, y_out) = calculate_withdraw(
            self.vault_x.amount,
            self.vault_y.amount,
            self.lp_supply,
            lp_amount,
        )?;
        if !(x_out >= min_x) {
            return Err(AmmError::SlippageExceeded);
        }
        if !(y_out >= min_y) {
            return Err(AmmError::SlippageExceeded);
        }
        Ok(WithdrawEvent { user: self.user, lp_burned: lp_amount, amount_x: x_out, amount_y: y_out })
    }
}

} // verus!
