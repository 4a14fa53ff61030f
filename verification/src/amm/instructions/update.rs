use vstd::prelude::*;

use crate::amm::constants::MAX_FEE;
use crate::amm::errors::AmmError;
use crate::amm::state::{AmmConfig, Pool};
use crate::pubkey::Pubkey;

verus! {

/// What a config update reads and writes.
#[derive(Clone, Copy, Debug)]
pub struct UpdateConfig {
    /// The signer asking for the update.
    pub authority: Pubkey,
    /// Address of the config account.
    pub config_key: Pubkey,
    pub config: AmmConfig,
    pub pool: Pool,
}

impl UpdateConfig {
    /// The accounts after an update with these arguments, or the error it is
    /// refused with.
    pub open spec fn update_spec(
        self,
        new_fee: Option<u16>,
        locked: Option<bool>,
        new_authority: Option<Pubkey>,
        renounce: bool,
    ) -> Result<UpdateConfig, AmmError> {
        if self.pool.config@ != self.config_key@ {
            Err(AmmError::InvalidConfig)
        } else {
            match self.config.authority {
                None => Err(AmmError::AuthorityRenounced),
                Some(current) => if self.authority@ != current@ {
                    Err(AmmError::Unauthorized)
                } else if new_fee matches Some(fee) && fee >= MAX_FEE {
                    Err(AmmError::InvalidFee)
                } else {
                    let fee_rate = match new_fee {
                        Some(fee) => fee,
                        None => self.config.fee_rate,
                    };
                    let is_locked = match locked {
                        Some(lock) => lock,
                        None => self.pool.locked,
                    };
                    let auth = if renounce {
                        None
                    } else {
                        match new_authority {
                            Some(a) => Some(a),
                            None => self.config.authority,
                        }
                    };
                    Ok(
                        UpdateConfig {
                            config: AmmConfig { fee_rate, authority: auth, ..self.config },
                            pool: Pool { locked: is_locked, ..self.pool },
                            ..self
                        },
                    )
                },
            }
        }
    }

    /// Changes the fee, the lock and the authority, as far as the arguments
    /// ask; only the current authority may, and not after renouncing.
    /// `renounce` wins over `new_authority`.
    pub fn handler(
        &mut self,
        new_fee: Option<u16>,
        locked: Option<bool>,
        new_authority: Option<Pubkey>,
        renounce: bool,
    ) -> (r: Result<(), AmmError>)
        ensures
            match old(self).update_spec(new_fee, locked, new_authority, renounce) {
                Ok(next) => r is Ok && *final(self) == next,
                Err(e) => r == Err::<(), AmmError>(e) && *final(self) == *old(self),
            },
    {
        if self.pool.config != self.config_key {
            return Err(AmmError::InvalidConfig);
        }
        let current_authority = match self.config.authority {
            Some(a) => a,
            None => {
                return Err(AmmError::AuthorityRenounced);
            },
        };
        if !(self.authority == current_authority) {
            return Err(AmmError::Unauthorized);
        }
        if let Some(fee) = new_fee {
            if !(fee < MAX_FEE) {
                return Err(AmmError::InvalidFee);
            }
            self.config.fee_rate = fee;
        }
        if let Some(lock) = locked {
            self.pool.locked = lock;
        }
        if renounce {
            self.config.authority = None;
            return Ok(());
        }
        if let Some(new_auth) = new_authority {
            self.config.authority = Some(new_auth);
        }
        Ok(())
    }
}

/// Every accepted update leaves a valid fee rate (below 100%) in place when
/// there was one before.
pub proof fn lemma_update_keeps_fee_valid(
    u: UpdateConfig,
    new_fee: Option<u16>,
    locked: Option<bool>,
    new_authority: Option<Pubkey>,
    renounce: bool,
)
    requires
        u.config.fee_is_valid(),
    ensures
        u.update_spec(new_fee, locked, new_authority, renounce) matches Ok(next)
            ==> next.config.fee_is_valid(),
{
}

/// Only the current authority gets an update accepted.
pub proof fn lemma_only_authority_updates(
    u: UpdateConfig,
    new_fee: Option<u16>,
    locked: Option<bool>,
    new_authority: Option<Pubkey>,
    renounce: bool,
)
    ensures
        u.update_spec(new_fee, locked, new_authority, renounce) is Ok ==> (u.config.authority matches Some(
            a,
        ) && a@ == u.authority@),
{
}

/// Renouncing is final: once the authority is gone every update is refused.
pub proof fn lemma_renounced_config_is_frozen(
    u: UpdateConfig,
    new_fee: Option<u16>,
    locked: Option<bool>,
    new_authority: Option<Pubkey>,
    renounce: bool,
)
    requires
        u.config.authority is None,
    ensures
        u.update_spec(new_fee, locked, new_authority, renounce) is Err,
{
}

/// An accepted update with `renounce` leaves no authority, whatever
/// `new_authority` says.
pub proof fn lemma_renounce_clears_authority(
    u: UpdateConfig,
    new_fee: Option<u16>,
    locked: Option<bool>,
    new_authority: Option<Pubkey>,
)
    ensures
        u.update_spec(new_fee, locked, new_authority, true) matches Ok(next)
            ==> next.config.authority is None,
{
}

} // verus!
