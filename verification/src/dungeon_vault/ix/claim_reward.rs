use vstd::prelude::*;

use crate::dungeon_vault::errors::DungeonError;
use crate::dungeon_vault::events::RewardClaimed;
use crate::dungeon_vault::ix::claim_winner::settled;
use crate::dungeon_vault::states::{Dungeon, GameStatus, PlayerState};
use crate::pubkey::Pubkey;

verus! {

/// Accounts of the combined claim: the survivor takes the vault, or the
/// creator does when nobody survived.
#[derive(Clone, Copy, Debug)]
pub struct ClaimReward {
    pub caller: Pubkey,
    pub dungeon: Dungeon,
    pub player_state: PlayerState,
    /// Lamports held by the vault.
    pub vault_lamports: u64,
}

impl ClaimReward {
    /// The error the claim is refused with, if any.
    pub open spec fn refusal(self) -> Option<DungeonError> {
        let d = self.dungeon;
        if self.vault_lamports < d.amount {
            Some(DungeonError::InsufficientFunds)
        } else if self.caller@ != self.player_state.player@ {
            Some(DungeonError::Unauthorized)
        } else if d.status != GameStatus::Finished {
            Some(DungeonError::GameNotFinished)
        } else if d.claimed {
            Some(DungeonError::AlreadyClaimed)
        } else if d.alive_players == 0 {
            if self.caller@ != d.authority@ {
                Some(DungeonError::Unauthorized)
            } else {
                None
            }
        } else if d.alive_players != 1 {
            Some(DungeonError::Unauthorized)
        } else if !self.player_state.alive {
            Some(DungeonError::PlayerEliminated)
        } else {
            None
        }
    }

    /// Pays the vault's `dungeon.amount` to the caller and settles the dungeon.
    pub fn handler(&mut self, _dungeon_id: u64) -> (r: Result<RewardClaimed, DungeonError>)
        ensures
            match old(self).refusal() {
                Some(e) => r == Err::<RewardClaimed, DungeonError>(e) && *final(self)
                    == *old(self),
                None => r == Ok::<RewardClaimed, DungeonError>(
                    RewardClaimed { winner: old(self).caller, amount: old(self).dungeon.amount },
                ) && *final(self) == (ClaimReward {
                    dungeon: settled(old(self).dungeon),
                    ..*old(self)
                }),
            },
    {
        let amount = self.dungeon.amount;
        if !(self.vault_lamports >= amount) {
            return Err(DungeonError::InsufficientFunds);
        }
        if !(self.caller == self.player_state.player) {
            return Err(DungeonError::Unauthorized);
        }
        if !(self.dungeon.status == GameStatus::Finished) {
            return Err(DungeonError::GameNotFinished);
        }
        if self.dungeon.claimed {
            return Err(DungeonError::AlreadyClaimed);
        }
        if self.dungeon.alive_players == 0 {
            if !(self.caller == self.dungeon.authority) {
                return Err(DungeonError::Unauthorized);
            }
        } else {
            if !(self.dungeon.alive_players == 1) {
                return Err(DungeonError::Unauthorized);
            }
            if !self.player_state.alive {
                return Err(DungeonError::PlayerEliminated);
            }
        }
        self.dungeon.claimed = true;
        self.dungeon.status = GameStatus::Settled;
        Ok(RewardClaimed { winner: self.caller, amount })
    }
}

} // verus!
