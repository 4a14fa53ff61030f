use vstd::prelude::*;

use crate::dungeon_vault::errors::DungeonError;
use crate::dungeon_vault::events::RewardClaimed;
use crate::dungeon_vault::ix::claim_winner::settled;
use crate::dungeon_vault::states::{Dungeon, GameStatus};
use crate::pubkey::Pubkey;

verus! {

/// Accounts of the instruction by which the creator takes back the vault
/// when nobody survived.
#[derive(Clone, Copy, Debug)]
pub struct ClaimDraw {
    pub authority: Pubkey,
    pub dungeon: Dungeon,
    /// Lamports held by the vault.
    pub vault_lamports: u64,
}

impl ClaimDraw {
    /// The error the claim is refused with, if any.
    pub open spec fn refusal(self) -> Option<DungeonError> {
        let d = self.dungeon;
        if d.authority@ != self.authority@ {
            Some(DungeonError::Unauthorized)
        } else if d.status != GameStatus::Finished {
            Some(DungeonError::GameNotFinished)
        } else if d.claimed {
            Some(DungeonError::AlreadyClaimed)
        } else if self.vault_lamports < d.amount {
            Some(DungeonError::InsufficientFunds)
        } else if d.alive_players != 0 {
            Some(DungeonError::Unauthorized)
        } else {
            None
        }
    }

    /// Pays the vault's `dungeon.amount` to the creator when a finished game
    /// has no survivor, and settles the dungeon.
    pub fn handler(&mut self, _dungeon_id: u64) -> (r: Result<RewardClaimed, DungeonError>)
        ensures
            match old(self).refusal() {
                Some(e) => r == Err::<RewardClaimed, DungeonError>(e) && *final(self)
                    == *old(self),
                None => r == Ok::<RewardClaimed, DungeonError>(
                    RewardClaimed { winner: old(self).authority, amount: old(self).dungeon.amount },
                ) && *final(self) == (ClaimDraw { dungeon: settled(old(self).dungeon), ..*old(self) }),
            },
    {
        if !(self.dungeon.authority == self.authority) {
            return Err(DungeonError::Unauthorized);
        }
        if !(self.dungeon.status == GameStatus::Finished) {
            return Err(DungeonError::GameNotFinished);
        }
        if self.dungeon.claimed {
            return Err(DungeonError::AlreadyClaimed);
        }
        if !(self.vault_lamports >= self.dungeon.amount) {
            return Err(DungeonError::InsufficientFunds);
        }
        if !(self.dungeon.alive_players == 0) {
            return Err(DungeonError::Unauthorized);
        }
        self.dungeon.claimed = true;
        self.dungeon.status = GameStatus::Settled;
        Ok(RewardClaimed { winner: self.authority, amount: self.dungeon.amount })
    }
}

} // verus!
