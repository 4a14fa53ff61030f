use vstd::prelude::*;

use crate::dungeon_vault::errors::DungeonError;
use crate::dungeon_vault::events::PlayerJoined;
use crate::dungeon_vault::states::{Dungeon, GameStatus, PlayerState};
use crate::pubkey::Pubkey;

verus! {

/// Bump seeds of the player state and vault addresses.
#[derive(Clone, Copy, Debug)]
pub struct JoinDungeonBumps {
    pub player_state: u8,
    pub vault: u8,
}

/// Accounts of the instruction by which a player enters a dungeon.
#[derive(Clone, Copy, Debug)]
pub struct JoinDungeon {
    pub player: Pubkey,
    /// Address of the dungeon account.
    pub dungeon_key: Pubkey,
    pub dungeon: Dungeon,
    pub player_state: PlayerState,
}

impl JoinDungeon {
    /// The accounts after an accepted join, or the error the join is refused with.
    pub open spec fn join_spec(self, bump: JoinDungeonBumps) -> Result<JoinDungeon, DungeonError> {
        let d = self.dungeon;
        if d.status != GameStatus::Waiting {
            Err(DungeonError::GameAlreadyStarted)
        } else if d.total_players >= d.max_players {
            Err(DungeonError::DungeonFull)
        } else if d.alive_players == u8::MAX || d.amount + d.entry_fee > u64::MAX {
            Err(DungeonError::Overflow)
        } else {
            let total = (d.total_players + 1) as u8;
            Ok(
                JoinDungeon {
                    dungeon: Dungeon {
                        total_players: total,
                        alive_players: (d.alive_players + 1) as u8,
                        amount: (d.amount + d.entry_fee) as u64,
                        status: if total == d.max_players {
                            GameStatus::Active
                        } else {
                            d.status
                        },
                        ..d
                    },
                    player_state: PlayerState {
                        player: self.player,
                        dungeon: self.dungeon_key,
                        alive: true,
                        current_choice: 0,
                        bump: bump.player_state,
                    },
                    ..self
                },
            )
        }
    }

    /// Admits the player: writes the player's state and counts the player in.
    /// On success the entry fee (`dungeon.entry_fee`) moves from the player to
    /// the vault, and the dungeon's pot (`amount`) grows by it. A dungeon that has started is refused, and so is one whose
    /// `total_players` has reached `max_players`; the last seat to be taken
    /// starts the game.
    pub fn handler(&mut self, _dungeon_id: u64, bump: &JoinDungeonBumps) -> (r: Result<
        PlayerJoined,
        DungeonError,
    >)
        ensures
            match old(self).join_spec(*bump) {
                Ok(next) => *final(self) == next && r == Ok::<PlayerJoined, DungeonError>(
                    PlayerJoined { player: old(self).player, dungeon: old(self).dungeon_key },
                ),
                Err(e) => r == Err::<PlayerJoined, DungeonError>(e) && *final(self) == *old(self),
            },
    {
        if !(self.dungeon.status == GameStatus::Waiting) {
            return Err(DungeonError::GameAlreadyStarted);
        }
        if self.dungeon.total_players >= self.dungeon.max_players {
            return Err(DungeonError::DungeonFull);
        }
        let total = match self.dungeon.total_players.checked_add(1) {
            Some(t) => t,
            None => {
                return Err(DungeonError::Overflow);
            },
        };
        let alive = match self.dungeon.alive_players.checked_add(1) {
            Some(a) => a,
            None => {
                return Err(DungeonError::Overflow);
            },
        };
        let amount = match self.dungeon.amount.checked_add(self.dungeon.entry_fee) {
            Some(a) => a,
            None => {
                return Err(DungeonError::Overflow);
            },
        };
        self.player_state = PlayerState {
            player: self.player,
            dungeon: self.dungeon_key,
            alive: true,
            current_choice: 0,
            bump: bump.player_state,
        };
        self.dungeon.total_players = total;
        self.dungeon.alive_players = alive;
        self.dungeon.amount = amount;
        if self.dungeon.total_players == self.dungeon.max_players {
            self.dungeon.status = GameStatus::Active;
        }
        Ok(PlayerJoined { player: self.player, dungeon: self.dungeon_key })
    }
}

} // verus!
