use vstd::prelude::*;

use crate::dungeon_vault::constants::{MAX_PLAYERS, MIN_PLAYERS};
use crate::dungeon_vault::errors::DungeonError;
use crate::dungeon_vault::events::DungeonInitialized;
use crate::dungeon_vault::states::{Dungeon, GameStatus};
use crate::pubkey::Pubkey;

verus! {

/// Bump seeds of the dungeon and vault addresses.
#[derive(Clone, Copy, Debug)]
pub struct InitializeDungeonBumps {
    pub dungeon: u8,
    pub vault: u8,
}

/// Accounts of the instruction that opens a dungeon.
#[derive(Clone, Copy, Debug)]
pub struct InitializeDungeon {
    pub creator: Pubkey,
    pub dungeon: Dungeon,
}

impl InitializeDungeon {
    /// The fresh dungeon: waiting for players, no round played, nothing held.
    pub open spec fn fresh_dungeon(
        self,
        dungeon_id: u64,
        entry_fee: u64,
        max_players: u8,
        bump: InitializeDungeonBumps,
    ) -> Dungeon {
        Dungeon {
            authority: self.creator,
            entry_fee,
            dungeon_id,
            amount: 0,
            total_players: 0,
            max_players,
            alive_players: 0,
            round: 0,
            trap_number: 0,
            status: GameStatus::Waiting,
            claimed: false,
            dungeon_bump: bump.dungeon,
            vault_bump: bump.vault,
        }
    }

    /// Opens a dungeon; refuses a zero entry fee and a player count outside
    /// `MIN_PLAYERS..=MAX_PLAYERS`.
    pub fn handler(
        &mut self,
        dungeon_id: u64,
        entry_fee: u64,
        max_players: u8,
        bump: &InitializeDungeonBumps,
    ) -> (r: Result<DungeonInitialized, DungeonError>)
        ensures
            entry_fee == 0 ==> r == Err::<DungeonInitialized, DungeonError>(
                DungeonError::InvalidEntryFee,
            ),
            entry_fee > 0 && !(MIN_PLAYERS <= max_players <= MAX_PLAYERS) ==> r == Err::<
                DungeonInitialized,
                DungeonError,
            >(DungeonError::NotEnoughPlayers),
            r is Err ==> *final(self) == *old(self),
            r matches Ok(ev) ==> {
                &&& entry_fee > 0
                &&& MIN_PLAYERS <= max_players <= MAX_PLAYERS
                &&& final(self).creator == old(self).creator
                &&& final(self).dungeon == old(self).fresh_dungeon(
                    dungeon_id,
                    entry_fee,
                    max_players,
                    *bump,
                )
                &&& ev == (DungeonInitialized { authority: old(self).creator, entry_fee, max_players })
            },
            entry_fee > 0 && MIN_PLAYERS <= max_players <= MAX_PLAYERS ==> r is Ok,
    {
        if !(entry_fee > 0) {
            return Err(DungeonError::InvalidEntryFee);
        }
        if !(max_players >= MIN_PLAYERS && max_players <= MAX_PLAYERS) {
            return Err(DungeonError::NotEnoughPlayers);
        }
        self.dungeon = Dungeon {
            authority: self.creator,
            entry_fee,
            dungeon_id,
            total_players: 0,
            max_players,
            alive_players: 0,
            round: 0,
            trap_number: 0,
            status: GameStatus::Waiting,
            dungeon_bump: bump.dungeon,
            vault_bump: bump.vault,
            amount: 0,
            claimed: false,
        };
        Ok(DungeonInitialized { authority: self.creator, entry_fee, max_players })
    }
}

} // verus!
