use vstd::prelude::*;

use crate::pubkey::Pubkey;

verus! {

/// Phase of a dungeon game.
#[derive(Clone, Copy, Debug, PartialEq, Eq, Structural)]
pub enum GameStatus {
    Waiting,
    Active,
    Finished,
    Settled,
}

/// A dungeon game.
#[derive(Clone, Copy, Debug)]
pub struct Dungeon {
    pub authority: Pubkey,
    pub entry_fee: u64,
    pub dungeon_id: u64,
    pub amount: u64,
    pub total_players: u8,
    pub max_players: u8,
    pub alive_players: u8,
    pub round: u8,
    pub trap_number: u8,
    pub status: GameStatus,
    pub claimed: bool,
    pub dungeon_bump: u8,
    pub vault_bump: u8,
}

/// One player's standing in one dungeon.
#[derive(Clone, Copy, Debug)]
pub struct PlayerState {
    pub player: Pubkey,
    pub dungeon: Pubkey,
    pub alive: bool,
    pub current_choice: u8,
    pub bump: u8,
}

} // verus!
