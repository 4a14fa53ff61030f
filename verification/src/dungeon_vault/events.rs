use vstd::prelude::*;

use crate::pubkey::Pubkey;

verus! {

#[derive(Clone, Copy, Debug)]
pub struct DungeonInitialized {
    pub authority: Pubkey,
    pub entry_fee: u64,
    pub max_players: u8,
}

#[derive(Clone, Copy, Debug)]
pub struct PlayerJoined {
    pub player: Pubkey,
    pub dungeon: Pubkey,
}

#[derive(Clone, Copy, Debug)]
pub struct ChoiceSubmitted {
    pub player: Pubkey,
    pub choice: u8,
}

#[derive(Clone, Copy, Debug)]
pub struct RandomnessFulfilled {
    pub dungeon: Pubkey,
    pub random_value: u64,
    pub trap_number: u8,
}

#[derive(Clone, Copy, Debug)]
pub struct PlayerEliminated {
    pub player: Pubkey,
    pub round: u8,
}

#[derive(Clone, Copy, Debug)]
pub struct RewardClaimed {
    pub winner: Pubkey,
    pub amount: u64,
}

} // verus!
