use vstd::prelude::*;

use crate::dungeon_vault::constants::{MAX_CHOICE, MIN_CHOICE};
use crate::dungeon_vault::errors::DungeonError;
use crate::dungeon_vault::events::ChoiceSubmitted;
use crate::dungeon_vault::states::{Dungeon, GameStatus, PlayerState};
use crate::pubkey::Pubkey;

verus! {

/// Accounts of the instruction by which a player picks a door.
#[derive(Clone, Copy, Debug)]
pub struct SubmitChoice {
    pub player: Pubkey,
    pub dungeon: Dungeon,
    pub player_state: PlayerState,
}

impl SubmitChoice {
    /// The error a choice is refused with, if any.
    pub open spec fn refusal(self, choice: u8) -> Option<DungeonError> {
        if self.dungeon.status != GameStatus::Active {
            Some(DungeonError::GameNotActive)
        } else if !self.player_state.alive {
            Some(DungeonError::PlayerEliminated)
        } else if !(MIN_CHOICE <= choice <= MAX_CHOICE) {
            Some(DungeonError::InvalidChoice)
        } else {
            None
        }
    }

    /// Records a living player's door for this round.
    pub fn handler(&mut self, _dungeon_id: u64, choice: u8) -> (r: Result<
        ChoiceSubmitted,
        DungeonError,
    >)
        ensures
            match old(self).refusal(choice) {
                Some(e) => r == Err::<ChoiceSubmitted, DungeonError>(e) && *final(self)
                    == *old(self),
                None => r == Ok::<ChoiceSubmitted, DungeonError>(
                    ChoiceSubmitted { player: old(self).player, choice },
                ) && *final(self) == (SubmitChoice {
                    player_state: PlayerState { current_choice: choice, ..old(self).player_state },
                    ..*old(self)
                }),
            },
            old(self).dungeon.status == GameStatus::Active && old(self).player_state.alive ==> (
            (r is Ok <==> 1 <= choice <= 3) && (r is Ok ==> final(self).player_state.current_choice
                == choice)),
            r is Ok ==> old(self).dungeon.status == GameStatus::Active && old(self).player_state.alive
                && 1 <= choice <= 3,
    {
        if !(self.dungeon.status == GameStatus::Active) {
            return Err(DungeonError::GameNotActive);
        }
        if !self.player_state.alive {
            return Err(DungeonError::PlayerEliminated);
        }
        if !(choice >= MIN_CHOICE && choice <= MAX_CHOICE) {
            return Err(DungeonError::InvalidChoice);
        }
        self.player_state.current_choice = choice;
        Ok(ChoiceSubmitted { player: self.player, choice })
    }
}

/// A living player of an active game may pick any of the doors 1, 2 and 3
/// and no other; the pick is recorded as made. A player who is out, or a game
/// that is not running, takes no pick.
pub proof fn lemma_every_door_can_be_picked(ctx: SubmitChoice, choice: u8)
    ensures
        ctx.dungeon.status == GameStatus::Active && ctx.player_state.alive ==> (ctx.refusal(
            choice,
        ) is None <==> 1 <= choice <= 3),
        ctx.refusal(choice) is None ==> ctx.dungeon.status == GameStatus::Active
            && ctx.player_state.alive,
        1 <= choice <= 3 && ctx.refusal(choice) is Some ==> ctx.dungeon.status != GameStatus::Active
            || !ctx.player_state.alive,
{
}

} // verus!
