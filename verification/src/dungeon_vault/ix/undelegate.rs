use vstd::prelude::*;

use crate::dungeon_vault::errors::DungeonError;
use crate::dungeon_vault::states::{Dungeon, GameStatus};
use crate::pubkey::Pubkey;

verus! {

/// Accounts of the instruction that commits the game back to the base layer.
#[derive(Clone, Copy, Debug)]
pub struct Undelegate {
    pub player: Pubkey,
    pub dungeon: Dungeon,
}

/// Decides whether the dungeon may be committed and undelegated: only once
/// the game is finished.
pub fn undelegate_handler(ctx: &Undelegate, _dungeon_id: u64) -> (r: Result<(), DungeonError>)
    ensures
        ctx.dungeon.status == GameStatus::Finished ==> r is Ok,
        ctx.dungeon.status != GameStatus::Finished ==> r == Err::<(), DungeonError>(
            DungeonError::GameNotFinished,
        ),
{
    if !(ctx.dungeon.status == GameStatus::Finished) {
        return Err(DungeonError::GameNotFinished);
    }
    Ok(())
}

} // verus!
