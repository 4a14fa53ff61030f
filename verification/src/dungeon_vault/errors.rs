use vstd::prelude::*;

verus! {

/// Errors that the dungeon instructions answer with.
#[derive(Clone, Copy, Debug, PartialEq, Eq, Structural)]
pub enum DungeonError {
    InvalidEntryFee,
    InsufficientFunds,
    AlreadyClaimed,
    DungeonFull,
    GameAlreadyStarted,
    GameNotActive,
    InvalidChoice,
    AlreadySubmitted,
    GameNotFinished,
    PlayerEliminated,
    RewardAlreadyClaimed,
    Unauthorized,
    NotEnoughPlayers,
    Overflow,
    Underflow,
}

} // verus!
