use vstd::prelude::*;

verus! {

/// Size of the account discriminator.
pub const DISCRIMINATOR: usize = 8;

/// Fewest players a dungeon may be created for.
pub const MIN_PLAYERS: u8 = 2;

/// Most players a dungeon may be created for.
pub const MAX_PLAYERS: u8 = 10;

/// Lowest door number a player may pick.
pub const MIN_CHOICE: u8 = 1;

/// Highest door number a player may pick.
pub const MAX_CHOICE: u8 = 3;

/// Seed of the dungeon account address.
pub const DUNGEON_SEED: &'static str = "dungeon";

/// Seed of a player's state account address.
pub const PLAYER_STATE_SEED: &'static str = "player_state";

/// Seed of the vault that holds the entry fees.
pub const VAULT_SEED: &'static str = "vault";

} // verus!
