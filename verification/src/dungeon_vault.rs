//! Last-player-standing dungeon: players pay an entry fee, pick a door each
//! round, a VRF picks the trapped door, and the last survivor takes the vault.
pub mod constants;
pub mod errors;
pub mod events;
pub mod ix;
pub mod states;
pub mod laws;
