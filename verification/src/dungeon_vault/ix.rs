pub mod claim_draw;
pub mod claim_reward;
pub mod claim_winner;
pub mod delegate;
pub mod initialize_dungeon;
pub mod join_dungeon;
pub mod request_randomness;
pub mod resolve_round;
pub mod submit_choice;
pub mod undelegate;
