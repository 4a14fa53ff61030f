use solana_programs::dungeon_vault::constants::MAX_CHOICE;
use solana_programs::dungeon_vault::errors::DungeonError;
use solana_programs::dungeon_vault::ix::claim_draw::ClaimDraw;
use solana_programs::dungeon_vault::ix::claim_reward::ClaimReward;
use solana_programs::dungeon_vault::ix::claim_winner::ClaimWinner;
use solana_programs::dungeon_vault::ix::delegate::{derive_seeds_from_account_type, AccountType};
use solana_programs::dungeon_vault::ix::initialize_dungeon::{InitializeDungeon, InitializeDungeonBumps};
use solana_programs::dungeon_vault::ix::join_dungeon::{JoinDungeon, JoinDungeonBumps};
use solana_programs::dungeon_vault::ix::request_randomness::{
    callback_randomness_handler, CallbackRequestRandomness, RequestRandomness,
};
use solana_programs::dungeon_vault::ix::resolve_round::ResolveRound;
use solana_programs::dungeon_vault::ix::submit_choice::SubmitChoice;
use solana_programs::dungeon_vault::ix::undelegate::{undelegate_handler, Undelegate};
use solana_programs::dungeon_vault::states::{Dungeon, GameStatus, PlayerState};
use solana_programs::pubkey::Pubkey;

fn key(b: u8) -> Pubkey {
    Pubkey([b; 32])
}

fn dungeon(status: GameStatus) -> Dungeon {
    Dungeon {
        authority: key(1),
        entry_fee: 1_000,
        dungeon_id: 42,
        amount: 0,
        total_players: 0,
        max_players: 4,
        alive_players: 0,
        round: 0,
        trap_number: 0,
        status,
        claimed: false,
        dungeon_bump: 0,
        vault_bump: 0,
    }
}

fn player(who: u8, dungeon_key: u8, alive: bool, choice: u8) -> PlayerState {
    PlayerState { player: key(who), dungeon: key(dungeon_key), alive, current_choice: choice, bump: 0 }
}

#[test]
fn initialize_dungeon_opens_waiting_game() {
    let mut ix = InitializeDungeon { creator: key(1), dungeon: dungeon(GameStatus::Settled) };
    let ev = ix.handler(42, 1_000, 4, &InitializeDungeonBumps { dungeon: 3, vault: 4 }).unwrap();
    assert_eq!(ev.entry_fee, 1_000);
    assert_eq!(ev.max_players, 4);
    assert!(ev.authority == key(1));
    assert_eq!(ix.dungeon.status, GameStatus::Waiting);
    assert_eq!(ix.dungeon.dungeon_id, 42);
    assert_eq!(ix.dungeon.vault_bump, 4);
    assert_eq!(ix.dungeon.total_players, 0);
}

#[test]
fn initialize_dungeon_refusals() {
    let mut ix = InitializeDungeon { creator: key(1), dungeon: dungeon(GameStatus::Settled) };
    let b = InitializeDungeonBumps { dungeon: 3, vault: 4 };
    assert_eq!(ix.handler(42, 0, 4, &b).unwrap_err(), DungeonError::InvalidEntryFee);
    assert_eq!(ix.handler(42, 1, 1, &b).unwrap_err(), DungeonError::NotEnoughPlayers);
    assert_eq!(ix.handler(42, 1, 200, &b).unwrap_err(), DungeonError::NotEnoughPlayers);
    assert_eq!(ix.dungeon.status, GameStatus::Settled);
}

#[test]
fn join_admits_into_waiting_dungeon_with_room() {
    let mut ix = JoinDungeon { player: key(7), dungeon_key: key(2), dungeon: dungeon(GameStatus::Waiting), player_state: player(0, 0, false, 0) };
    let ev = ix.handler(42, &JoinDungeonBumps { player_state: 5, vault: 6 }).unwrap();
    assert!(ev.player == key(7) && ev.dungeon == key(2));
    assert_eq!(ix.dungeon.total_players, 1);
    assert_eq!(ix.dungeon.amount, 1_000);
    assert_eq!(ix.dungeon.alive_players, 1);
    assert!(ix.player_state.alive && ix.player_state.player == key(7));
    assert!(ix.player_state.dungeon == key(2));
    assert_eq!(ix.player_state.current_choice, 0);
    assert_eq!(ix.player_state.bump, 5);
    assert_eq!(ix.dungeon.status, GameStatus::Waiting);
}

#[test]
fn last_seat_starts_the_game() {
    let mut d = dungeon(GameStatus::Waiting);
    d.total_players = 3;
    d.alive_players = 3;
    let mut ix = JoinDungeon { player: key(7), dungeon_key: key(2), dungeon: d, player_state: player(0, 0, false, 0) };
    ix.handler(42, &JoinDungeonBumps { player_state: 5, vault: 6 }).unwrap();
    assert_eq!(ix.dungeon.total_players, 4);
    assert_eq!(ix.dungeon.status, GameStatus::Active);
}

#[test]
fn join_refused_when_full_or_started() {
    let mut d = dungeon(GameStatus::Waiting);
    d.total_players = 4;
    d.alive_players = 4;
    let mut full = JoinDungeon { player: key(7), dungeon_key: key(2), dungeon: d, player_state: player(0, 0, false, 0) };
    let b = JoinDungeonBumps { player_state: 5, vault: 6 };
    assert_eq!(full.handler(42, &b).unwrap_err(), DungeonError::DungeonFull);
    assert_eq!(full.dungeon.total_players, 4);
    let mut started = JoinDungeon { dungeon: dungeon(GameStatus::Active), ..full };
    assert_eq!(started.handler(42, &b).unwrap_err(), DungeonError::GameAlreadyStarted);
}

#[test]
fn join_overflow_is_refused() {
    let mut d = dungeon(GameStatus::Waiting);
    d.alive_players = 255;
    let mut ix = JoinDungeon { player: key(7), dungeon_key: key(2), dungeon: d, player_state: player(0, 0, false, 0) };
    assert_eq!(ix.handler(42, &JoinDungeonBumps { player_state: 5, vault: 6 }).unwrap_err(), DungeonError::Overflow);
    let mut d = dungeon(GameStatus::Waiting);
    d.amount = u64::MAX - 999;
    let mut ix = JoinDungeon { player: key(7), dungeon_key: key(2), dungeon: d, player_state: player(0, 0, false, 0) };
    assert_eq!(ix.handler(42, &JoinDungeonBumps { player_state: 5, vault: 6 }).unwrap_err(), DungeonError::Overflow);
    assert_eq!(ix.dungeon.total_players, 0);
}

#[test]
fn submit_choice_rules() {
    let mut ix = SubmitChoice { player: key(7), dungeon: dungeon(GameStatus::Active), player_state: player(7, 2, true, 0) };
    assert_eq!(ix.handler(42, 2).unwrap().choice, 2);
    assert_eq!(ix.player_state.current_choice, 2);
    assert_eq!(ix.handler(42, 0).unwrap_err(), DungeonError::InvalidChoice);
    assert_eq!(ix.handler(42, MAX_CHOICE + 1).unwrap_err(), DungeonError::InvalidChoice);
    assert_eq!(ix.player_state.current_choice, 2);
    ix.player_state.alive = false;
    assert_eq!(ix.handler(42, 1).unwrap_err(), DungeonError::PlayerEliminated);
    ix.dungeon.status = GameStatus::Waiting;
    assert_eq!(ix.handler(42, 1).unwrap_err(), DungeonError::GameNotActive);
}

#[test]
fn resolve_round_eliminates_trapped_players() {
    let mut d = dungeon(GameStatus::Active);
    d.alive_players = 3;
    d.trap_number = 2;
    let mut ix = ResolveRound { authority: key(1), dungeon_key: key(2), dungeon: d, player_state: player(7, 2, true, 1) };
    let players = vec![player(7, 2, true, 2), player(8, 2, true, 1), player(9, 2, false, 2)];
    let out = ix.handler(42, &players).unwrap();
    let events = &out.eliminated;
    assert_eq!(events.len(), 1);
    assert!(events[0].player == key(7));
    assert_eq!(events[0].round, 0);
    assert_eq!(out.players.len(), 3);
    assert!(!out.players[0].alive && out.players[0].player == key(7));
    assert!(out.players[1].alive && out.players[1].player == key(8));
    assert!(!out.players[2].alive && out.players[2].player == key(9));
    assert_eq!(ix.dungeon.alive_players, 2);
    assert_eq!(ix.dungeon.round, 1);
    assert_eq!(ix.dungeon.trap_number, 0);
    assert_eq!(ix.dungeon.status, GameStatus::Active);
}

#[test]
fn resolve_round_finishes_with_one_survivor() {
    let mut d = dungeon(GameStatus::Active);
    d.alive_players = 2;
    d.trap_number = 3;
    let mut ix = ResolveRound { authority: key(1), dungeon_key: key(2), dungeon: d, player_state: player(7, 2, true, 1) };
    let players = vec![player(7, 2, true, 3), player(8, 2, true, 1)];
    let out = ix.handler(42, &players).unwrap();
    assert_eq!(ix.dungeon.alive_players, 1);
    assert_eq!(ix.dungeon.status, GameStatus::Finished);
    assert_eq!(ix.dungeon.trap_number, 3);
    assert!(!out.players[0].alive && out.players[1].alive);
}

#[test]
fn resolve_round_with_no_survivor_is_a_draw() {
    let mut d = dungeon(GameStatus::Active);
    d.alive_players = 2;
    d.trap_number = 1;
    d.amount = 2_000;
    let mut ix = ResolveRound { authority: key(1), dungeon_key: key(2), dungeon: d, player_state: player(7, 2, true, 1) };
    let players = vec![player(7, 2, true, 1), player(8, 2, true, 1)];
    let out = ix.handler(42, &players).unwrap();
    assert_eq!(out.eliminated.len(), 2);
    assert_eq!(ix.dungeon.alive_players, 0);
    assert_eq!(ix.dungeon.status, GameStatus::Finished);
    assert_eq!(ix.dungeon.round, 0);
    // the creator can now take the pot back
    let mut draw = ClaimDraw { authority: key(1), dungeon: ix.dungeon, vault_lamports: 2_000 };
    let ev = draw.handler(42).unwrap();
    assert_eq!(ev.amount, 2_000);
    assert!(ev.winner == key(1));
    assert_eq!(draw.dungeon.status, GameStatus::Settled);
}

#[test]
fn resolve_round_refusals_change_nothing() {
    let mut d = dungeon(GameStatus::Active);
    d.alive_players = 2;
    d.trap_number = 3;
    let mut ix = ResolveRound { authority: key(1), dungeon_key: key(2), dungeon: d, player_state: player(7, 2, true, 1) };
    let players = vec![player(7, 2, true, 3), player(8, 9, true, 1)];
    assert_eq!(ix.handler(42, &players).unwrap_err(), DungeonError::Unauthorized);
    assert_eq!(ix.dungeon.alive_players, 2);
    let mut ix = ResolveRound { dungeon: Dungeon { alive_players: 0, ..d }, ..ix };
    assert_eq!(ix.handler(42, &vec![player(7, 2, true, 3)]).unwrap_err(), DungeonError::Underflow);
    let mut ix = ResolveRound { dungeon: Dungeon { round: 255, ..d }, ..ix };
    assert_eq!(ix.handler(42, &vec![]).unwrap_err(), DungeonError::Overflow);
}

fn finished(alive: u8) -> Dungeon {
    let mut d = dungeon(GameStatus::Finished);
    d.alive_players = alive;
    d.amount = 500;
    d
}

#[test]
fn winner_claims_once() {
    let mut ix = ClaimWinner { caller: key(7), dungeon: finished(1), player_state: player(7, 2, true, 0), vault_lamports: 500 };
    let ev = ix.handler(42).unwrap();
    assert!(ev.winner == key(7));
    assert_eq!(ev.amount, 500);
    assert!(ix.dungeon.claimed);
    assert_eq!(ix.dungeon.status, GameStatus::Settled);
    assert_eq!(ix.handler(42).unwrap_err(), DungeonError::GameNotFinished);
}

#[test]
fn winner_claim_refusals() {
    let mut ix = ClaimWinner { caller: key(7), dungeon: finished(2), player_state: player(7, 2, true, 0), vault_lamports: 500 };
    assert_eq!(ix.handler(42).unwrap_err(), DungeonError::Unauthorized);
    ix.dungeon.alive_players = 1;
    ix.vault_lamports = 499;
    assert_eq!(ix.handler(42).unwrap_err(), DungeonError::InsufficientFunds);
    ix.vault_lamports = 500;
    ix.player_state.alive = false;
    assert_eq!(ix.handler(42).unwrap_err(), DungeonError::PlayerEliminated);
    ix.dungeon.claimed = true;
    assert_eq!(ix.handler(42).unwrap_err(), DungeonError::AlreadyClaimed);
}

#[test]
fn draw_goes_to_creator() {
    let mut ix = ClaimDraw { authority: key(1), dungeon: finished(0), vault_lamports: 500 };
    let ev = ix.handler(42).unwrap();
    assert!(ev.winner == key(1));
    assert_eq!(ix.dungeon.status, GameStatus::Settled);
    let mut other = ClaimDraw { authority: key(3), dungeon: finished(0), vault_lamports: 500 };
    assert_eq!(other.handler(42).unwrap_err(), DungeonError::Unauthorized);
    let mut alive = ClaimDraw { authority: key(1), dungeon: finished(1), vault_lamports: 500 };
    assert_eq!(alive.handler(42).unwrap_err(), DungeonError::Unauthorized);
}

#[test]
fn claim_reward_both_ways() {
    let mut win = ClaimReward { caller: key(7), dungeon: finished(1), player_state: player(7, 2, true, 0), vault_lamports: 500 };
    assert_eq!(win.handler(42).unwrap().amount, 500);
    let mut draw = ClaimReward { caller: key(1), dungeon: finished(0), player_state: player(1, 2, false, 0), vault_lamports: 500 };
    assert!(draw.handler(42).unwrap().winner == key(1));
    let mut stranger = ClaimReward { caller: key(8), dungeon: finished(1), player_state: player(7, 2, true, 0), vault_lamports: 500 };
    assert_eq!(stranger.handler(42).unwrap_err(), DungeonError::Unauthorized);
    assert!(!stranger.dungeon.claimed);
}

#[test]
fn randomness_request_and_callback() {
    let mut req = RequestRandomness { payer: key(7), dungeon_key: key(2), dungeon: dungeon(GameStatus::Active), player_state: player(7, 2, true, 0) };
    assert_eq!(req.handler(9).unwrap(), [9u8; 32]);
    req.dungeon.status = GameStatus::Waiting;
    assert_eq!(req.handler(9).unwrap_err(), DungeonError::GameNotActive);
    let mut cb = CallbackRequestRandomness { vrf_program_identity: key(4), dungeon: dungeon(GameStatus::Active) };
    callback_randomness_handler(&mut cb, [200u8; 32]).unwrap();
    assert!(cb.dungeon.trap_number >= 1 && cb.dungeon.trap_number <= MAX_CHOICE);
    // 200 % 3 == 2, so the trap is 1 + 2
    assert_eq!(cb.dungeon.trap_number, 3);
}

#[test]
fn trap_draw_skips_biased_bytes() {
    // with doors 1..=3 the bytes at or above 255 are skipped, scanning from the end
    let mut bytes = [255u8; 32];
    bytes[0] = 7;
    let mut cb = CallbackRequestRandomness { vrf_program_identity: key(4), dungeon: dungeon(GameStatus::Active) };
    callback_randomness_handler(&mut cb, bytes).unwrap();
    assert_eq!(cb.dungeon.trap_number, 1 + 7 % 3);
    bytes[20] = 10;
    callback_randomness_handler(&mut cb, bytes).unwrap();
    assert_eq!(cb.dungeon.trap_number, 1 + 10 % 3);
    // no unbiased byte at all: the last byte decides
    callback_randomness_handler(&mut cb, [255u8; 32]).unwrap();
    assert_eq!(cb.dungeon.trap_number, 1 + 255 % 3);
}

#[test]
fn undelegate_only_when_finished() {
    assert!(undelegate_handler(&Undelegate { player: key(7), dungeon: dungeon(GameStatus::Finished) }, 42).is_ok());
    assert_eq!(undelegate_handler(&Undelegate { player: key(7), dungeon: dungeon(GameStatus::Active) }, 42), Err(DungeonError::GameNotFinished));
}

#[test]
fn seeds_of_accounts() {
    let seeds = derive_seeds_from_account_type(&AccountType::Dungeon { dungeon_id: 258, creator: key(1) });
    assert_eq!(seeds.len(), 3);
    assert_eq!(seeds[0], b"dungeon".to_vec());
    assert_eq!(seeds[1], vec![2, 1, 0, 0, 0, 0, 0, 0]);
    assert_eq!(seeds[2], vec![1u8; 32]);
    let seeds = derive_seeds_from_account_type(&AccountType::PlayerState { dungeon: key(2), player: key(3) });
    assert_eq!(seeds[0], b"player_state".to_vec());
    assert_eq!(seeds[1], vec![2u8; 32]);
    assert_eq!(seeds[2], vec![3u8; 32]);
}
