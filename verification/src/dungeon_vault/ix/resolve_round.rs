use vstd::prelude::*;

use crate::dungeon_vault::errors::DungeonError;
use crate::dungeon_vault::events::PlayerEliminated;
use crate::dungeon_vault::states::{Dungeon, GameStatus, PlayerState};
use crate::pubkey::Pubkey;

verus! {

/// Accounts of the instruction that settles a round.
#[derive(Clone, Copy, Debug)]
pub struct ResolveRound {
    pub authority: Pubkey,
    /// Address of the dungeon account.
    pub dungeon_key: Pubkey,
    pub dungeon: Dungeon,
    pub player_state: PlayerState,
}

/// A player's state after the round: a living player on the trapped door is
/// eliminated; anyone else is left as they were.
pub open spec fn after_round(p: PlayerState, trap: u8) -> PlayerState {
    if p.alive && p.current_choice == trap {
        PlayerState { alive: false, ..p }
    } else {
        p
    }
}

/// What a resolved round gives back: the elimination events, and the player
/// states passed in as they are to be stored after the round.
#[derive(Clone, Debug)]
pub struct RoundOutcome {
    pub eliminated: Vec<PlayerEliminated>,
    pub players: Vec<PlayerState>,
}

/// Walks the players in order: each must belong to `dungeon_key`; each living
/// player on the trapped door is eliminated, lowering `alive`. Gives the
/// survivors' count and the elimination events, or the first error met.
pub open spec fn resolve_scan(
    dungeon_key: Pubkey,
    trap: u8,
    round: u8,
    alive: u8,
    players: Seq<PlayerState>,
) -> Result<(u8, Seq<PlayerEliminated>), DungeonError>
    decreases players.len(),
{
    if players.len() == 0 {
        Ok((alive, Seq::empty()))
    } else {
        match resolve_scan(dungeon_key, trap, round, alive, players.drop_last()) {
            Err(e) => Err(e),
            Ok((a, events)) => {
                let p = players.last();
                if p.dungeon@ != dungeon_key@ {
                    Err(DungeonError::Unauthorized)
                } else if !p.alive || p.current_choice != trap {
                    Ok((a, events))
                } else if a == 0 {
                    Err(DungeonError::Underflow)
                } else {
                    Ok(((a - 1) as u8, events.push(PlayerEliminated { player: p.player, round })))
                }
            },
        }
    }
}

impl ResolveRound {
    /// The dungeon after the round, with the eliminations, or the error the
    /// round is refused with.
    pub open spec fn resolve_spec(self, players: Seq<PlayerState>) -> Result<
        (Dungeon, Seq<PlayerEliminated>),
        DungeonError,
    > {
        let d = self.dungeon;
        match resolve_scan(self.dungeon_key, d.trap_number, d.round, d.alive_players, players) {
            Err(e) => Err(e),
            Ok((alive, events)) => if alive <= 1 {
                Ok((Dungeon { alive_players: alive, status: GameStatus::Finished, ..d }, events))
            } else if d.round == u8::MAX {
                Err(DungeonError::Overflow)
            } else {
                Ok(
                    (
                        Dungeon {
                            alive_players: alive,
                            round: (d.round + 1) as u8,
                            trap_number: 0,
                            ..d
                        },
                        events,
                    ),
                )
            },
        }
    }

    /// Eliminates every living player in `remaining_accounts` whose door is
    /// the trap: the dungeon counts them out, each is reported by an event,
    /// and the player states come back with the eliminated ones marked dead,
    /// to be stored. Then the game finishes if at most one player is left,
    /// or else the next round opens with no trap drawn.
    pub fn handler(&mut self, _dungeon_id: u64, remaining_accounts: &Vec<PlayerState>) -> (r: Result<
        RoundOutcome,
        DungeonError,
    >)
        ensures
            match old(self).resolve_spec(remaining_accounts@) {
                Ok((d, events)) => r matches Ok(out) && out.eliminated@ == events
                    && out.players@ == remaining_accounts@.map_values(
                    |p: PlayerState| after_round(p, old(self).dungeon.trap_number),
                ) && *final(self) == (ResolveRound { dungeon: d, ..*old(self) }),
                Err(e) => r == Err::<RoundOutcome, DungeonError>(e) && *final(self) == *old(self),
            },
    {
        let trap = self.dungeon.trap_number;
        let round = self.dungeon.round;
        let mut alive = self.dungeon.alive_players;
        let mut events: Vec<PlayerEliminated> = Vec::new();
        let mut players: Vec<PlayerState> = Vec::new();
        let mut i: usize = 0;
        while i < remaining_accounts.len()
            invariant
                0 <= i <= remaining_accounts@.len(),
                trap == self.dungeon.trap_number,
                round == self.dungeon.round,
                players@ == remaining_accounts@.take(i as int).map_values(
                    |p: PlayerState| after_round(p, trap),
                ),
                resolve_scan(
                    self.dungeon_key,
                    trap,
                    round,
                    self.dungeon.alive_players,
                    remaining_accounts@.take(i as int),
                ) == Ok::<(u8, Seq<PlayerEliminated>), DungeonError>((alive, events@)),
            decreases remaining_accounts@.len() - i,
        {
            let player_state = remaining_accounts[i];
            proof {
                assert(remaining_accounts@.take(i + 1).drop_last() =~= remaining_accounts@.take(
                    i as int,
                ));
                assert(remaining_accounts@.take(i + 1).last() == player_state);
            }
            if !(player_state.dungeon == self.dungeon_key) {
                proof {
                    lemma_scan_error_sticks(
                        self.dungeon_key,
                        trap,
                        round,
                        self.dungeon.alive_players,
                        remaining_accounts@,
                        i + 1,
                    );
                }
                return Err(DungeonError::Unauthorized);
            }
            if player_state.alive && player_state.current_choice == trap {
                if alive == 0 {
                    proof {
                        lemma_scan_error_sticks(
                            self.dungeon_key,
                            trap,
                            round,
                            self.dungeon.alive_players,
                            remaining_accounts@,
                            i + 1,
                        );
                    }
                    return Err(DungeonError::Underflow);
                }
                alive = alive - 1;
                events.push(PlayerEliminated { player: player_state.player, round });
                players.push(PlayerState { alive: false, ..player_state });
            } else {
                players.push(player_state);
            }
            proof {
                assert(players@ =~= remaining_accounts@.take(i + 1).map_values(
                    |p: PlayerState| after_round(p, trap),
                ));
            }
            i = i + 1;
        }
        proof {
            assert(remaining_accounts@.take(remaining_accounts@.len() as int) =~= remaining_accounts@);
        }
        if alive <= 1 {
            self.dungeon.alive_players = alive;
            self.dungeon.status = GameStatus::Finished;
        } else {
            let next_round = match round.checked_add(1) {
                Some(n) => n,
                None => {
                    return Err(DungeonError::Overflow);
                },
            };
            self.dungeon.alive_players = alive;
            self.dungeon.round = next_round;
            self.dungeon.trap_number = 0;
        }
        Ok(RoundOutcome { eliminated: events, players })
    }
}

/// Once the walk over a prefix fails, the walk over the whole list fails the
/// same way.
proof fn lemma_scan_error_sticks(
    dungeon_key: Pubkey,
    trap: u8,
    round: u8,
    alive: u8,
    players: Seq<PlayerState>,
    k: int,
)
    requires
        0 <= k <= players.len(),
        resolve_scan(dungeon_key, trap, round, alive, players.take(k)) is Err,
    ensures
        resolve_scan(dungeon_key, trap, round, alive, players) == resolve_scan(
            dungeon_key,
            trap,
            round,
            alive,
            players.take(k),
        ),
    decreases players.len() - k,
{
    if k < players.len() {
        assert(players.take(k + 1).drop_last() =~= players.take(k));
        lemma_scan_error_sticks(dungeon_key, trap, round, alive, players, k + 1);
    } else {
        assert(players.take(k) =~= players);
    }
}

/// A round never revives anyone: the survivors after the round plus the
/// players it eliminated are exactly the survivors before it. The game
/// finishes exactly when at most one player is left, and every player state
/// given back is the one passed in, marked dead if it stood on the trap.
pub proof fn lemma_round_accounts_for_everyone(r: ResolveRound, players: Seq<PlayerState>)
    ensures
        r.resolve_spec(players) matches Ok((d, events)) ==> {
            &&& d.alive_players + events.len() == r.dungeon.alive_players
            &&& (d.status == GameStatus::Finished <==> d.alive_players <= 1
                || r.dungeon.status == GameStatus::Finished)
            &&& d.alive_players <= 1 ==> d.status == GameStatus::Finished
                && d.round == r.dungeon.round
        },
        forall|i: int|
            0 <= i < players.len() ==> {
                let q = #[trigger] after_round(players[i], r.dungeon.trap_number);
                &&& q.player == players[i].player
                &&& q.dungeon == players[i].dungeon
                &&& (q.alive <==> players[i].alive && players[i].current_choice
                    != r.dungeon.trap_number)
            },
{
    lemma_scan_count(r.dungeon_key, r.dungeon.trap_number, r.dungeon.round, r.dungeon.alive_players, players);
}

proof fn lemma_scan_count(
    dungeon_key: Pubkey,
    trap: u8,
    round: u8,
    alive: u8,
    players: Seq<PlayerState>,
)
    ensures
        resolve_scan(dungeon_key, trap, round, alive, players) matches Ok((a, events)) ==> a
            + events.len() == alive,
    decreases players.len(),
{
    if players.len() > 0 {
        lemma_scan_count(dungeon_key, trap, round, alive, players.drop_last());
    }
}

} // verus!
