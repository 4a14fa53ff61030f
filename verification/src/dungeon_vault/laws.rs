use vstd::prelude::*;

use crate::dungeon_vault::errors::DungeonError;
use crate::dungeon_vault::ix::claim_draw::ClaimDraw;
use crate::dungeon_vault::ix::claim_reward::ClaimReward;
use crate::dungeon_vault::ix::claim_winner::{settled, ClaimWinner};
use crate::dungeon_vault::ix::join_dungeon::{JoinDungeon, JoinDungeonBumps};
use crate::dungeon_vault::ix::resolve_round::ResolveRound;
use crate::dungeon_vault::states::{Dungeon, GameStatus, PlayerState};

verus! {

/// The vault is paid out at most once: on a settled dungeon every kind of
/// claim is refused, whoever asks.
pub proof fn lemma_settled_dungeon_pays_no_more(
    d: Dungeon,
    winner: ClaimWinner,
    draw: ClaimDraw,
    reward: ClaimReward,
)
    requires
        winner.dungeon == settled(d),
        draw.dungeon == settled(d),
        reward.dungeon == settled(d),
    ensures
        winner.refusal() is Some,
        draw.refusal() is Some,
        reward.refusal() is Some,
{
}

/// An accepted claim pays the one survivor of a finished game, or the
/// creator when nobody survived.
pub proof fn lemma_claims_pay_the_rightful_party(
    winner: ClaimWinner,
    draw: ClaimDraw,
    reward: ClaimReward,
)
    ensures
        winner.refusal() is None ==> winner.dungeon.status == GameStatus::Finished
            && winner.dungeon.alive_players == 1 && winner.player_state.alive,
        draw.refusal() is None ==> draw.dungeon.status == GameStatus::Finished
            && draw.dungeon.alive_players == 0 && draw.authority@ == draw.dungeon.authority@,
        reward.refusal() is None ==> reward.dungeon.status == GameStatus::Finished && (
        (reward.dungeon.alive_players == 1 && reward.player_state.alive
            && reward.caller@ == reward.player_state.player@) || (reward.dungeon.alive_players
            == 0 && reward.caller@ == reward.dungeon.authority@)),
{
}

/// Joining and resolving rounds never clear the `claimed` mark, nor change
/// the entry fee or the authority of a dungeon; a join adds exactly the entry
/// fee to the pot, and a round leaves the pot alone.
pub proof fn lemma_play_keeps_settlement(
    join: JoinDungeon,
    bump: JoinDungeonBumps,
    round: ResolveRound,
    players: Seq<PlayerState>,
)
    ensures
        join.join_spec(bump) matches Ok(next) ==> {
            &&& next.dungeon.claimed == join.dungeon.claimed
            &&& next.dungeon.amount == join.dungeon.amount + join.dungeon.entry_fee
            &&& next.dungeon.entry_fee == join.dungeon.entry_fee
            &&& next.dungeon.authority == join.dungeon.authority
        },
        round.resolve_spec(players) matches Ok((d, _)) ==> {
            &&& d.claimed == round.dungeon.claimed
            &&& d.amount == round.dungeon.amount
            &&& d.entry_fee == round.dungeon.entry_fee
            &&& d.authority == round.dungeon.authority
        },
{
}

/// A waiting dungeon with a free seat admits the player (unless the count
/// of living players or the pot would overflow); an admitted join keeps the
/// pot at one entry fee per player, counts one more
/// player, alive, never fills the dungeon beyond `max_players`, and starts the
/// game exactly when the last seat is taken.
pub proof fn lemma_join_counts_one_player(join: JoinDungeon, bump: JoinDungeonBumps)
    ensures
        join.dungeon.status == GameStatus::Waiting && join.dungeon.total_players
            < join.dungeon.max_players && join.dungeon.alive_players < u8::MAX && join.dungeon.amount + join.dungeon.entry_fee
            <= u64::MAX ==> join.join_spec(
            bump,
        ) is Ok,
        join.join_spec(bump) matches Ok(next) ==> {
            &&& join.dungeon.status == GameStatus::Waiting
            &&& next.dungeon.total_players == join.dungeon.total_players + 1
            &&& next.dungeon.alive_players == join.dungeon.alive_players + 1
            &&& next.dungeon.total_players <= next.dungeon.max_players
            &&& (next.dungeon.status == GameStatus::Active <==> next.dungeon.total_players
                == next.dungeon.max_players)
            &&& (next.dungeon.status == GameStatus::Waiting <==> next.dungeon.total_players
                < next.dungeon.max_players)
            &&& next.player_state.alive
            &&& (join.dungeon.amount == join.dungeon.entry_fee * join.dungeon.total_players
                ==> next.dungeon.amount == next.dungeon.entry_fee * next.dungeon.total_players)
        },
        join.dungeon.total_players >= join.dungeon.max_players && join.dungeon.status
            == GameStatus::Waiting ==> join.join_spec(bump) == Err::<JoinDungeon, DungeonError>(
            DungeonError::DungeonFull,
        ),
{
    let f = join.dungeon.entry_fee as int;
    let t = join.dungeon.total_players as int;
    assert(f * (t + 1) == f * t + f) by (nonlinear_arith);
}

/// The rightful party of a finished, unpaid game whose vault holds the pot is
/// paid: the one survivor through a winner's claim, the creator through a
/// draw claim when nobody survived. Paying settles the dungeon and marks it
/// claimed, and changes nothing else in it.
pub proof fn lemma_rightful_claims_are_paid(winner: ClaimWinner, draw: ClaimDraw, d: Dungeon)
    ensures
        winner.dungeon.status == GameStatus::Finished && !winner.dungeon.claimed
            && winner.vault_lamports >= winner.dungeon.amount && winner.dungeon.alive_players == 1
            && winner.player_state.alive ==> winner.refusal() is None,
        draw.dungeon.status == GameStatus::Finished && !draw.dungeon.claimed && draw.vault_lamports
            >= draw.dungeon.amount && draw.dungeon.alive_players == 0 && draw.authority@
            == draw.dungeon.authority@ ==> draw.refusal() is None,
        settled(d).status == GameStatus::Settled && settled(d).claimed,
        settled(d) == (Dungeon { status: GameStatus::Settled, claimed: true, ..d }),
{
}

} // verus!
