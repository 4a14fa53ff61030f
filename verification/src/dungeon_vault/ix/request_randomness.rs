use vstd::prelude::*;

use crate::dungeon_vault::constants::{MAX_CHOICE, MIN_CHOICE};
use crate::dungeon_vault::errors::DungeonError;
use crate::dungeon_vault::states::{Dungeon, GameStatus, PlayerState};
use crate::pubkey::Pubkey;

verus! {

/// The last of the first `n` bytes that lies below `threshold`, if any.
pub open spec fn last_byte_below(bytes: Seq<u8>, n: nat, threshold: int) -> Option<u8>
    decreases n,
{
    if n == 0 || n > bytes.len() {
        None
    } else if bytes[n - 1] < threshold {
        Some(bytes[n - 1])
    } else {
        last_byte_below(bytes, (n - 1) as nat, threshold)
    }
}

/// The number in `min_value..=max_value` drawn from 32 VRF bytes: with
/// `range` the size of the interval, the bytes are scanned from the last one
/// down for one below the largest multiple of `range` not above 256, so that
/// the draw is unbiased; the last byte stands in when none is. The number is
/// `min_value + byte % range`.
pub open spec fn vrf_draw(bytes: Seq<u8>, min_value: u8, max_value: u8) -> u8 {
    let range: int = max_value - min_value + 1;
    let threshold: int = 256int / range * range;
    let b = match last_byte_below(bytes, bytes.len(), threshold) {
        Some(b) => b,
        None => bytes[31],
    };
    (min_value + (b as int) % range) as u8
}

/// Calls `ephemeral_vrf_sdk::rnd::random_u8_with_range`, which maps 32 VRF
/// bytes to a number in `min_value..=max_value` as its documentation
/// describes (it panics when `min_value > max_value`). The contract states
/// that algorithm: `vrf_draw`.
#[verifier::external_body]
fn random_u8_with_range(bytes: &[u8; 32], min_value: u8, max_value: u8) -> (r: u8)
    requires
        min_value <= max_value,
    ensures
        r == vrf_draw(bytes@, min_value, max_value),
{
    ephemeral_vrf_sdk::rnd::random_u8_with_range(bytes, min_value, max_value)
}

/// A draw lies within its bounds.
pub proof fn lemma_vrf_draw_in_range(bytes: Seq<u8>, min_value: u8, max_value: u8)
    requires
        min_value <= max_value,
        bytes.len() == 32,
    ensures
        min_value <= vrf_draw(bytes, min_value, max_value) <= max_value,
{
    let range: int = max_value - min_value + 1;
    let threshold: int = 256int / range * range;
    let b: u8 = match last_byte_below(bytes, bytes.len(), threshold) {
        Some(b) => b,
        None => bytes[31],
    };
    assert(0 <= (b as int) % range < range) by (nonlinear_arith)
        requires
            range >= 1,
            b >= 0,
    ;
}

/// Accounts of the instruction that asks the VRF oracle for a trap door.
#[derive(Clone, Copy, Debug)]
pub struct RequestRandomness {
    pub payer: Pubkey,
    /// Address of the dungeon account.
    pub dungeon_key: Pubkey,
    pub dungeon: Dungeon,
    pub player_state: PlayerState,
}

impl RequestRandomness {
    /// Decides whether randomness may be requested: only while the game is
    /// active. On success gives the caller seed for the request, every byte
    /// of it `client_seed`.
    pub fn handler(&mut self, client_seed: u8) -> (r: Result<[u8; 32], DungeonError>)
        ensures
            *final(self) == *old(self),
            old(self).dungeon.status != GameStatus::Active ==> r == Err::<[u8; 32], DungeonError>(
                DungeonError::GameNotActive,
            ),
            old(self).dungeon.status == GameStatus::Active ==> (r matches Ok(seed) && seed@
                == Seq::new(32, |i: int| client_seed)),
    {
        if !(self.dungeon.status == GameStatus::Active) {
            return Err(DungeonError::GameNotActive);
        }
        let seed = [client_seed; 32];
        proof {
            assert(seed@ =~= Seq::new(32, |i: int| client_seed));
        }
        Ok(seed)
    }
}

/// Accounts of the VRF oracle's callback.
#[derive(Clone, Copy, Debug)]
pub struct CallbackRequestRandomness {
    pub vrf_program_identity: Pubkey,
    pub dungeon: Dungeon,
}

impl CallbackRequestRandomness {
    /// Stores the drawn trap door in the dungeon.
    pub fn set_trap_number(&mut self, trap_number: u8)
        ensures
            *final(self) == (CallbackRequestRandomness {
                dungeon: Dungeon { trap_number, ..old(self).dungeon },
                ..*old(self)
            }),
    {
        self.dungeon.trap_number = trap_number;
    }
}

/// Consumes the VRF output: draws the trap door in `1..=MAX_CHOICE` from it
/// and stores it in the dungeon.
pub fn callback_randomness_handler(
    ctx: &mut CallbackRequestRandomness,
    randomness: [u8; 32],
) -> (r: Result<(), DungeonError>)
    ensures
        r is Ok,
        *final(ctx) == (CallbackRequestRandomness {
            dungeon: Dungeon {
                trap_number: vrf_draw(randomness@, 1, MAX_CHOICE),
                ..old(ctx).dungeon
            },
            ..*old(ctx)
        }),
        MIN_CHOICE <= final(ctx).dungeon.trap_number <= MAX_CHOICE,
{
    let rnd_u8 = random_u8_with_range(&randomness, 1, MAX_CHOICE);
    proof {
        lemma_vrf_draw_in_range(randomness@, 1, MAX_CHOICE);
    }
    ctx.set_trap_number(rnd_u8);
    Ok(())
}

} // verus!
