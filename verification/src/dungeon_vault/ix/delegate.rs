use vstd::prelude::*;
use vstd::string::StringSliceAdditionalSpecFns;

use crate::dungeon_vault::constants::{DUNGEON_SEED, PLAYER_STATE_SEED};
use crate::pubkey::Pubkey;

verus! {

/// Which account to delegate, by what its address is derived from.
#[derive(Clone, Copy, Debug)]
pub enum AccountType {
    Dungeon { dungeon_id: u64, creator: Pubkey },
    PlayerState { dungeon: Pubkey, player: Pubkey },
}

/// The seeds of the account's address.
pub open spec fn seeds_of(account_type: AccountType) -> Seq<Seq<u8>> {
    match account_type {
        AccountType::Dungeon { dungeon_id, creator } => seq![
            DUNGEON_SEED.spec_bytes(),
            vstd::bytes::spec_u64_to_le_bytes(dungeon_id),
            creator@,
        ],
        AccountType::PlayerState { dungeon, player } => seq![
            PLAYER_STATE_SEED.spec_bytes(),
            dungeon@,
            player@,
        ],
    }
}

fn str_bytes(s: &str) -> (r: Vec<u8>)
    ensures
        r@ == s.spec_bytes(),
{
    let b = s.as_bytes();
    let mut v: Vec<u8> = Vec::new();
    let mut i: usize = 0;
    while i < b.len()
        invariant
            0 <= i <= b@.len(),
            b@ == s.spec_bytes(),
            v@ == b@.take(i as int),
        decreases b@.len() - i,
    {
        v.push(b[i]);
        i = i + 1;
        proof {
            assert(v@ =~= b@.take(i as int));
        }
    }
    proof {
        assert(b@.take(b@.len() as int) =~= b@);
    }
    v
}

/// The seeds of the account's address: the dungeon seed, the id in
/// little-endian bytes and the creator for a dungeon; the player-state seed,
/// the dungeon and the player for a player state.
pub fn derive_seeds_from_account_type(account_type: &AccountType) -> (r: Vec<Vec<u8>>)
    ensures
        r@.len() == 3,
        forall|i: int| 0 <= i < 3 ==> #[trigger] r@[i]@ == seeds_of(*account_type)[i],
{
    match account_type {
        AccountType::Dungeon { dungeon_id, creator } => {
            let mut v: Vec<Vec<u8>> = Vec::new();
            v.push(str_bytes(DUNGEON_SEED));
            v.push(vstd::bytes::u64_to_le_bytes(*dungeon_id));
            v.push(creator.to_vec());
            v
        },
        AccountType::PlayerState { dungeon, player } => {
            let mut v: Vec<Vec<u8>> = Vec::new();
            v.push(str_bytes(PLAYER_STATE_SEED));
            v.push(dungeon.to_vec());
            v.push(player.to_vec());
            v
        },
    }
}

} // verus!
