use vstd::prelude::*;

use crate::decimal::{parse_u64, parse_u64_spec, unsigned_decimal};
use crate::pubkey::Pubkey;

verus! {

/// Who may update an asset.
#[derive(Clone, Copy, Debug)]
pub enum UpdateAuthority {
    NoAuthority,
    Address(Pubkey),
    Collection(Pubkey),
}

/// A core asset as the staking program reads it.
#[derive(Clone, Copy, Debug)]
pub struct AssetInfo {
    /// Address of the asset account.
    pub key: Pubkey,
    pub owner: Pubkey,
    pub update_authority: UpdateAuthority,
}

/// A key/value attribute of an asset or collection.
#[derive(Clone, Debug)]
pub struct Attribute {
    pub key: String,
    pub value: String,
}

/// A collection as the staking program reads it: address and attributes.
#[derive(Clone, Debug)]
pub struct CollectionInfo {
    pub key: Pubkey,
    pub attributes: Vec<Attribute>,
}

/// The asset belongs to `collection`.
pub open spec fn in_collection(asset: AssetInfo, collection: Pubkey) -> bool {
    asset.update_authority matches UpdateAuthority::Collection(c) && c@ == collection@
}

/// Whether the asset belongs to `collection`.
pub fn is_in_collection(asset: &AssetInfo, collection: &Pubkey) -> (r: bool)
    ensures
        r == in_collection(*asset, *collection),
{
    match &asset.update_authority {
        UpdateAuthority::Collection(c) => *c == *collection,
        _ => false,
    }
}

/// The staked count a collection records: the value of its first
/// `staked_count` attribute when that parses as a `u64`, otherwise 0.
pub open spec fn recorded_count(attributes: Seq<Attribute>) -> u64
    decreases attributes.len(),
{
    if attributes.len() == 0 {
        0
    } else if attributes[0].key@ == "staked_count"@ {
        match parse_u64_spec(attributes[0].value@) {
            Some(v) => v,
            None => 0,
        }
    } else {
        recorded_count(attributes.drop_first())
    }
}

/// Reads the staked count recorded in a collection's attributes.
pub fn staked_count(attributes: &Vec<Attribute>) -> (r: u64)
    ensures
        r == recorded_count(attributes@),
{
    let target = "staked_count".to_owned();
    let mut i: usize = 0;
    proof {
        assert(attributes@.skip(0) =~= attributes@);
    }
    while i < attributes.len()
        invariant
            0 <= i <= attributes@.len(),
            target@ == "staked_count"@,
            recorded_count(attributes@) == recorded_count(attributes@.skip(i as int)),
        decreases attributes@.len() - i,
    {
        proof {
            assert(attributes@.skip(i as int)[0] == attributes@[i as int]);
            assert(attributes@.skip(i as int).drop_first() =~= attributes@.skip(i + 1));
        }
        if attributes[i].key == target {
            return match parse_u64(attributes[i].value.as_str()) {
                Some(v) => v,
                None => 0,
            };
        }
        i = i + 1;
    }
    0
}

/// `s` spells `n` in decimal: ASCII digits only, no sign, and no leading zero
/// unless `n` is zero itself.
pub open spec fn is_decimal_of(s: Seq<char>, n: u64) -> bool {
    &&& unsigned_decimal(s) == Some(n as nat)
    &&& s[0] != '+'
    &&& s.len() > 1 ==> s[0] != '0'
}

/// Calls `u64::to_string`, std's `Display` for integers, which writes the
/// number in decimal digits, with no sign and no leading zeros. The contract
/// states exactly that.
#[verifier::external_body]
fn decimal_string(n: u64) -> (r: String)
    ensures
        is_decimal_of(r@, n),
{
    n.to_string()
}

/// The `staked_count` attribute that records `count` on a collection; read
/// back, it gives `count`.
pub fn staked_count_attribute(count: u64) -> (r: Attribute)
    ensures
        r.key@ == "staked_count"@,
        is_decimal_of(r.value@, count),
        recorded_count(seq![r]) == count,
{
    let r = Attribute { key: "staked_count".to_owned(), value: decimal_string(count) };
    proof {
        assert(seq![r][0] == r);
    }
    r
}

/// The `Staked` attribute of an asset: `"true"` while it is staked,
/// `"false"` otherwise.
pub fn staked_flag_attribute(staked: bool) -> (r: Attribute)
    ensures
        r.key@ == "Staked"@,
        r.value@ == (if staked {
            "true"@
        } else {
            "false"@
        }),
{
    let value = if staked {
        "true".to_owned()
    } else {
        "false".to_owned()
    };
    Attribute { key: "Staked".to_owned(), value }
}

} // verus!
