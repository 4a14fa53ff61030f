use vstd::prelude::*;

use crate::nft_marketplace::error::MarketPlaceError;

verus! {

/// How a payment is divided: the marketplace's fee and the seller's part.
#[derive(Clone, Copy, Debug, PartialEq, Eq, Structural)]
pub struct Payout {
    pub fee_amount: u64,
    pub maker_amount: u64,
}

/// A completed purchase: the payout and the reward tokens minted to the buyer.
#[derive(Clone, Copy, Debug, PartialEq, Eq, Structural)]
pub struct Settlement {
    pub payout: Payout,
    pub reward_amount: u64,
}

/// How a payment of `amount` divides between the marketplace fee
/// (`amount * fee / 10_000`) and the seller; `None` when `amount * fee`
/// overflows `u64` or the fee exceeds the amount.
pub open spec fn fee_split(amount: u64, fee: u16) -> Option<(u64, u64)> {
    if amount as int * fee as int > u64::MAX {
        None
    } else {
        let fee_amount = (amount as int * fee as int) / 10_000;
        if fee_amount > amount {
            None
        } else {
            Some((fee_amount as u64, (amount - fee_amount) as u64))
        }
    }
}

/// Splits a payment into `(fee_amount, maker_amount)`.
pub fn split_payment(amount: u64, fee: u16) -> (r: Option<(u64, u64)>)
    ensures
        r == fee_split(amount, fee),
{
    let fee_amount = match amount.checked_mul(fee as u64) {
        Some(p) => p / 10_000,
        None => {
            return None;
        },
    };
    match amount.checked_sub(fee_amount) {
        Some(maker_amount) => Some((fee_amount, maker_amount)),
        None => None,
    }
}

/// Smallest reward for a purchase: one 6-decimal token.
pub const MIN_REWARD: u64 = 1_000_000;

/// Reward tokens minted for a purchase: `price / 1_000` (one 6-decimal token
/// per SOL), and at least `MIN_REWARD` when the price is too small to earn
/// any.
pub open spec fn reward_for(price: u64) -> u64 {
    if price / 1_000 == 0 {
        MIN_REWARD
    } else {
        price / 1_000
    }
}

/// The payout of a `price` under `fee`, or `err` when it cannot be split.
pub open spec fn payout_or(price: u64, fee: u16, err: MarketPlaceError) -> Result<Payout, MarketPlaceError> {
    match fee_split(price, fee) {
        Some((f, m)) => Ok(Payout { fee_amount: f, maker_amount: m }),
        None => Err(err),
    }
}

/// Divides `price` under `fee`, answering `err` when it cannot be split.
pub fn compute_payout(price: u64, fee: u16, err: MarketPlaceError) -> (r: Result<Payout, MarketPlaceError>)
    ensures
        r == payout_or(price, fee, err),
{
    match split_payment(price, fee) {
        Some((fee_amount, maker_amount)) => Ok(Payout { fee_amount, maker_amount }),
        None => Err(err),
    }
}

/// Reward tokens for a purchase at `price`.
pub fn reward_amount(price: u64) -> (r: u64)
    ensures
        r == reward_for(price),
{
    let reward = price / 1_000;
    if reward == 0 {
        MIN_REWARD
    } else {
        reward
    }
}

/// A successful split conserves the payment: fee and seller's part add up to
/// it exactly.
pub proof fn lemma_split_conserves_payment(amount: u64, fee: u16)
    ensures
        fee_split(amount, fee) matches Some((f, m)) ==> f + m == amount && f <= amount,
        fee <= 10_000 ==> fee_split(amount, fee) is Some || amount as int * fee as int > u64::MAX,
{
    if amount as int * fee as int <= u64::MAX && fee <= 10_000 {
        assert(amount as int * fee as int <= amount as int * 10_000) by (nonlinear_arith)
            requires
                fee <= 10_000,
                amount >= 0,
        ;
    }
}

/// The marketplace keeps `amount * fee / 10_000` basis points of a payment,
/// rounded down, and the seller gets the rest; the split exists whenever
/// `fee` is at most 100% and `amount * fee` fits in `u64`.
pub proof fn lemma_fee_is_basis_points(amount: u64, fee: u16)
    ensures
        fee_split(amount, fee) matches Some((f, m)) ==> {
            &&& f * 10_000 <= amount * fee
            &&& amount * fee < (f + 1) * 10_000
            &&& m == amount - f
        },
        fee <= 10_000 && amount * fee <= u64::MAX ==> fee_split(amount, fee) is Some,
{
    lemma_split_conserves_payment(amount, fee);
    if amount * fee <= u64::MAX {
        let p = amount as int * fee as int;
        assert(p >= 0) by (nonlinear_arith)
            requires
                p == amount as int * fee as int,
        ;
        assert(p / 10_000 * 10_000 <= p < (p / 10_000 + 1) * 10_000) by (nonlinear_arith)
            requires
                p >= 0,
        ;
    }
}

/// A purchase earns one reward unit per 1_000 of price, rounded down, and
/// one whole token (`1_000_000` units) when the price is under 1_000.
pub proof fn lemma_reward_per_thousand(price: u64)
    ensures
        price < 1_000 ==> reward_for(price) == 1_000_000,
        price >= 1_000 ==> reward_for(price) * 1_000 <= price < (reward_for(price) + 1) * 1_000,
        price >= 1_000 ==> reward_for(price) >= 1,
{
}

} // verus!
