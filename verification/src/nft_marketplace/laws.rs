use vstd::prelude::*;

use crate::nft_marketplace::fees::{lemma_fee_is_basis_points, lemma_reward_per_thousand, lemma_split_conserves_payment};
use crate::nft_marketplace::instructions::accept_offer::{accept_offer_spec, AcceptOffer};
use crate::nft_marketplace::instructions::buy::{buy_spec, Buy};
use crate::nft_marketplace::instructions::buy_with_token::{buy_with_token_spec, BuyWithToken};

verus! {

/// Every sale moves exactly the price (or the bid): the seller's part and
/// the marketplace fee add up to it, and the fee never exceeds it. A sale
/// goes through only for the listed asset and to its own seller.
pub proof fn lemma_sales_conserve_value(buy: Buy, token_buy: BuyWithToken, accept: AcceptOffer)
    requires
        token_buy.listing.payment_mint is Some,
    ensures
        buy_spec(buy) matches Ok(s) ==> {
            &&& s.payout.fee_amount + s.payout.maker_amount == buy.listing.price
            &&& s.payout.fee_amount <= buy.listing.price
            &&& buy.listing.maker@ == buy.maker@ && buy.listing.asset@ == buy.asset@
        },
        buy_with_token_spec(token_buy) matches Ok(s) ==> {
            &&& s.payout.fee_amount + s.payout.maker_amount == token_buy.listing.price
            &&& s.payout.fee_amount <= token_buy.listing.price
            &&& token_buy.listing.maker@ == token_buy.maker@ && token_buy.listing.asset@
                == token_buy.asset@
        },
        accept_offer_spec(accept) matches Ok(p) ==> {
            &&& p.fee_amount + p.maker_amount == accept.offer.amount
            &&& p.fee_amount <= accept.offer.amount
            &&& accept.listing.maker@ == accept.maker@ && accept.offer.taker@ == accept.taker@
        },
{
    lemma_split_conserves_payment(buy.listing.price, buy.market_place.fee);
    lemma_split_conserves_payment(token_buy.listing.price, token_buy.market_place.fee);
    lemma_split_conserves_payment(accept.offer.amount, accept.market_place.fee);
}

/// A sale charges the marketplace's fee in basis points of the price (or the
/// bid), rounded down, and a purchase pays the buyer the reward for its price:
/// one unit per 1_000, or one whole token under 1_000. A SOL purchase of the
/// listed asset from its seller goes through whenever the fee is at most 100%
/// and `price * fee` fits in `u64`; so does the acceptance of a bid for it.
pub proof fn lemma_sales_charge_the_fee(buy: Buy, accept: AcceptOffer)
    ensures
        buy_spec(buy) matches Ok(s) ==> {
            let price = buy.listing.price;
            let fee = buy.market_place.fee;
            &&& s.payout.fee_amount * 10_000 <= price * fee < (s.payout.fee_amount + 1) * 10_000
            &&& price < 1_000 ==> s.reward_amount == 1_000_000
            &&& price >= 1_000 ==> s.reward_amount * 1_000 <= price < (s.reward_amount + 1) * 1_000
        },
        buy.listing.asset@ == buy.asset@ && buy.listing.maker@ == buy.maker@
            && buy.listing.payment_mint is None && buy.market_place.fee <= 10_000
            && buy.listing.price * buy.market_place.fee <= u64::MAX ==> buy_spec(buy) is Ok,
        accept_offer_spec(accept) matches Ok(p) ==> p.fee_amount * 10_000 <= accept.offer.amount
            * accept.market_place.fee < (p.fee_amount + 1) * 10_000,
        accept.listing.maker@ == accept.maker@ && accept.listing.asset@ == accept.asset@
            && accept.offer.taker@ == accept.taker@ && accept.offer.asset@ == accept.asset@
            && accept.market_place.fee <= 10_000 && accept.offer.amount * accept.market_place.fee
            <= u64::MAX ==> accept_offer_spec(accept) is Ok,
{
    lemma_fee_is_basis_points(buy.listing.price, buy.market_place.fee);
    lemma_reward_per_thousand(buy.listing.price);
    lemma_fee_is_basis_points(accept.offer.amount, accept.market_place.fee);
}

} // verus!
