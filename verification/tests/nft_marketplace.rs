use solana_programs::nft_marketplace::error::MarketPlaceError;
use solana_programs::nft_marketplace::fees::{split_payment, Payout};
use solana_programs::nft_marketplace::instructions::accept_offer::{self, AcceptOffer};
use solana_programs::nft_marketplace::instructions::buy::{self, Buy};
use solana_programs::nft_marketplace::instructions::buy_with_token::{self, BuyWithToken};
use solana_programs::nft_marketplace::instructions::cancel_offer::{self, CancelOffer};
use solana_programs::nft_marketplace::instructions::delist::{self, Delist};
use solana_programs::nft_marketplace::instructions::initialize::{self, Initialize, InitializeBumps};
use solana_programs::nft_marketplace::instructions::list::{self, List};
use solana_programs::nft_marketplace::instructions::make_offer::{self, MakeOffer};
use solana_programs::nft_marketplace::state::{Listing, MarketPlace, Offer};
use solana_programs::pubkey::Pubkey;

fn key(b: u8) -> Pubkey {
    Pubkey([b; 32])
}

fn market(fee: u16) -> MarketPlace {
    MarketPlace { admin: key(1), fee, treasury: key(2), rewards_mint: key(3), treasury_bump: 0, rewards_bump: 0, name: "market".to_string(), bump: 0 }
}

fn listing(price: u64, payment_mint: Option<Pubkey>) -> Listing {
    Listing { maker: key(5), asset: key(6), price, payment_mint, bump: 1 }
}

// Example from the fee comment: price=1_000_000, fee=250 (2.5%)
#[test]
fn fee_example_from_docs() {
    assert_eq!(split_payment(1_000_000, 250), Some((25_000, 975_000)));
}

#[test]
fn fee_split_edges() {
    assert_eq!(split_payment(u64::MAX, 2), None);
    assert_eq!(split_payment(100, 20_000), None);
    assert_eq!(split_payment(100, 10_000), Some((100, 0)));
    assert_eq!(split_payment(99, 100), Some((0, 99)));
}

#[test]
fn initialize_marketplace() {
    let mut ctx = Initialize { admin: key(1), treasury_pda: key(2), rewards_mint: key(3), market_place: market(1), bumps: InitializeBumps { market_place: 7, treasury_pda: 8, rewards_mint: 9 } };
    assert_eq!(initialize::handler(&mut ctx, "bazaar".to_string(), 250), Ok(()));
    assert_eq!(ctx.market_place.fee, 250);
    assert_eq!(ctx.market_place.name, "bazaar");
    assert_eq!(ctx.market_place.bump, 7);
    assert_eq!(ctx.market_place.treasury_bump, 8);
    assert_eq!(initialize::handler(&mut ctx, "x".to_string(), 0), Err(MarketPlaceError::InvalidFee));
    assert_eq!(initialize::handler(&mut ctx, String::new(), 5), Err(MarketPlaceError::InvalidName));
    assert_eq!(ctx.market_place.name, "bazaar");
}

#[test]
fn list_and_delist() {
    let mut ctx = List { maker: key(5), listing: listing(0, None), listing_bump: 4, asset: key(6), payment_mint: Some(key(9)) };
    assert_eq!(list::handler(&mut ctx, 0), Err(MarketPlaceError::InvalidPrice));
    assert_eq!(list::handler(&mut ctx, 700), Ok(()));
    assert_eq!(ctx.listing.price, 700);
    assert!(ctx.listing.payment_mint == Some(key(9)));
    assert_eq!(ctx.listing.bump, 4);
    assert_eq!(delist::handler(&Delist { maker: key(5), asset: key(6), listing: ctx.listing }), Ok(()));
    assert_eq!(delist::handler(&Delist { maker: key(4), asset: key(6), listing: ctx.listing }), Err(MarketPlaceError::Unauthorized));
    assert_eq!(delist::handler(&Delist { maker: key(5), asset: key(7), listing: ctx.listing }), Err(MarketPlaceError::ListingNotFound));
}

#[test]
fn buy_with_sol() {
    let ctx = Buy { taker: key(8), maker: key(5), asset: key(6), market_place: market(250), listing: listing(1_000_000, None) };
    let s = buy::handler(&ctx).unwrap();
    assert_eq!(s.payout, Payout { fee_amount: 25_000, maker_amount: 975_000 });
    assert_eq!(s.reward_amount, 1_000);
}

#[test]
fn cheap_purchase_earns_the_minimum_reward() {
    let ctx = Buy { taker: key(8), maker: key(5), asset: key(6), market_place: market(250), listing: listing(999, None) };
    let s = buy::handler(&ctx).unwrap();
    assert_eq!(s.reward_amount, 1_000_000);
    let ctx = Buy { listing: listing(1_999, None), ..ctx };
    assert_eq!(buy::handler(&ctx).unwrap().reward_amount, 1);
}

#[test]
fn buy_refusals() {
    let ctx = Buy { taker: key(8), maker: key(5), asset: key(7), market_place: market(250), listing: listing(10, None) };
    assert_eq!(buy::handler(&ctx), Err(MarketPlaceError::ListingNotFound));
    let ctx = Buy { taker: key(8), maker: key(4), asset: key(6), market_place: market(250), listing: listing(10, None) };
    assert_eq!(buy::handler(&ctx), Err(MarketPlaceError::Unauthorized));
    let ctx = Buy { taker: key(8), maker: key(5), asset: key(6), market_place: market(250), listing: listing(10, Some(key(9))) };
    assert_eq!(buy::handler(&ctx), Err(MarketPlaceError::WrongPaymentMint));
    let ctx = Buy { taker: key(8), maker: key(5), asset: key(6), market_place: market(20_000), listing: listing(10, None) };
    assert_eq!(buy::handler(&ctx), Err(MarketPlaceError::InvalidPrice));
}

#[test]
fn buy_with_listed_token() {
    let ctx = BuyWithToken { taker: key(8), maker: key(5), asset: key(6), market_place: market(100), payment_mint: key(9), listing: listing(5_000, Some(key(9))) };
    let s = buy_with_token::handler(&ctx).unwrap();
    assert_eq!(s.payout, Payout { fee_amount: 50, maker_amount: 4_950 });
    assert_eq!(s.reward_amount, 5);
    let wrong = BuyWithToken { payment_mint: key(10), ..ctx.clone() };
    assert_eq!(buy_with_token::handler(&wrong), Err(MarketPlaceError::WrongPaymentMint));
}

#[test]
fn offers() {
    let mut mo = MakeOffer { taker: key(8), asset: key(6), offer: Offer { taker: key(0), asset: key(0), amount: 0, payment_mint: None, bump: 0, vault_bump: 0 }, offer_bump: 3 };
    assert_eq!(make_offer::handler(&mut mo, 0), Err(MarketPlaceError::InvalidOfferAmount));
    assert_eq!(make_offer::handler(&mut mo, 2_000), Ok(()));
    assert_eq!(mo.offer.amount, 2_000);
    assert!(mo.offer.taker == key(8));
    let acc = AcceptOffer { maker: key(5), taker: key(8), asset: key(6), market_place: market(500), listing: listing(9, None), offer: mo.offer };
    assert_eq!(accept_offer::handler(&acc), Ok(Payout { fee_amount: 100, maker_amount: 1_900 }));
    let bad = AcceptOffer { taker: key(9), ..acc.clone() };
    assert_eq!(accept_offer::handler(&bad), Err(MarketPlaceError::Unauthorized));
    assert_eq!(cancel_offer::handler(&CancelOffer { taker: key(8), asset: key(6), offer: mo.offer }), Ok(2_000));
    assert_eq!(cancel_offer::handler(&CancelOffer { taker: key(8), asset: key(7), offer: mo.offer }), Err(MarketPlaceError::OfferNotFound));
}
