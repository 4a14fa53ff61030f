use vstd::prelude::*;

verus! {

/// Errors that the marketplace instructions answer with.
#[derive(Clone, Copy, Debug, PartialEq, Eq, Structural)]
pub enum MarketPlaceError {
    InvalidFee,
    InvalidName,
    Unauthorized,
    ListingAlreadyExists,
    ListingNotFound,
    WrongPaymentMint,
    OfferNotFound,
    InvalidOfferAmount,
    InsufficientFunds,
    InvalidPrice,
}

} // verus!
