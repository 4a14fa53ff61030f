//! SOL-for-USDC escrow: the maker locks SOL and names a USDC price; a taker
//! pays the USDC and receives the SOL; the maker may cancel while it is open.
pub mod error;
pub mod ix;
pub mod laws;
pub mod state;
