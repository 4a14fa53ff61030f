use vstd::prelude::*;

verus! {

/// Errors that the escrow instructions answer with.
#[derive(Clone, Copy, Debug, PartialEq, Eq, Structural)]
pub enum EscrowError {
    InvalidSolAmount,
    InvalidUsdcAmount,
    NotOpen,
    Unauthorized,
}

} // verus!
