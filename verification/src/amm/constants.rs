use vstd::prelude::*;

verus! {

/// Basis-point denominator of the swap fee: fee percentage = fee_rate / FEE_DENOMINATOR * 100.
pub const FEE_DENOMINATOR: u64 = 10_000;

/// Fee rates must stay strictly below this value (100%).
pub const MAX_FEE: u16 = 10_000;

/// Default fee rate: 30 basis points (0.3%).
pub const DEFAULT_FEE: u16 = 30;

/// Decimal places of the LP token.
pub const LP_DECIMALS: u8 = 6;

/// Size of the account discriminator.
pub const DISCRIMINATOR: usize = 8;

} // verus!
