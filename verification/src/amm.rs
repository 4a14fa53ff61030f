//! Constant-product (x * y = k) automated market maker.
pub mod constants;
pub mod errors;
pub mod helper;
pub mod instructions;
pub mod state;
