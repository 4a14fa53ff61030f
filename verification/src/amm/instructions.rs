pub mod deposit;
pub mod initialize;
pub mod swap;
pub mod update;
pub mod withdraw;
