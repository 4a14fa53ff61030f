pub mod cancel;
pub mod make;
pub mod take;
