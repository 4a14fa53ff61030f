pub mod accept_offer;
pub mod buy;
pub mod buy_with_token;
pub mod cancel_offer;
pub mod delist;
pub mod initialize;
pub mod list;
pub mod make_offer;
