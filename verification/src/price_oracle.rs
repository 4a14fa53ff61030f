//! Console game: guess the SOL price, drawn between $50 and $300, in five
//! tries, with a hint after each miss.
pub mod game;
pub mod hints;
