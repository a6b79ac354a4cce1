//! The game rules of SompCoc Rises: a clicker game in which players grow a
//! society's membership by shilling, buying advertisements and climbing a
//! leaderboard.
pub mod bignum;
pub mod chance;
pub mod display;
pub mod items;
pub mod laws;
pub mod leaderboard;
pub mod membership;
pub mod numfmt;
pub mod player;
pub mod shill;
pub mod shop;
pub mod text;
