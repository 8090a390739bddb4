//! A mission board: chiefs post missions, brawlers join and leave them as
//! crew, and each mission moves through a small lifecycle.
//!
//! The rules of the board are stated as mathematical functions over an
//! abstract board state, and every coordinator is proved against them.

pub mod application;
pub mod domain;
pub mod infrastructure;
