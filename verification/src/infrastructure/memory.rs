//! A store that keeps the whole board in memory.

pub mod chat;
pub mod listing;
pub mod store;
pub mod viewing;
