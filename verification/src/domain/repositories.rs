//! The interfaces of the stores behind the board.
//!
//! A store shows its contents as a [`BoardState`](crate::domain::board::BoardState),
//! and every operation says what it answers and what it leaves behind in
//! terms of that value. A store may fail for reasons of its own, with
//! `MissionError::Unavailable`; short of that, its answers are those of the
//! rules.

pub mod crew_operation;
pub mod mission_chat;
pub mod mission_management;
pub mod mission_operation;
pub mod mission_viewing;
pub mod store;
