//! The vocabulary of the board: its values, its records, its rules and the
//! interfaces of the stores that keep them.

pub mod board;
pub mod entities;
pub mod repositories;
pub mod rules;
pub mod value_objects;
