//! The coordinators of the board, and what holds of them.

pub mod laws;
pub mod use_cases;
