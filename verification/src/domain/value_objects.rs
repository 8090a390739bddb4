//! Plain values that cross the boundaries of the board.

pub mod brawler_model;
pub mod mission_chat_model;
pub mod mission_error;
pub mod mission_filter;
pub mod mission_model;
pub mod mission_policy;
pub mod mission_statuses;
pub mod text;
