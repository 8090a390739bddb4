//! What stands around the rules: the event bus, a store in memory, and the
//! steps around the check of a caller's token.

pub mod auth;
pub mod memory;
pub mod notifications;
