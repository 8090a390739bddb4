//! The event bus, on which the coordinators publish what changed, and the
//! channels of the chats.

pub mod broadcaster;
pub mod channel;
pub mod chat_broadcaster;
pub mod event;
