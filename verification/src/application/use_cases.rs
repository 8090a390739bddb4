//! One coordinator for each kind of request.

pub mod crew_operation;
pub mod mission_chat;
pub mod mission_management;
pub mod mission_operation;
pub mod mission_viewing;
