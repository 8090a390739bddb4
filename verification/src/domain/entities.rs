//! The records that the stores keep.

pub mod crew_memberships;
pub mod missions;
