//! The record that puts a brawler on a mission's crew.

use vstd::prelude::*;

verus! {

/// One membership: `brawler_id` is on the crew of `mission_id`.
#[derive(Clone, Copy, Debug, PartialEq, Eq, Structural)]
pub struct CrewMembershipEntity {
    pub mission_id: i32,
    pub brawler_id: i32,
}

} // verus!
