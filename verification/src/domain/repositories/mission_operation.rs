//! The part of the mission store that moves a mission through its lifecycle.

use crate::domain::repositories::store::{carried_out, MissionStore};
use crate::domain::value_objects::mission_error::MissionError;
use crate::domain::value_objects::mission_statuses::MissionStatuses;
use vstd::prelude::*;

verus! {

/// What a store guarantees of a change of status to `next`, asked for
/// `mission_id` in the name of `chief_id`: the mission must exist, the
/// caller must be its chief, and the lifecycle must have the edge. The
/// mission then has the new status and the time of the change.
pub open spec fn restatus_guarantee<S: MissionStore + ?Sized>(
    before: &S,
    after: &S,
    r: Result<i32, MissionError>,
    mission_id: i32,
    chief_id: i32,
    next: MissionStatuses,
) -> bool {
    carried_out(
        before,
        after,
        r,
        before.board().restatus_outcome(mission_id, chief_id, next),
        before.board().restatused(mission_id, next, after.board().missions[mission_id].updated_at),
        1,
    )
}

pub trait MissionOperationRepository: MissionStore {
    /// Starts a mission: a recruitable mission goes in progress.
    fn to_progress(&mut self, mission_id: i32, chief_id: i32) -> (r: Result<i32, MissionError>)
        ensures
            restatus_guarantee(
                old(self),
                final(self),
                r,
                mission_id,
                chief_id,
                MissionStatuses::InProgress,
            ),
    ;

    /// Completes a mission in progress.
    fn to_completed(&mut self, mission_id: i32, chief_id: i32) -> (r: Result<i32, MissionError>)
        ensures
            restatus_guarantee(
                old(self),
                final(self),
                r,
                mission_id,
                chief_id,
                MissionStatuses::Completed,
            ),
    ;

    /// Fails a mission in progress.
    fn to_failed(&mut self, mission_id: i32, chief_id: i32) -> (r: Result<i32, MissionError>)
        ensures
            restatus_guarantee(
                old(self),
                final(self),
                r,
                mission_id,
                chief_id,
                MissionStatuses::Failed,
            ),
    ;
}

} // verus!
