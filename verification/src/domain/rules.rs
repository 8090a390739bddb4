//! The decisions of the coordinators, each as a function of what was read
//! from the store.

use crate::domain::value_objects::mission_error::MissionError;
use crate::domain::value_objects::mission_model::MissionModel;
use crate::domain::value_objects::mission_policy::MissionPolicy;
use crate::domain::value_objects::mission_statuses::MissionStatuses;
use vstd::prelude::*;

verus! {

/// Whether a brawler may be put on the crew of a mission with the given
/// chief, status and roster size. A chief cannot join a mission of their
/// own unless the check is bypassed; the mission must be recruitable; and
/// the roster must have room.
pub open spec fn join_ruling(
    policy: MissionPolicy,
    chief_id: i32,
    status: MissionStatuses,
    crew_count: int,
    brawler_id: i32,
    bypass_chief_check: bool,
) -> Result<(), MissionError> {
    if !bypass_chief_check && chief_id == brawler_id {
        Err(MissionError::Forbidden)
    } else if !status.recruitable() {
        Err(MissionError::InvalidState)
    } else if !policy.has_room(crew_count) {
        Err(MissionError::CapacityExceeded)
    } else {
        Ok(())
    }
}

/// Whether a brawler may be taken off the crew of a mission with the given
/// status: the roster of a mission that is under way or completed is frozen.
pub open spec fn leave_ruling(status: MissionStatuses) -> Result<(), MissionError> {
    if status.recruitable() {
        Ok(())
    } else {
        Err(MissionError::InvalidState)
    }
}

/// Whether `caller_id` may move a mission with the given chief, status and
/// roster size to the status `next`. Only the chief may; the lifecycle must
/// have the edge; and a mission starts only with a roster that is large
/// enough and still has room.
pub open spec fn transition_ruling(
    policy: MissionPolicy,
    chief_id: i32,
    status: MissionStatuses,
    crew_count: int,
    caller_id: i32,
    next: MissionStatuses,
) -> Result<(), MissionError> {
    if chief_id != caller_id {
        Err(MissionError::Forbidden)
    } else if !status.allows(next) {
        Err(MissionError::InvalidTransition)
    } else if next == MissionStatuses::InProgress && !policy.can_start_with(crew_count) {
        Err(MissionError::InvalidTransition)
    } else {
        Ok(())
    }
}

/// Whether the policy lets a mission with the given roster size be edited
/// or removed.
pub open spec fn change_ruling(policy: MissionPolicy, crew_count: int) -> Result<
    (),
    MissionError,
> {
    if policy.lock_once_crewed && crew_count > 0 {
        Err(MissionError::InvalidState)
    } else {
        Ok(())
    }
}

/// Decides a request to join `mission`, whose roster holds `crew_count`.
pub fn decide_join(
    policy: &MissionPolicy,
    mission: &MissionModel,
    crew_count: i64,
    brawler_id: i32,
    bypass_chief_check: bool,
) -> (r: Result<(), MissionError>)
    ensures
        r == join_ruling(
            *policy,
            mission.chief_id,
            mission.status,
            crew_count as int,
            brawler_id,
            bypass_chief_check,
        ),
{
    if !bypass_chief_check && mission.chief_id == brawler_id {
        return Err(MissionError::Forbidden);
    }
    if !mission.status.is_recruitable() {
        return Err(MissionError::InvalidState);
    }
    if !(crew_count < policy.max_crew_per_mission) {
        return Err(MissionError::CapacityExceeded);
    }
    Ok(())
}

/// Decides a request to leave `mission`.
pub fn decide_leave(mission: &MissionModel) -> (r: Result<(), MissionError>)
    ensures
        r == leave_ruling(mission.status),
{
    if mission.status.is_recruitable() {
        Ok(())
    } else {
        Err(MissionError::InvalidState)
    }
}

/// The answer of the crew store as the crew coordinator hands it on: that a
/// brawler is not on a roster means that the membership was not found.
pub open spec fn absent_as_not_found(answer: Result<(), MissionError>) -> Result<
    (),
    MissionError,
> {
    match answer {
        Err(MissionError::NotMember) => Err(MissionError::NotFound),
        other => other,
    }
}

/// Hands on the answer of the crew store to a request to leave: that the
/// brawler is not on the roster means that the membership was not found.
pub fn leave_answer(answer: Result<(), MissionError>) -> (r: Result<(), MissionError>)
    ensures
        r == absent_as_not_found(answer),
{
    match answer {
        Err(MissionError::NotMember) => Err(MissionError::NotFound),
        other => other,
    }
}

/// Decides a request of `caller_id` to move `mission`, whose roster holds
/// `crew_count`, to the status `next`.
pub fn decide_transition(
    policy: &MissionPolicy,
    mission: &MissionModel,
    crew_count: i64,
    caller_id: i32,
    next: MissionStatuses,
) -> (r: Result<(), MissionError>)
    ensures
        r == transition_ruling(
            *policy,
            mission.chief_id,
            mission.status,
            crew_count as int,
            caller_id,
            next,
        ),
{
    if mission.chief_id != caller_id {
        return Err(MissionError::Forbidden);
    }
    if !mission.status.can_become(next) {
        return Err(MissionError::InvalidTransition);
    }
    if matches!(next, MissionStatuses::InProgress) && !(policy.min_crew_to_start <= crew_count
        && crew_count < policy.max_crew_per_mission) {
        return Err(MissionError::InvalidTransition);
    }
    Ok(())
}

/// Decides whether a mission whose roster holds `crew_count` may be edited
/// or removed.
pub fn decide_change(policy: &MissionPolicy, crew_count: i64) -> (r: Result<(), MissionError>)
    ensures
        r == change_ruling(*policy, crew_count as int),
{
    if policy.lock_once_crewed && crew_count > 0 {
        Err(MissionError::InvalidState)
    } else {
        Ok(())
    }
}

} // verus!
