//! The crew coordinator: joining and leaving a mission.

use crate::domain::entities::crew_memberships::CrewMembershipEntity;
use crate::domain::repositories::crew_operation::CrewOperationRepository;
use crate::domain::repositories::mission_viewing::MissionViewingRepository;
use crate::domain::repositories::store::carried_out;
use crate::domain::rules::{decide_join, decide_leave, leave_answer};
use crate::domain::value_objects::mission_error::MissionError;
use crate::domain::value_objects::mission_policy::MissionPolicy;
use crate::infrastructure::notifications::broadcaster::GlobalBroadcaster;
use crate::infrastructure::notifications::event::{Event, EventView};
use vstd::prelude::*;

verus! {

/// Lets brawlers on and off the crews of the missions in `repository`,
/// under `policy`, and tells `broadcaster` of every change.
///
/// A request reads the mission and its roster, decides, and writes, all
/// while it holds the store for itself: no other request comes between.
pub struct CrewOperationUseCase<T> where T: CrewOperationRepository + MissionViewingRepository {
    pub repository: T,
    pub broadcaster: GlobalBroadcaster,
    pub policy: MissionPolicy,
}

/// What joining guarantees, given the coordinator before and after and the
/// answer.
///
/// The answer is that of
/// [`join_outcome`](crate::domain::board::BoardState::join_outcome), unless
/// the store is unavailable. A brawler who is let on is on the crew, and one
/// event went out; where the request is refused nothing changed and nothing
/// went out.
pub open spec fn join_guarantee<T>(
    before: &CrewOperationUseCase<T>,
    after: &CrewOperationUseCase<T>,
    r: Result<(), MissionError>,
    mission_id: i32,
    brawler_id: i32,
    allow_bypass: bool,
) -> bool where T: CrewOperationRepository + MissionViewingRepository {
    let board = before.repository.board();
    let membership = CrewMembershipEntity { mission_id, brawler_id };
    &&& after.policy == before.policy
    &&& carried_out(
        &before.repository,
        &after.repository,
        r,
        board.join_outcome(before.policy, membership, allow_bypass),
        board.enlisted(membership),
        1,
    )
    &&& after.broadcaster.published() == if r is Ok {
        before.broadcaster.published().push(
            EventView::joined(mission_id, board.missions[mission_id].name),
        )
    } else {
        before.broadcaster.published()
    }
}

/// What leaving guarantees, given the coordinator before and after and the
/// answer.
///
/// The answer is that of
/// [`leave_outcome`](crate::domain::board::BoardState::leave_outcome),
/// unless the store is unavailable. A brawler who is let go is off the crew,
/// and one event went out; where the request is refused nothing changed and
/// nothing went out.
pub open spec fn leave_guarantee<T>(
    before: &CrewOperationUseCase<T>,
    after: &CrewOperationUseCase<T>,
    r: Result<(), MissionError>,
    mission_id: i32,
    brawler_id: i32,
) -> bool where T: CrewOperationRepository + MissionViewingRepository {
    let board = before.repository.board();
    let membership = CrewMembershipEntity { mission_id, brawler_id };
    &&& after.policy == before.policy
    &&& carried_out(
        &before.repository,
        &after.repository,
        r,
        board.leave_outcome(membership),
        board.discharged(membership),
        1,
    )
    &&& after.broadcaster.published() == if r is Ok {
        before.broadcaster.published().push(
            EventView::left(mission_id, board.missions[mission_id].name),
        )
    } else {
        before.broadcaster.published()
    }
}

impl<T> CrewOperationUseCase<T> where T: CrewOperationRepository + MissionViewingRepository {
    pub fn new(repository: T, broadcaster: GlobalBroadcaster, policy: MissionPolicy) -> (use_case:
        Self)
        ensures
            use_case.repository == repository,
            use_case.broadcaster == broadcaster,
            use_case.policy == policy,
    {
        Self { repository, broadcaster, policy }
    }

    /// Puts `brawler_id` on the crew of `mission_id`. With `allow_bypass`
    /// the chief may join a mission of their own, as happens once when the
    /// mission is posted.
    pub fn join(&mut self, mission_id: i32, brawler_id: i32, allow_bypass: bool) -> (r: Result<
        (),
        MissionError,
    >)
        ensures
            join_guarantee(old(self), final(self), r, mission_id, brawler_id, allow_bypass),
    {
        let mission = match self.repository.get_one(mission_id) {
            Ok(mission) => mission,
            Err(e) => {
                return Err(e);
            },
        };
        let crew_count = match self.repository.crew_counting(mission_id) {
            Ok(crew_count) => crew_count,
            Err(e) => {
                return Err(e);
            },
        };
        match decide_join(&self.policy, &mission, crew_count, brawler_id, allow_bypass) {
            Ok(_) => {},
            Err(e) => {
                return Err(e);
            },
        }
        match self.repository.join(CrewMembershipEntity { mission_id, brawler_id }, allow_bypass) {
            Ok(_) => {},
            Err(e) => {
                return Err(e);
            },
        }
        self.broadcaster.broadcast(Event::joined(mission_id, mission.name.as_str()));
        Ok(())
    }

    /// Takes `brawler_id` off the crew of `mission_id`. A brawler who is
    /// not on the crew is answered that the membership was not found.
    pub fn leave(&mut self, mission_id: i32, brawler_id: i32) -> (r: Result<(), MissionError>)
        ensures
            leave_guarantee(old(self), final(self), r, mission_id, brawler_id),
    {
        let mission = match self.repository.get_one(mission_id) {
            Ok(mission) => mission,
            Err(e) => {
                return Err(e);
            },
        };
        match decide_leave(&mission) {
            Ok(_) => {},
            Err(e) => {
                return Err(e);
            },
        }
        let answer = self.repository.leave(CrewMembershipEntity { mission_id, brawler_id });
        match leave_answer(answer) {
            Ok(_) => {},
            Err(e) => {
                return Err(e);
            },
        }
        self.broadcaster.broadcast(Event::left(mission_id, mission.name.as_str()));
        Ok(())
    }
}

} // verus!
