//! The lifecycle coordinator: starting, completing and failing a mission.

use crate::domain::board::BoardState;
use crate::domain::repositories::mission_chat::MissionChatRepository;
use crate::domain::repositories::mission_operation::MissionOperationRepository;
use crate::domain::repositories::mission_viewing::MissionViewingRepository;
use crate::domain::repositories::store::carried_out;
use crate::domain::rules::decide_transition;
use crate::domain::value_objects::mission_error::MissionError;
use crate::domain::value_objects::mission_policy::MissionPolicy;
use crate::domain::value_objects::mission_statuses::MissionStatuses;
use crate::infrastructure::notifications::broadcaster::GlobalBroadcaster;
use crate::infrastructure::notifications::event::{Event, EventView};
use vstd::prelude::*;

verus! {

/// Moves the missions in `repository` through their lifecycle, under
/// `policy`, and tells `broadcaster` of every move.
pub struct MissionOperationUseCase<T> where
    T: MissionOperationRepository + MissionViewingRepository + MissionChatRepository,
 {
    pub repository: T,
    pub broadcaster: GlobalBroadcaster,
    pub policy: MissionPolicy,
}

/// The board after a mission moved to `next`: the status is changed, and
/// where `next` ends the mission's course its chat is emptied.
pub open spec fn moved(before: BoardState, mission_id: i32, next: MissionStatuses, at: i64)
    -> BoardState {
    if next.terminal() {
        before.restatused(mission_id, next, at).purged(mission_id)
    } else {
        before.restatused(mission_id, next, at)
    }
}

/// What a transition to `next` guarantees, given the coordinator before and
/// after and the answer.
///
/// The answer is that of
/// [`transition_outcome`](BoardState::transition_outcome), unless the store
/// is unavailable. Where the request is granted the mission has the new
/// status and one event went out; the chat of a mission that ended is
/// emptied too, as it always is by a store with two changes to spare.
/// Should the store give out in between, the move is not undone. Where the
/// request is refused nothing changed and nothing went out.
pub open spec fn transition_guarantee<T>(
    before: &MissionOperationUseCase<T>,
    after: &MissionOperationUseCase<T>,
    r: Result<i32, MissionError>,
    mission_id: i32,
    chief_id: i32,
    next: MissionStatuses,
) -> bool where T: MissionOperationRepository + MissionViewingRepository + MissionChatRepository {
    let board = before.repository.board();
    let at = after.repository.board().missions[mission_id].updated_at;
    &&& after.policy == before.policy
    &&& carried_out(
        &before.repository,
        &after.repository,
        r,
        board.transition_outcome(before.policy, mission_id, chief_id, next),
        after.repository.board(),
        if next.terminal() {
            2
        } else {
            1
        },
    )
    &&& r is Ok ==> {
        ||| after.repository.board() == moved(board, mission_id, next, at)
        ||| after.repository.board() == board.restatused(mission_id, next, at)
            && before.repository.spare() < 2 && after.repository.spare() == 0
    }
    &&& after.broadcaster.published() == if r is Ok {
        before.broadcaster.published().push(
            EventView::updated(mission_id, board.missions[mission_id].name, next),
        )
    } else {
        before.broadcaster.published()
    }
}

impl<T> MissionOperationUseCase<T> where
    T: MissionOperationRepository + MissionViewingRepository + MissionChatRepository,
 {
    pub fn new(repository: T, broadcaster: GlobalBroadcaster, policy: MissionPolicy) -> (use_case:
        Self)
        ensures
            use_case.repository == repository,
            use_case.broadcaster == broadcaster,
            use_case.policy == policy,
    {
        Self { repository, broadcaster, policy }
    }

    /// Starts `mission_id` in the name of `chief_id`.
    pub fn in_progress(&mut self, mission_id: i32, chief_id: i32) -> (r: Result<i32, MissionError>)
        ensures
            transition_guarantee(
                old(self),
                final(self),
                r,
                mission_id,
                chief_id,
                MissionStatuses::InProgress,
            ),
    {
        let mission = match self.repository.get_one(mission_id) {
            Ok(mission) => mission,
            Err(e) => {
                return Err(e);
            },
        };
        let crew_count = match self.repository.crew_counting(mission_id) {
            Ok(crew_count) => crew_count,
            Err(e) => {
                return Err(e);
            },
        };
        match decide_transition(
            &self.policy,
            &mission,
            crew_count,
            chief_id,
            MissionStatuses::InProgress,
        ) {
            Ok(_) => {},
            Err(e) => {
                return Err(e);
            },
        }
        let result = match self.repository.to_progress(mission_id, chief_id) {
            Ok(result) => result,
            Err(e) => {
                return Err(e);
            },
        };
        self.broadcaster.broadcast(
            Event::updated(mission_id, mission.name.as_str(), MissionStatuses::InProgress),
        );
        Ok(result)
    }

    /// Completes `mission_id` in the name of `chief_id`.
    pub fn to_completed(&mut self, mission_id: i32, chief_id: i32) -> (r: Result<i32, MissionError>)
        ensures
            transition_guarantee(
                old(self),
                final(self),
                r,
                mission_id,
                chief_id,
                MissionStatuses::Completed,
            ),
    {
        let mission = match self.repository.get_one(mission_id) {
            Ok(mission) => mission,
            Err(e) => {
                return Err(e);
            },
        };
        match decide_transition(&self.policy, &mission, 0, chief_id, MissionStatuses::Completed) {
            Ok(_) => {},
            Err(e) => {
                return Err(e);
            },
        }
        let result = match self.repository.to_completed(mission_id, chief_id) {
            Ok(result) => result,
            Err(e) => {
                return Err(e);
            },
        };
        let _ = self.repository.delete_messages(mission_id);
        self.broadcaster.broadcast(
            Event::updated(mission_id, mission.name.as_str(), MissionStatuses::Completed),
        );
        Ok(result)
    }

    /// Fails `mission_id` in the name of `chief_id`.
    pub fn to_failed(&mut self, mission_id: i32, chief_id: i32) -> (r: Result<i32, MissionError>)
        ensures
            transition_guarantee(
                old(self),
                final(self),
                r,
                mission_id,
                chief_id,
                MissionStatuses::Failed,
            ),
    {
        let mission = match self.repository.get_one(mission_id) {
            Ok(mission) => mission,
            Err(e) => {
                return Err(e);
            },
        };
        match decide_transition(&self.policy, &mission, 0, chief_id, MissionStatuses::Failed) {
            Ok(_) => {},
            Err(e) => {
                return Err(e);
            },
        }
        let result = match self.repository.to_failed(mission_id, chief_id) {
            Ok(result) => result,
            Err(e) => {
                return Err(e);
            },
        };
        let _ = self.repository.delete_messages(mission_id);
        self.broadcaster.broadcast(
            Event::updated(mission_id, mission.name.as_str(), MissionStatuses::Failed),
        );
        Ok(result)
    }
}

} // verus!
