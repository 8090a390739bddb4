//! Mission management: posting, editing and removing a mission.

use crate::domain::board::BoardState;
use crate::domain::entities::crew_memberships::CrewMembershipEntity;
use crate::domain::entities::missions::{AddMissionEntity, EditMissionEntity};
use crate::domain::repositories::crew_operation::CrewOperationRepository;
use crate::domain::repositories::mission_chat::MissionChatRepository;
use crate::domain::repositories::mission_management::MissionManagementRepository;
use crate::domain::repositories::mission_viewing::MissionViewingRepository;
use crate::domain::repositories::store::carried_out;
use crate::domain::rules::decide_change;
use crate::domain::value_objects::mission_error::MissionError;
use crate::domain::value_objects::mission_model::{
    acceptable_name,
    clone_optional,
    edited_name,
    is_acceptable_name,
    optional_text,
    AddMissionModel,
    EditMissionModel,
};
use crate::domain::value_objects::mission_policy::MissionPolicy;
use vstd::prelude::*;

verus! {

/// Posts, edits and removes the missions in `repository`, under `policy`.
pub struct MissionManagementUseCase<T> where
    T: MissionManagementRepository + MissionChatRepository + CrewOperationRepository
        + MissionViewingRepository,
 {
    pub repository: T,
    pub policy: MissionPolicy,
}

/// The board once `entity` is posted under `mission_id` at the time `at`,
/// before the chief is on its crew.
pub open spec fn opened(before: BoardState, mission_id: i32, entity: AddMissionEntity, at: i64)
    -> BoardState {
    before.with_mission(mission_id, BoardState::fresh(entity, at))
}

/// The board once `entity` is posted under `mission_id` at the time `at`,
/// with the chief as the first member of its crew.
pub open spec fn posted(before: BoardState, mission_id: i32, entity: AddMissionEntity, at: i64)
    -> BoardState {
    opened(before, mission_id, entity, at).enlisted(
        CrewMembershipEntity { mission_id, brawler_id: entity.chief_id },
    )
}

/// What posting guarantees, given the coordinator before and after and the
/// answer.
///
/// A name that is not acceptable is refused and nothing changes. Any other
/// request is granted unless the store is unavailable: the mission is open
/// and its chief is the first on its crew, whatever the capacity, as is
/// always so with a store that has two changes to spare. Should the store
/// give out after the posting, the mission stands without crew.
pub open spec fn post_guarantee<T>(
    before: &MissionManagementUseCase<T>,
    after: &MissionManagementUseCase<T>,
    r: Result<i32, MissionError>,
    chief_id: i32,
    model: AddMissionModel,
) -> bool where
    T: MissionManagementRepository + MissionChatRepository + CrewOperationRepository
        + MissionViewingRepository,
 {
    let board = before.repository.board();
    let entity = model.entity(chief_id);
    &&& after.policy == before.policy
    &&& !acceptable_name(model.name@) ==> r == Err::<i32, MissionError>(MissionError::InvalidName)
    &&& acceptable_name(model.name@) ==> r is Ok || r == Err::<i32, MissionError>(
        MissionError::Unavailable,
    )
    &&& acceptable_name(model.name@) && before.repository.spare() > 0 ==> r is Ok
    &&& match r {
        Ok(mission_id) => {
            let at = after.repository.board().missions[mission_id].created_at;
            &&& !board.knows(mission_id)
            &&& after.repository.spare() + 2 >= before.repository.spare()
            &&& {
                ||| after.repository.board() == posted(board, mission_id, entity, at)
                ||| after.repository.board() == opened(board, mission_id, entity, at)
                    && before.repository.spare() < 2 && after.repository.spare() == 0
            }
        },
        Err(_) => {
            &&& after.repository.board() == board
            &&& after.repository.spare() == before.repository.spare()
        },
    }
}

/// What editing guarantees, given the coordinator before and after and the
/// answer.
///
/// The answer is that of [`edit_outcome`](BoardState::edit_outcome), unless
/// the store is unavailable. Where the request is granted the fields that
/// it names are changed, the name to what [`edited_name`] makes of it;
/// where it is refused nothing changed.
pub open spec fn edit_guarantee<T>(
    before: &MissionManagementUseCase<T>,
    after: &MissionManagementUseCase<T>,
    r: Result<i32, MissionError>,
    mission_id: i32,
    chief_id: i32,
    model: EditMissionModel,
) -> bool where
    T: MissionManagementRepository + MissionChatRepository + CrewOperationRepository
        + MissionViewingRepository,
 {
    let board = before.repository.board();
    let name = optional_text(model.name);
    &&& after.policy == before.policy
    &&& carried_out(
        &before.repository,
        &after.repository,
        r,
        board.edit_outcome(before.policy, mission_id, chief_id, name),
        board.revised(
            mission_id,
            match edited_name(name) {
                Ok(kept) => kept,
                Err(_) => None,
            },
            optional_text(model.description),
            optional_text(model.category),
            after.repository.board().missions[mission_id].updated_at,
        ),
        1,
    )
}

/// What removing guarantees, given the coordinator before and after and the
/// answer.
///
/// The answer is that of [`remove_outcome`](BoardState::remove_outcome),
/// unless the store is unavailable. Where the request is granted the
/// mission is marked as deleted and its chat is emptied, as it always is
/// by a store with two changes to spare. Should the store give out in
/// between, the removal is not undone. Where it is refused nothing changed.
pub open spec fn remove_guarantee<T>(
    before: &MissionManagementUseCase<T>,
    after: &MissionManagementUseCase<T>,
    r: Result<(), MissionError>,
    mission_id: i32,
    chief_id: i32,
) -> bool where
    T: MissionManagementRepository + MissionChatRepository + CrewOperationRepository
        + MissionViewingRepository,
 {
    let board = before.repository.board();
    let at = after.repository.board().missions[mission_id].updated_at;
    &&& after.policy == before.policy
    &&& carried_out(
        &before.repository,
        &after.repository,
        r,
        board.remove_outcome(before.policy, mission_id, chief_id),
        after.repository.board(),
        2,
    )
    &&& r is Ok ==> {
        ||| after.repository.board() == board.retired(mission_id, at).purged(mission_id)
        ||| after.repository.board() == board.retired(mission_id, at) && before.repository.spare()
            < 2 && after.repository.spare() == 0
    }
}

impl<T> MissionManagementUseCase<T> where
    T: MissionManagementRepository + MissionChatRepository + CrewOperationRepository
        + MissionViewingRepository,
 {
    pub fn new(repository: T, policy: MissionPolicy) -> (use_case: Self)
        ensures
            use_case.repository == repository,
            use_case.policy == policy,
    {
        Self { repository, policy }
    }

    /// Posts a mission of `chief_id` and answers its id.
    pub fn add(&mut self, chief_id: i32, add_mission_model: AddMissionModel) -> (r: Result<
        i32,
        MissionError,
    >)
        ensures
            post_guarantee(old(self), final(self), r, chief_id, add_mission_model),
    {
        if !is_acceptable_name(add_mission_model.name.as_str()) {
            return Err(MissionError::InvalidName);
        }
        let insert_mission_entity = add_mission_model.to_entity(chief_id);
        let mission_id = match self.repository.add(insert_mission_entity) {
            Ok(mission_id) => mission_id,
            Err(e) => {
                return Err(e);
            },
        };
        let chief = CrewMembershipEntity { brawler_id: chief_id, mission_id };
        let _ = self.repository.join(chief, true);
        Ok(mission_id)
    }

    /// Edits `mission_id` in the name of `chief_id` and answers its id.
    pub fn edit(&mut self, mission_id: i32, chief_id: i32, edit_mission_model: EditMissionModel)
        -> (r: Result<i32, MissionError>)
        ensures
            edit_guarantee(old(self), final(self), r, mission_id, chief_id, edit_mission_model),
    {
        let name = match edit_mission_model.normalized_name() {
            Ok(name) => name,
            Err(e) => {
                return Err(e);
            },
        };
        if self.policy.lock_once_crewed {
            match self.repository.get_one(mission_id) {
                Ok(_) => {},
                Err(e) => {
                    return Err(e);
                },
            }
            let crew_count = match self.repository.crew_counting(mission_id) {
                Ok(crew_count) => crew_count,
                Err(e) => {
                    return Err(e);
                },
            };
            match decide_change(&self.policy, crew_count) {
                Ok(_) => {},
                Err(e) => {
                    return Err(e);
                },
            }
        }
        let edit_mission_entity = EditMissionEntity {
            chief_id,
            name,
            description: clone_optional(&edit_mission_model.description),
            category: clone_optional(&edit_mission_model.category),
        };
        self.repository.edit(mission_id, edit_mission_entity)
    }

    /// Removes `mission_id` in the name of `chief_id`.
    pub fn remove(&mut self, mission_id: i32, chief_id: i32) -> (r: Result<(), MissionError>)
        ensures
            remove_guarantee(old(self), final(self), r, mission_id, chief_id),
    {
        if self.policy.lock_once_crewed {
            match self.repository.get_one(mission_id) {
                Ok(_) => {},
                Err(e) => {
                    return Err(e);
                },
            }
            let crew_count = match self.repository.crew_counting(mission_id) {
                Ok(crew_count) => crew_count,
                Err(e) => {
                    return Err(e);
                },
            };
            match decide_change(&self.policy, crew_count) {
                Ok(_) => {},
                Err(e) => {
                    return Err(e);
                },
            }
        }
        match self.repository.remove(mission_id, chief_id) {
            Ok(_) => {},
            Err(e) => {
                return Err(e);
            },
        }
        let _ = self.repository.delete_messages(mission_id);
        Ok(())
    }
}

} // verus!
