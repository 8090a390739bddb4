//! The part of the mission store that posts, edits and removes missions.

use crate::domain::board::BoardState;
use crate::domain::entities::missions::{AddMissionEntity, EditMissionEntity};
use crate::domain::repositories::store::{carried_out, MissionStore};
use crate::domain::value_objects::mission_error::MissionError;
use crate::domain::value_objects::mission_model::optional_text;
use vstd::prelude::*;

verus! {

/// What a store guarantees of a posting: it posts whatever it is handed
/// unless it is unavailable, under an id that no mission on record had, and
/// with the time of the posting.
pub open spec fn add_guarantee<S: MissionStore + ?Sized>(
    before: &S,
    after: &S,
    r: Result<i32, MissionError>,
    entity: AddMissionEntity,
) -> bool {
    &&& before.spare() > 0 ==> r is Ok
    &&& match r {
        Ok(mission_id) => {
            &&& !before.board().knows(mission_id)
            &&& after.board() == before.board().with_mission(
                mission_id,
                BoardState::fresh(entity, after.board().missions[mission_id].created_at),
            )
            &&& after.spare() + 1 >= before.spare()
        },
        Err(e) => {
            &&& e == MissionError::Unavailable
            &&& after.board() == before.board()
            &&& after.spare() == before.spare()
        },
    }
}

pub trait MissionManagementRepository: MissionStore {
    /// Posts a mission and answers its id.
    fn add(&mut self, add_mission_entity: AddMissionEntity) -> (r: Result<i32, MissionError>)
        ensures
            add_guarantee(old(self), final(self), r, add_mission_entity),
    ;

    /// Changes the fields of a mission that the record names. The mission
    /// must exist and the record must be made in the name of its chief.
    fn edit(&mut self, mission_id: i32, edit_mission_entity: EditMissionEntity) -> (r: Result<
        i32,
        MissionError,
    >)
        ensures
            carried_out(
                old(self),
                final(self),
                r,
                old(self).board().owner_outcome(mission_id, edit_mission_entity.chief_id),
                old(self).board().revised(
                    mission_id,
                    optional_text(edit_mission_entity.name),
                    optional_text(edit_mission_entity.description),
                    optional_text(edit_mission_entity.category),
                    final(self).board().missions[mission_id].updated_at,
                ),
                1,
            ),
    ;

    /// Removes a mission: it stays on record, marked as deleted. The
    /// mission must exist and the caller must be its chief.
    fn remove(&mut self, mission_id: i32, chief_id: i32) -> (r: Result<(), MissionError>)
        ensures
            carried_out(
                old(self),
                final(self),
                r,
                old(self).board().retire_outcome(mission_id, chief_id),
                old(self).board().retired(
                    mission_id,
                    final(self).board().missions[mission_id].updated_at,
                ),
                1,
            ),
    ;
}

} // verus!
