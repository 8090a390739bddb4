//! The query service: reading missions, rosters and counts.

use crate::domain::repositories::mission_viewing::{
    all_guarantee,
    brawler_views,
    one_guarantee,
    MissionViewingRepository,
};
use crate::domain::value_objects::brawler_model::BrawlerModel;
use crate::domain::value_objects::mission_error::MissionError;
use crate::domain::value_objects::mission_filter::MissionFilter;
use crate::domain::value_objects::mission_model::MissionModel;
use vstd::prelude::*;

verus! {

/// Reads from `mission_viewing_repository` and changes nothing.
pub struct MissionViewingUseCase<T> where T: MissionViewingRepository {
    pub mission_viewing_repository: T,
}

impl<T> MissionViewingUseCase<T> where T: MissionViewingRepository {
    pub fn new(mission_viewing_repository: T) -> (use_case: Self)
        ensures
            use_case.mission_viewing_repository == mission_viewing_repository,
    {
        Self { mission_viewing_repository }
    }

    /// The mission `mission_id` as a reader sees it, if it exists.
    pub fn get_one(&self, mission_id: i32) -> (r: Result<MissionModel, MissionError>)
        ensures
            one_guarantee(&self.mission_viewing_repository, r, mission_id),
    {
        self.mission_viewing_repository.get_one(mission_id)
    }

    /// The roster of `mission_id`, in the order of joining; empty for a
    /// mission that is not on record.
    pub fn get_crew(&self, mission_id: i32) -> (r: Result<Vec<BrawlerModel>, MissionError>)
        ensures
            match r {
                Ok(crew) => brawler_views(crew@) == self.mission_viewing_repository.board().roster(
                    mission_id,
                ),
                Err(e) => e == MissionError::Unavailable,
            },
            self.mission_viewing_repository.spare() > 0 ==> r is Ok,
    {
        self.mission_viewing_repository.get_crew(mission_id)
    }

    /// One page of the missions that exist and meet `filter`: those that
    /// have not run their course first, and within each group the newest
    /// first.
    pub fn get_all(&self, filter: &MissionFilter) -> (r: Result<Vec<MissionModel>, MissionError>)
        ensures
            all_guarantee(&self.mission_viewing_repository, r, filter@),
    {
        self.mission_viewing_repository.get_all(filter)
    }

    /// The size of the crew of `mission_id`; zero for a mission that is not
    /// on record.
    pub fn get_mission_count(&self, mission_id: i32) -> (r: Result<i64, MissionError>)
        ensures
            match r {
                Ok(count) => count == self.mission_viewing_repository.board().crew_count(
                    mission_id,
                ),
                Err(e) => e == MissionError::Unavailable,
            },
            self.mission_viewing_repository.spare() > 0 ==> r is Ok,
    {
        self.mission_viewing_repository.crew_counting(mission_id)
    }
}

} // verus!
