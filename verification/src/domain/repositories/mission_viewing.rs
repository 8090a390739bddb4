//! The read side of the mission store.

use crate::domain::board::BoardState;
use crate::domain::repositories::store::MissionStore;
use crate::domain::value_objects::brawler_model::{BrawlerModel, BrawlerModelView};
use crate::domain::value_objects::mission_error::MissionError;
use crate::domain::value_objects::mission_filter::{MissionFilter, MissionFilterView, PageWindow};
use crate::domain::value_objects::mission_model::{MissionModel, MissionModelView};
use vstd::prelude::*;

verus! {

/// The views of a list of missions.
pub open spec fn mission_views(list: Seq<MissionModel>) -> Seq<MissionModelView> {
    list.map_values(|m: MissionModel| m@)
}

/// The views of the lines of a roster.
pub open spec fn brawler_views(list: Seq<BrawlerModel>) -> Seq<BrawlerModelView> {
    list.map_values(|b: BrawlerModel| b@)
}

/// What is guaranteed of a request for one mission: a mission that exists
/// is answered as a reader sees it, and any other is not found.
pub open spec fn one_guarantee<S: MissionStore + ?Sized>(
    store: &S,
    r: Result<MissionModel, MissionError>,
    mission_id: i32,
) -> bool {
    &&& store.spare() > 0 ==> (r is Ok <==> store.board().has(mission_id))
    &&& match r {
        Ok(mission) => store.board().has(mission_id) && mission@ == store.board().model(mission_id),
        Err(e) => {
            &&& e == MissionError::Unavailable || e == MissionError::NotFound
            &&& e == MissionError::NotFound ==> !store.board().has(mission_id)
            &&& e == MissionError::Unavailable ==> store.spare() == 0
        },
    }
}

/// Whether `missions` is the page that a filter asks for on a board: there
/// is a list of the missions that exist and meet the filter, in an order in
/// which every mission may stand before those that follow it, of which
/// `missions` is the window of the wanted page.
pub open spec fn is_page(
    board: BoardState,
    filter: MissionFilterView,
    window: PageWindow,
    missions: Seq<MissionModelView>,
) -> bool {
    exists|ids: Seq<i32>|
        #![auto]
        board.is_listing(filter, ids) && missions == window.of(board.models(ids))
}

/// What is guaranteed of a request for a page of the list: a filter with a
/// window is answered with its page, and one without is refused as the
/// window is.
pub open spec fn all_guarantee<S: MissionStore + ?Sized>(
    store: &S,
    r: Result<Vec<MissionModel>, MissionError>,
    filter: MissionFilterView,
) -> bool {
    &&& store.spare() > 0 ==> (r is Ok <==> filter.window() is Ok)
    &&& match r {
        Ok(missions) => filter.window() matches Ok(window) && is_page(
            store.board(),
            filter,
            window,
            mission_views(missions@),
        ),
        Err(e) => {
            &&& e == MissionError::Unavailable || filter.window() == Err::<
                PageWindow,
                MissionError,
            >(e)
            &&& e == MissionError::Unavailable ==> store.spare() == 0
        },
    }
}

pub trait MissionViewingRepository: MissionStore {
    /// The size of a mission's crew; zero for a mission that is not on
    /// record.
    fn crew_counting(&self, mission_id: i32) -> (r: Result<i64, MissionError>)
        ensures
            match r {
                Ok(count) => count == self.board().crew_count(mission_id),
                Err(e) => e == MissionError::Unavailable,
            },
            self.spare() > 0 ==> r is Ok,
    ;

    /// One mission that exists, as a reader sees it.
    fn get_one(&self, mission_id: i32) -> (r: Result<MissionModel, MissionError>)
        ensures
            one_guarantee(self, r, mission_id),
    ;

    /// The page that the filter asks for, out of the list of the missions
    /// that exist and meet the filter.
    fn get_all(&self, mission_filter: &MissionFilter) -> (r: Result<
        Vec<MissionModel>,
        MissionError,
    >)
        ensures
            all_guarantee(self, r, mission_filter@),
    ;

    /// The roster of a mission, in the order of joining; empty for a
    /// mission that is not on record.
    fn get_crew(&self, mission_id: i32) -> (r: Result<Vec<BrawlerModel>, MissionError>)
        ensures
            match r {
                Ok(crew) => brawler_views(crew@) == self.board().roster(mission_id),
                Err(e) => e == MissionError::Unavailable,
            },
            self.spare() > 0 ==> r is Ok,
    ;
}

} // verus!
