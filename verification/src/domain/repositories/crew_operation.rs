//! The store of crew memberships.

use crate::domain::entities::crew_memberships::CrewMembershipEntity;
use crate::domain::repositories::store::{carried_out, MissionStore};
use crate::domain::value_objects::mission_error::MissionError;
use vstd::prelude::*;

verus! {

pub trait CrewOperationRepository: MissionStore {
    /// Puts a brawler on a mission's crew. The mission must exist; its
    /// chief is let on only where the check is bypassed; and nobody is put
    /// on a roster twice.
    fn join(&mut self, crew_member_ships: CrewMembershipEntity, bypass_chief_check: bool) -> (r:
        Result<(), MissionError>)
        ensures
            carried_out(
                old(self),
                final(self),
                r,
                old(self).board().enlist_outcome(crew_member_ships, bypass_chief_check),
                old(self).board().enlisted(crew_member_ships),
                1,
            ),
    ;

    /// Takes a brawler off a mission's crew. The mission must exist and the
    /// brawler must be on its roster.
    fn leave(&mut self, crew_member_ships: CrewMembershipEntity) -> (r: Result<(), MissionError>)
        ensures
            carried_out(
                old(self),
                final(self),
                r,
                old(self).board().discharge_outcome(crew_member_ships),
                old(self).board().discharged(crew_member_ships),
                1,
            ),
    ;
}

} // verus!
