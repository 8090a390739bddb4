//! The knobs of the board: how large a crew may grow, how large it must be
//! before a mission starts, and whether a mission with crew can be edited.

use crate::domain::value_objects::mission_error::MissionError;
use crate::domain::value_objects::text::{parse_i64, parsed_i64, trim, trimmed};
use vstd::prelude::*;

verus! {

/// The policy under which the coordinators decide.
#[derive(Clone, Copy, Debug, PartialEq, Eq, Structural)]
pub struct MissionPolicy {
    /// A mission takes crew, and can be started, only while its roster is
    /// smaller than this.
    pub max_crew_per_mission: i64,
    /// A mission can be started only once its roster, the chief included,
    /// has this many members. Zero lets a chief start alone.
    pub min_crew_to_start: i64,
    /// Whether a mission can no longer be edited or removed once anyone is
    /// on its roster.
    pub lock_once_crewed: bool,
}

impl MissionPolicy {
    /// The policy with the given capacity and the defaults for the rest:
    /// no minimum crew, and no lock on missions with crew.
    pub open spec fn with_capacity(max_crew_per_mission: i64) -> MissionPolicy {
        MissionPolicy { max_crew_per_mission, min_crew_to_start: 0, lock_once_crewed: false }
    }

    /// What [`MissionPolicy::from_text`] makes of a configuration value.
    pub open spec fn read(raw: Seq<char>) -> Result<MissionPolicy, MissionError> {
        match parsed_i64(trimmed(raw)) {
            Some(max) => Ok(MissionPolicy::with_capacity(max)),
            None => Err(MissionError::ConfigurationError),
        }
    }

    pub fn new(max_crew_per_mission: i64) -> (policy: MissionPolicy)
        ensures
            policy == MissionPolicy::with_capacity(max_crew_per_mission),
    {
        MissionPolicy { max_crew_per_mission, min_crew_to_start: 0, lock_once_crewed: false }
    }

    /// Reads the capacity from the text of a configuration value: white
    /// space around it is dropped, and what is left must be a decimal
    /// integer. Anything else is a configuration error.
    pub fn from_text(raw: &str) -> (r: Result<MissionPolicy, MissionError>)
        ensures
            r == MissionPolicy::read(raw@),
    {
        match parse_i64(trim(raw)) {
            Some(max) => Ok(MissionPolicy::new(max)),
            None => Err(MissionError::ConfigurationError),
        }
    }

    /// The same policy with another minimum crew for a start.
    pub fn with_min_crew_to_start(self, min_crew_to_start: i64) -> (policy: MissionPolicy)
        ensures
            policy == (MissionPolicy { min_crew_to_start, ..self }),
    {
        MissionPolicy { min_crew_to_start, ..self }
    }

    /// The same policy with the lock on crewed missions set or lifted.
    pub fn with_lock_once_crewed(self, lock_once_crewed: bool) -> (policy: MissionPolicy)
        ensures
            policy == (MissionPolicy { lock_once_crewed, ..self }),
    {
        MissionPolicy { lock_once_crewed, ..self }
    }

    /// Whether a roster of `crew_count` still has room.
    pub open spec fn has_room(self, crew_count: int) -> bool {
        crew_count < self.max_crew_per_mission
    }

    /// Whether a roster of `crew_count` is large enough, and not too large,
    /// for the mission to start.
    pub open spec fn can_start_with(self, crew_count: int) -> bool {
        self.min_crew_to_start <= crew_count < self.max_crew_per_mission
    }
}

} // verus!
