//! The events that the coordinators publish.

use crate::domain::value_objects::mission_statuses::MissionStatuses;
use vstd::prelude::*;
use vstd::string::*;

verus! {

/// A change on the board, as live readers are told of it.
#[derive(Debug, PartialEq, Eq)]
pub enum Event {
    /// Somebody joined or left a mission's crew.
    CrewMovement { mission_id: i32, message: String },
    /// A mission took a new status.
    MissionUpdated { id: i32, name: String, status: MissionStatuses },
}

/// What an [`Event`] holds, as mathematical values.
pub enum EventView {
    CrewMovement { mission_id: i32, message: Seq<char> },
    MissionUpdated { id: i32, name: Seq<char>, status: MissionStatuses },
}

impl View for Event {
    type V = EventView;

    open spec fn view(&self) -> EventView {
        match *self {
            Event::CrewMovement { mission_id, message } => EventView::CrewMovement {
                mission_id,
                message: message@,
            },
            Event::MissionUpdated { id, name, status } => EventView::MissionUpdated {
                id,
                name: name@,
                status,
            },
        }
    }
}

impl Clone for Event {
    fn clone(&self) -> (copy: Event)
        ensures
            copy == *self,
    {
        match self {
            Event::CrewMovement { mission_id, message } => Event::CrewMovement {
                mission_id: *mission_id,
                message: message.clone(),
            },
            Event::MissionUpdated { id, name, status } => Event::MissionUpdated {
                id: *id,
                name: name.clone(),
                status: *status,
            },
        }
    }
}

/// The words that announce a new member of the crew of the mission `name`.
pub open spec fn joined_text(name: Seq<char>) -> Seq<char> {
    "New brawler joined mission \""@ + name + "\""@
}

/// The words that announce that somebody left the crew of the mission `name`.
pub open spec fn left_text(name: Seq<char>) -> Seq<char> {
    "A brawler left mission \""@ + name + "\""@
}

impl EventView {
    /// The event for a brawler who joined the mission `name`.
    pub open spec fn joined(mission_id: i32, name: Seq<char>) -> EventView {
        EventView::CrewMovement { mission_id, message: joined_text(name) }
    }

    /// The event for a brawler who left the mission `name`.
    pub open spec fn left(mission_id: i32, name: Seq<char>) -> EventView {
        EventView::CrewMovement { mission_id, message: left_text(name) }
    }

    /// The event for a mission that took the status `status`.
    pub open spec fn updated(id: i32, name: Seq<char>, status: MissionStatuses) -> EventView {
        EventView::MissionUpdated { id, name, status }
    }
}

impl Event {
    /// The tag under which the event goes out.
    pub open spec fn tag(self) -> Seq<char> {
        match self {
            Event::CrewMovement { .. } => "crew_movement"@,
            Event::MissionUpdated { .. } => "mission_updated"@,
        }
    }

    pub fn joined(mission_id: i32, name: &str) -> (event: Event)
        ensures
            event@ == EventView::joined(mission_id, name@),
    {
        let message = String::from_str("New brawler joined mission \"").concat(name).concat("\"");
        Event::CrewMovement { mission_id, message }
    }

    pub fn left(mission_id: i32, name: &str) -> (event: Event)
        ensures
            event@ == EventView::left(mission_id, name@),
    {
        let message = String::from_str("A brawler left mission \"").concat(name).concat("\"");
        Event::CrewMovement { mission_id, message }
    }

    pub fn updated(id: i32, name: &str, status: MissionStatuses) -> (event: Event)
        ensures
            event@ == EventView::updated(id, name@, status),
    {
        Event::MissionUpdated { id, name: String::from_str(name), status }
    }

    /// The tag under which the event goes out: `crew_movement` or
    /// `mission_updated`.
    pub fn kind(&self) -> (tag: String)
        ensures
            tag@ == self.tag(),
    {
        match self {
            Event::CrewMovement { .. } => String::from_str("crew_movement"),
            Event::MissionUpdated { .. } => String::from_str("mission_updated"),
        }
    }
}

} // verus!
