//! The ways in which a request to the board can fail.

use vstd::prelude::*;
use vstd::string::*;

verus! {

/// Why a request was turned down.
#[derive(Clone, Copy, Debug, PartialEq, Eq, Structural)]
pub enum MissionError {
    /// The mission, or the membership, that the request names does not exist.
    NotFound,
    /// The caller does not have the role that the request needs.
    Forbidden,
    /// The state of the mission does not admit the request.
    InvalidState,
    /// The lifecycle has no such edge from the mission's status.
    InvalidTransition,
    /// The mission's roster is full.
    CapacityExceeded,
    /// A configuration value is missing or cannot be read.
    ConfigurationError,
    /// A mission name is shorter than three bytes once trimmed.
    InvalidName,
    /// The brawler already is on the mission's crew.
    AlreadyMember,
    /// The brawler is not on the mission's crew. This is the answer of
    /// the crew store; the crew coordinator hands it on as `NotFound`.
    NotMember,
    /// The page asked for is below one, or its size is negative.
    InvalidPage,
    /// The store could not carry out the operation, for reasons of its own.
    Unavailable,
}

impl MissionError {
    /// The text of the message that goes with the error.
    pub open spec fn text(self) -> Seq<char> {
        match self {
            MissionError::NotFound => "Mission not found"@,
            MissionError::Forbidden => "Caller is not allowed to do this on the mission"@,
            MissionError::InvalidState => "Mission is not in a state that allows this"@,
            MissionError::InvalidTransition => "Invalid condition to change stages!"@,
            MissionError::CapacityExceeded => "Mission is full"@,
            MissionError::ConfigurationError => "Configuration value is missing or unreadable"@,
            MissionError::InvalidName => "Mission name must be at least 3 characters long!"@,
            MissionError::AlreadyMember => "Brawler already joined the mission"@,
            MissionError::NotMember => "Brawler is not on the mission's crew"@,
            MissionError::InvalidPage => "Page must be at least 1 and page size at least 0"@,
            MissionError::Unavailable => "Mission store is unavailable"@,
        }
    }

    /// A message for the caller, in words.
    pub fn message(&self) -> (s: String)
        ensures
            s@ == self.text(),
    {
        match self {
            MissionError::NotFound => String::from_str("Mission not found"),
            MissionError::Forbidden => String::from_str(
                "Caller is not allowed to do this on the mission",
            ),
            MissionError::InvalidState => String::from_str(
                "Mission is not in a state that allows this",
            ),
            MissionError::InvalidTransition => String::from_str(
                "Invalid condition to change stages!",
            ),
            MissionError::CapacityExceeded => String::from_str("Mission is full"),
            MissionError::ConfigurationError => String::from_str(
                "Configuration value is missing or unreadable",
            ),
            MissionError::InvalidName => String::from_str(
                "Mission name must be at least 3 characters long!",
            ),
            MissionError::AlreadyMember => String::from_str("Brawler already joined the mission"),
            MissionError::NotMember => String::from_str("Brawler is not on the mission's crew"),
            MissionError::InvalidPage => String::from_str(
                "Page must be at least 1 and page size at least 0",
            ),
            MissionError::Unavailable => String::from_str("Mission store is unavailable"),
        }
    }

    /// The response class of the error: 404 where something is absent, 403
    /// where the caller lacks the role, 409 where the mission's state stands
    /// against the request, 400 for a malformed name or page, 500 otherwise.
    pub fn status_code(&self) -> (code: u16)
        ensures
            code == match *self {
                MissionError::NotFound | MissionError::NotMember => 404u16,
                MissionError::Forbidden => 403u16,
                MissionError::InvalidState
                | MissionError::InvalidTransition
                | MissionError::CapacityExceeded
                | MissionError::AlreadyMember => 409u16,
                MissionError::InvalidName | MissionError::InvalidPage => 400u16,
                MissionError::ConfigurationError | MissionError::Unavailable => 500u16,
            },
    {
        match self {
            MissionError::NotFound => 404,
            MissionError::NotMember => 404,
            MissionError::Forbidden => 403,
            MissionError::InvalidState => 409,
            MissionError::InvalidTransition => 409,
            MissionError::CapacityExceeded => 409,
            MissionError::AlreadyMember => 409,
            MissionError::InvalidName => 400,
            MissionError::InvalidPage => 400,
            MissionError::ConfigurationError => 500,
            MissionError::Unavailable => 500,
        }
    }
}

} // verus!
