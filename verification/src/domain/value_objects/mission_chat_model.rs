//! The messages of a mission's chat.

use vstd::prelude::*;
use vstd::string::*;

verus! {

/// A message as it is stored and shown. The time is in microseconds since
/// the Unix epoch.
#[derive(Debug, PartialEq, Eq)]
pub struct MissionChatModel {
    pub id: i32,
    pub mission_id: i32,
    pub brawler_id: i32,
    pub brawler_name: String,
    pub message: String,
    pub created_at: i64,
}

/// What a [`MissionChatModel`] holds, as mathematical values.
pub struct MissionChatModelView {
    pub id: i32,
    pub mission_id: i32,
    pub brawler_id: i32,
    pub brawler_name: Seq<char>,
    pub message: Seq<char>,
    pub created_at: i64,
}

impl View for MissionChatModel {
    type V = MissionChatModelView;

    open spec fn view(&self) -> MissionChatModelView {
        MissionChatModelView {
            id: self.id,
            mission_id: self.mission_id,
            brawler_id: self.brawler_id,
            brawler_name: self.brawler_name@,
            message: self.message@,
            created_at: self.created_at,
        }
    }
}

impl Clone for MissionChatModel {
    fn clone(&self) -> (copy: MissionChatModel)
        ensures
            copy == *self,
    {
        MissionChatModel {
            id: self.id,
            mission_id: self.mission_id,
            brawler_id: self.brawler_id,
            brawler_name: self.brawler_name.clone(),
            message: self.message.clone(),
            created_at: self.created_at,
        }
    }
}

/// A brawler's request to say something in a mission's chat.
#[derive(Clone, Debug, PartialEq, Eq)]
pub struct AddMissionChatModel {
    pub message: String,
}

} // verus!
