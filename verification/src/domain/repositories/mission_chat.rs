//! The store of chat messages.

use crate::domain::board::ChatState;
use crate::domain::repositories::store::{carried_out, MissionStore};
use crate::domain::value_objects::mission_chat_model::{MissionChatModel, MissionChatModelView};
use crate::domain::value_objects::mission_error::MissionError;
use vstd::prelude::*;

verus! {

/// The views of a list of messages.
pub open spec fn chat_views(list: Seq<MissionChatModel>) -> Seq<MissionChatModelView> {
    list.map_values(|m: MissionChatModel| m@)
}

/// What a store guarantees of a new message: the mission must exist and
/// the board must know the brawler; the message then stands at the end
/// of the mission's chat, with an id and the time of its arrival, and is
/// answered as a reader sees it.
pub open spec fn say_guarantee<S: MissionStore + ?Sized>(
    before: &S,
    after: &S,
    r: Result<MissionChatModel, MissionError>,
    mission_id: i32,
    brawler_id: i32,
    message: Seq<char>,
) -> bool {
    let due = before.board().say_outcome(mission_id, brawler_id);
    &&& before.spare() > 0 ==> (r is Ok <==> due is Ok)
    &&& match r {
        Ok(chat) => {
            &&& due is Ok
            &&& after.board() == before.board().said(
                mission_id,
                ChatState { id: chat.id, brawler_id, message, created_at: chat.created_at },
            )
            &&& chat@ == after.board().chat_model(mission_id, after.board().chat(mission_id).last())
            &&& after.spare() + 1 >= before.spare()
        },
        Err(e) => {
            &&& due == Err::<(), MissionError>(e) || e == MissionError::Unavailable
            &&& before.spare() > 0 ==> e != MissionError::Unavailable
            &&& after.board() == before.board()
            &&& after.spare() == before.spare()
        },
    }
}

pub trait MissionChatRepository: MissionStore {
    /// Adds a message to the end of a mission's chat.
    fn add_message(&mut self, mission_id: i32, brawler_id: i32, message: &str) -> (r: Result<
        MissionChatModel,
        MissionError,
    >)
        ensures
            say_guarantee(old(self), final(self), r, mission_id, brawler_id, message@),
    ;

    /// The chat of a mission, oldest message first; empty for a mission
    /// that is not on record.
    fn get_messages(&self, mission_id: i32) -> (r: Result<Vec<MissionChatModel>, MissionError>)
        ensures
            match r {
                Ok(chats) => chat_views(chats@) == self.board().chat_models(mission_id),
                Err(e) => e == MissionError::Unavailable,
            },
            self.spare() > 0 ==> r is Ok,
    ;

    /// Empties the chat of a mission. A mission that is not on record has
    /// no chat to empty, which is no error.
    fn delete_messages(&mut self, mission_id: i32) -> (r: Result<(), MissionError>)
        ensures
            carried_out(
                old(self),
                final(self),
                r,
                Ok::<(), MissionError>(()),
                old(self).board().purged(mission_id),
                1,
            ),
    ;
}

} // verus!
