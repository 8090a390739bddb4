//! The chat of a mission: saying, reading and clearing.

use crate::domain::repositories::mission_chat::{
    chat_views,
    say_guarantee,
    MissionChatRepository,
};
use crate::domain::repositories::store::carried_out;
use crate::domain::value_objects::mission_chat_model::MissionChatModel;
use crate::domain::value_objects::mission_error::MissionError;
use vstd::prelude::*;

verus! {

/// Keeps the chats of the missions in `repo`.
pub struct MissionChatUseCase<T> where T: MissionChatRepository {
    pub repo: T,
}

impl<T> MissionChatUseCase<T> where T: MissionChatRepository {
    pub fn new(repo: T) -> (use_case: Self)
        ensures
            use_case.repo == repo,
    {
        Self { repo }
    }

    /// Adds `message` of `brawler_id` to the end of the chat of
    /// `mission_id`, and answers it as a reader sees it. The mission must
    /// exist and the board must know the brawler.
    pub fn add_message(&mut self, mission_id: i32, brawler_id: i32, message: &str) -> (r: Result<
        MissionChatModel,
        MissionError,
    >)
        ensures
            say_guarantee(&old(self).repo, &final(self).repo, r, mission_id, brawler_id, message@),
    {
        self.repo.add_message(mission_id, brawler_id, message)
    }

    /// The chat of `mission_id`, oldest message first; empty for a mission
    /// that is not on record.
    pub fn get_messages(&self, mission_id: i32) -> (r: Result<Vec<MissionChatModel>, MissionError>)
        ensures
            match r {
                Ok(chats) => chat_views(chats@) == self.repo.board().chat_models(mission_id),
                Err(e) => e == MissionError::Unavailable,
            },
            self.repo.spare() > 0 ==> r is Ok,
    {
        self.repo.get_messages(mission_id)
    }

    /// Empties the chat of `mission_id`.
    pub fn delete_messages(&mut self, mission_id: i32) -> (r: Result<(), MissionError>)
        ensures
            carried_out(
                &old(self).repo,
                &final(self).repo,
                r,
                Ok::<(), MissionError>(()),
                old(self).repo.board().purged(mission_id),
                1,
            ),
    {
        self.repo.delete_messages(mission_id)
    }
}

} // verus!
