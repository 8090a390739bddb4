//! The chats of the store in memory.

use crate::domain::board::ChatState;
use crate::domain::repositories::mission_chat::{chat_views, MissionChatRepository};
use crate::domain::repositories::store::MissionStore;
use crate::domain::value_objects::mission_chat_model::MissionChatModel;
use crate::domain::value_objects::mission_error::MissionError;
use crate::infrastructure::memory::store::{ChatRecord, MemoryStore};
use vstd::prelude::*;
use vstd::string::*;

verus! {

impl MemoryStore {
    /// The display name of a brawler; empty for one the board does not know.
    pub(crate) fn display_name_of(&self, brawler_id: i32) -> (name: String)
        ensures
            name@ == self.board().display_name(brawler_id),
    {
        proof {
            self.shown();
        }
        if brawler_id >= 1 && (brawler_id as usize) <= self.brawlers.len() {
            self.brawlers[(brawler_id - 1) as usize].display_name.clone()
        } else {
            String::new()
        }
    }

    /// The picture of a brawler; empty for one the board does not know.
    pub(crate) fn avatar_of(&self, brawler_id: i32) -> (url: String)
        ensures
            url@ == self.board().avatar_url(brawler_id),
    {
        proof {
            self.shown();
        }
        if brawler_id >= 1 && (brawler_id as usize) <= self.brawlers.len() {
            self.brawlers[(brawler_id - 1) as usize].avatar_url.clone()
        } else {
            String::new()
        }
    }
}

impl MissionChatRepository for MemoryStore {
    /// The message gets the next id and is stamped with the store's time.
    fn add_message(&mut self, mission_id: i32, brawler_id: i32, message: &str) -> (r: Result<
        MissionChatModel,
        MissionError,
    >)
        ensures
            final(self).time() == old(self).time(),
            r matches Ok(chat) ==> {
                &&& chat.created_at == old(self).time()
                &&& chat.id == old(self).next_message_id()
                &&& final(self).next_message_id() == chat.id + 1
            },
            r is Err ==> final(self).next_message_id() == old(self).next_message_id(),
    {
        proof {
            self.shown();
        }
        let i = match self.live_slot(mission_id) {
            Some(i) => i,
            None => {
                return Err(MissionError::NotFound);
            },
        };
        if !(brawler_id >= 1 && (brawler_id as usize) <= self.brawlers.len()) {
            return Err(MissionError::NotFound);
        }
        if self.changes_left <= 0 || self.next_chat_id == i32::MAX {
            return Err(MissionError::Unavailable);
        }
        let id = self.next_chat_id;
        let created_at = self.clock;
        let brawler_name = self.display_name_of(brawler_id);
        self.next_chat_id = id + 1;
        let record = ChatRecord { id, brawler_id, message: String::from_str(message), created_at };
        let ghost said = record.state();
        self.missions[i].chat.push(record);
        self.changes_left = self.changes_left - 1;
        proof {
            let chat_before = old(self).missions[mission_id - 1].state().chat;
            assert(final(self).missions[mission_id - 1].state().chat =~= chat_before.push(said));
            final(self).one_mission_differs(old(self), mission_id);
            final(self).shown();
        }
        Ok(
            MissionChatModel {
                id,
                mission_id,
                brawler_id,
                brawler_name,
                message: String::from_str(message),
                created_at,
            },
        )
    }

    fn get_messages(&self, mission_id: i32) -> (r: Result<Vec<MissionChatModel>, MissionError>) {
        let mut chats: Vec<MissionChatModel> = Vec::new();
        proof {
            self.shown();
        }
        let i = match self.slot(mission_id) {
            Some(i) => i,
            None => {
                proof {
                    assert(chat_views(chats@) =~= self.board().chat_models(mission_id));
                }
                return Ok(chats);
            },
        };
        let mut at: usize = 0;
        while at < self.missions[i].chat.len()
            invariant
                i == mission_id - 1,
                i < self.missions.len(),
                at <= self.missions[i as int].chat.len(),
                chats@.len() == at,
                forall|k: int|
                    0 <= k < at ==> (#[trigger] chats@[k])@ == self.board().chat_model(
                        mission_id,
                        self.missions[i as int].chat@[k].state(),
                    ),
            decreases self.missions[i as int].chat.len() - at,
        {
            let record = &self.missions[i].chat[at];
            chats.push(
                MissionChatModel {
                    id: record.id,
                    mission_id,
                    brawler_id: record.brawler_id,
                    brawler_name: self.display_name_of(record.brawler_id),
                    message: record.message.clone(),
                    created_at: record.created_at,
                },
            );
            at = at + 1;
        }
        proof {
            assert(chat_views(chats@) =~= self.board().chat_models(mission_id));
        }
        Ok(chats)
    }

    fn delete_messages(&mut self, mission_id: i32) -> (r: Result<(), MissionError>)
        ensures
            final(self).time() == old(self).time(),
            final(self).next_message_id() == old(self).next_message_id(),
    {
        proof {
            self.shown();
        }
        if self.changes_left <= 0 {
            return Err(MissionError::Unavailable);
        }
        self.changes_left = self.changes_left - 1;
        match self.slot(mission_id) {
            Some(i) => {
                self.missions[i].chat = Vec::new();
                proof {
                    assert(final(self).missions[mission_id - 1].state().chat =~= Seq::<
                        ChatState,
                    >::empty());
                    final(self).one_mission_differs(old(self), mission_id);
                    final(self).shown();
                }
            },
            None => {
                proof {
                    final(self).shown();
                }
            },
        }
        Ok(())
    }
}

} // verus!
