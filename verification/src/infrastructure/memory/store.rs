//! The records of the store in memory, and every operation that writes.

use crate::domain::board::{
    without,
    without_takes_one_off,
    BoardState,
    BrawlerState,
    ChatState,
    MissionState,
};
use crate::domain::entities::crew_memberships::CrewMembershipEntity;
use crate::domain::entities::missions::{AddMissionEntity, EditMissionEntity};
use crate::domain::repositories::crew_operation::CrewOperationRepository;
use crate::domain::repositories::mission_management::MissionManagementRepository;
use crate::domain::repositories::mission_operation::{
    restatus_guarantee,
    MissionOperationRepository,
};
use crate::domain::repositories::store::MissionStore;
use crate::domain::value_objects::mission_error::MissionError;
use crate::domain::value_objects::mission_model::optional_text;
use crate::domain::value_objects::mission_statuses::MissionStatuses;
use vstd::prelude::*;
use vstd::string::*;

verus! {

pub(crate) struct ChatRecord {
    pub id: i32,
    pub brawler_id: i32,
    pub message: String,
    pub created_at: i64,
}

pub(crate) struct MissionRecord {
    pub chief_id: i32,
    pub name: String,
    pub description: Option<String>,
    pub status: MissionStatuses,
    pub category: String,
    pub created_at: i64,
    pub updated_at: i64,
    pub deleted_at: Option<i64>,
    pub crew: Vec<i32>,
    pub chat: Vec<ChatRecord>,
}

pub(crate) struct BrawlerRecord {
    pub display_name: String,
    pub avatar_url: String,
}

impl ChatRecord {
    pub(crate) open spec fn state(&self) -> ChatState {
        ChatState {
            id: self.id,
            brawler_id: self.brawler_id,
            message: self.message@,
            created_at: self.created_at,
        }
    }
}

impl MissionRecord {
    pub(crate) open spec fn state(&self) -> MissionState {
        MissionState {
            chief_id: self.chief_id,
            name: self.name@,
            description: optional_text(self.description),
            status: self.status,
            category: self.category@,
            created_at: self.created_at,
            updated_at: self.updated_at,
            deleted: self.deleted_at is Some,
            crew: self.crew@,
            chat: self.chat@.map_values(|chat: ChatRecord| chat.state()),
        }
    }
}

impl BrawlerRecord {
    pub(crate) open spec fn state(&self) -> BrawlerState {
        BrawlerState { display_name: self.display_name@, avatar_url: self.avatar_url@ }
    }
}

/// A board in memory. Missions and brawlers are numbered from one in the
/// order in which they came, and what changes is stamped with the time that
/// was last set.
///
/// The store carries out a fixed number of changes in its life, few enough
/// for its numbers to last: every mission and every message gets an id, and
/// every roster can be counted.
pub struct MemoryStore {
    pub(crate) missions: Vec<MissionRecord>,
    pub(crate) brawlers: Vec<BrawlerRecord>,
    pub(crate) clock: i64,
    pub(crate) next_chat_id: i32,
    pub(crate) changes_left: i32,
}

/// How many changes a new store carries out.
pub const MEMORY_STORE_CHANGES: i32 = 2147483646;

impl MissionStore for MemoryStore {
    closed spec fn board(&self) -> BoardState {
        BoardState {
            missions: Map::new(
                |id: i32| 1 <= id <= self.missions.len(),
                |id: i32| self.missions[id - 1].state(),
            ),
            brawlers: Map::new(
                |id: i32| 1 <= id <= self.brawlers.len(),
                |id: i32| self.brawlers[id - 1].state(),
            ),
        }
    }

    /// The changes that are left, as long as the store's numbers last for
    /// them.
    closed spec fn spare(&self) -> nat {
        if self.lasts_for(self.changes_left as int) {
            self.changes_left as nat
        } else {
            0
        }
    }
}

/// Whether `brawler_id` is the id that the next brawler gets on a board
/// whose brawlers are numbered in the order of their coming: the least id
/// from one on that no brawler has. Every id before it is taken, the one
/// just before it among them.
pub open spec fn is_next_brawler(board: BoardState, brawler_id: i32) -> bool {
    &&& brawler_id >= 1
    &&& !board.brawlers.dom().contains(brawler_id)
    &&& brawler_id == 1 || board.brawlers.dom().contains((brawler_id - 1) as i32)
    &&& forall|earlier: i32|
        1 <= earlier < brawler_id ==> #[trigger] board.brawlers.dom().contains(earlier)
}

/// Whether `brawler_id` is in `crew`.
pub(crate) fn holds(crew: &Vec<i32>, brawler_id: i32) -> (found: bool)
    ensures
        found == crew@.contains(brawler_id),
{
    let mut at: usize = 0;
    while at < crew.len()
        invariant
            at <= crew.len(),
            forall|k: int| 0 <= k < at ==> crew@[k] != brawler_id,
        decreases crew.len() - at,
    {
        if crew[at] == brawler_id {
            return true;
        }
        at = at + 1;
    }
    false
}

/// `crew` without `brawler_id`.
pub(crate) fn strike(crew: &Vec<i32>, brawler_id: i32) -> (rest: Vec<i32>)
    ensures
        rest@ == without(crew@, brawler_id),
{
    let mut rest: Vec<i32> = Vec::new();
    let mut at: usize = 0;
    while at < crew.len()
        invariant
            at <= crew.len(),
            rest@ == without(crew@.subrange(0, at as int), brawler_id),
        decreases crew.len() - at,
    {
        proof {
            let longer = crew@.subrange(0, at + 1);
            assert(longer.drop_last() =~= crew@.subrange(0, at as int));
            assert(longer.last() == crew@[at as int]);
        }
        if crew[at] != brawler_id {
            rest.push(crew[at]);
        }
        at = at + 1;
    }
    proof {
        assert(crew@.subrange(0, at as int) =~= crew@);
    }
    rest
}

impl MemoryStore {
    /// Whether the store's numbers last for `changes` more changes: there
    /// is an id for as many missions and messages, and every roster can
    /// still be counted when it has grown by as many members.
    pub(crate) closed spec fn lasts_for(&self, changes: int) -> bool {
        &&& 0 <= changes
        &&& self.missions.len() + changes <= i32::MAX
        &&& self.next_chat_id + changes <= i32::MAX
        &&& forall|i: int|
            0 <= i < self.missions.len() ==> (#[trigger] self.missions[i]).crew.len() + changes
                <= i64::MAX
    }

    /// An empty board, at time zero.
    pub fn new() -> (store: MemoryStore)
        ensures
            store.board() == BoardState::empty(),
            store.spare() == MEMORY_STORE_CHANGES,
            store.time() == 0,
            store.next_message_id() == 1,
    {
        let store = MemoryStore {
            missions: Vec::new(),
            brawlers: Vec::new(),
            clock: 0,
            next_chat_id: 1,
            changes_left: MEMORY_STORE_CHANGES,
        };
        proof {
            assert(store.board().missions =~= Map::<i32, MissionState>::empty());
            assert(store.board().brawlers =~= Map::<i32, BrawlerState>::empty());
        }
        store
    }

    /// The time that the store stamps on what changes.
    pub closed spec fn time(&self) -> i64 {
        self.clock
    }

    /// The id that the next message gets. Messages are numbered from one in
    /// the order of their coming, over all chats.
    pub closed spec fn next_message_id(&self) -> i32 {
        self.next_chat_id
    }

    /// Sets the time that the store stamps on what changes from now on.
    pub fn set_time(&mut self, now: i64)
        ensures
            final(self).time() == now,
            final(self).next_message_id() == old(self).next_message_id(),
            final(self).board() == old(self).board(),
            final(self).spare() == old(self).spare(),
    {
        self.clock = now;
    }

    /// Makes a brawler known to the board and answers the brawler's id:
    /// the least id from one on that no brawler has yet. There is no id
    /// left once a brawler has the id `i32::MAX`; nothing changes then.
    pub fn enroll(&mut self, display_name: &str, avatar_url: &str) -> (r: Option<i32>)
        ensures
            final(self).spare() == old(self).spare(),
            final(self).time() == old(self).time(),
            final(self).next_message_id() == old(self).next_message_id(),
            r is Some <==> !old(self).board().brawlers.dom().contains(i32::MAX),
            match r {
                Some(brawler_id) => {
                    &&& is_next_brawler(old(self).board(), brawler_id)
                    &&& final(self).board() == (BoardState {
                        brawlers: old(self).board().brawlers.insert(
                            brawler_id,
                            BrawlerState { display_name: display_name@, avatar_url: avatar_url@ },
                        ),
                        ..old(self).board()
                    })
                },
                None => final(self).board() == old(self).board(),
            },
    {
        if self.brawlers.len() >= i32::MAX as usize {
            return None;
        }
        self.brawlers.push(
            BrawlerRecord {
                display_name: String::from_str(display_name),
                avatar_url: String::from_str(avatar_url),
            },
        );
        let brawler_id = self.brawlers.len() as i32;
        proof {
            assert(final(self).board().brawlers =~= old(self).board().brawlers.insert(
                brawler_id,
                BrawlerState { display_name: display_name@, avatar_url: avatar_url@ },
            ));
            assert(final(self).board().missions =~= old(self).board().missions);
        }
        Some(brawler_id)
    }

    /// What the store shows, in terms of its records.
    pub(crate) proof fn shown(&self)
        ensures
            self.board() == (BoardState {
                missions: Map::new(
                    |id: i32| 1 <= id <= self.missions.len(),
                    |id: i32| self.missions[id - 1].state(),
                ),
                brawlers: Map::new(
                    |id: i32| 1 <= id <= self.brawlers.len(),
                    |id: i32| self.brawlers[id - 1].state(),
                ),
            }),
            self.spare() == if self.lasts_for(self.changes_left as int) {
                self.changes_left as nat
            } else {
                0
            },
            self.lasts_for(self.changes_left as int) == {
                &&& 0 <= self.changes_left
                &&& self.missions.len() + self.changes_left <= i32::MAX
                &&& self.next_chat_id + self.changes_left <= i32::MAX
                &&& forall|i: int|
                    0 <= i < self.missions.len() ==> (#[trigger] self.missions[i]).crew.len()
                        + self.changes_left <= i64::MAX
            },
            self.time() == self.clock,
            self.next_message_id() == self.next_chat_id,
    {
    }

    /// Where the record of a mission on record stands.
    pub(crate) fn slot(&self, mission_id: i32) -> (r: Option<usize>)
        ensures
            match r {
                Some(i) => self.board().knows(mission_id) && i == mission_id - 1 && i
                    < self.missions.len(),
                None => !self.board().knows(mission_id),
            },
    {
        if mission_id >= 1 && (mission_id as usize) <= self.missions.len() {
            Some((mission_id - 1) as usize)
        } else {
            None
        }
    }

    /// Where the record of a mission that exists stands.
    pub(crate) fn live_slot(&self, mission_id: i32) -> (r: Option<usize>)
        ensures
            match r {
                Some(i) => self.board().has(mission_id) && i == mission_id - 1 && i
                    < self.missions.len(),
                None => !self.board().has(mission_id),
            },
    {
        match self.slot(mission_id) {
            Some(i) => if self.missions[i].deleted_at.is_some() {
                None
            } else {
                Some(i)
            },
            None => None,
        }
    }

    /// A store that differs from another in one mission only shows the
    /// other's board with that mission replaced.
    pub(crate) proof fn one_mission_differs(&self, before: &MemoryStore, mission_id: i32)
        requires
            before.board().knows(mission_id),
            self.missions.len() == before.missions.len(),
            self.brawlers == before.brawlers,
            forall|j: int|
                0 <= j < before.missions.len() && j != mission_id - 1 ==> self.missions[j]
                    == before.missions[j],
        ensures
            self.board() == before.board().with_mission(
                mission_id,
                self.missions[mission_id - 1].state(),
            ),
    {
        assert(self.board().missions =~= before.board().missions.insert(
            mission_id,
            self.missions[mission_id - 1].state(),
        ));
    }
}

impl CrewOperationRepository for MemoryStore {
    fn join(&mut self, crew_member_ships: CrewMembershipEntity, bypass_chief_check: bool) -> (r:
        Result<(), MissionError>)
        ensures
            final(self).time() == old(self).time(),
            final(self).next_message_id() == old(self).next_message_id(),
    {
        if self.changes_left <= 0 {
            return Err(MissionError::Unavailable);
        }
        let i = match self.live_slot(crew_member_ships.mission_id) {
            Some(i) => i,
            None => {
                return Err(MissionError::NotFound);
            },
        };
        if !bypass_chief_check && self.missions[i].chief_id == crew_member_ships.brawler_id {
            return Err(MissionError::Forbidden);
        }
        if holds(&self.missions[i].crew, crew_member_ships.brawler_id) {
            return Err(MissionError::AlreadyMember);
        }
        self.missions[i].crew.push(crew_member_ships.brawler_id);
        self.changes_left = self.changes_left - 1;
        proof {
            final(self).one_mission_differs(old(self), crew_member_ships.mission_id);
        }
        Ok(())
    }

    fn leave(&mut self, crew_member_ships: CrewMembershipEntity) -> (r: Result<(), MissionError>)
        ensures
            final(self).time() == old(self).time(),
            final(self).next_message_id() == old(self).next_message_id(),
    {
        if self.changes_left <= 0 {
            return Err(MissionError::Unavailable);
        }
        let i = match self.live_slot(crew_member_ships.mission_id) {
            Some(i) => i,
            None => {
                return Err(MissionError::NotFound);
            },
        };
        if !holds(&self.missions[i].crew, crew_member_ships.brawler_id) {
            return Err(MissionError::NotMember);
        }
        let rest = strike(&self.missions[i].crew, crew_member_ships.brawler_id);
        self.missions[i].crew = rest;
        self.changes_left = self.changes_left - 1;
        proof {
            without_takes_one_off(
                old(self).missions[i as int].crew@,
                crew_member_ships.brawler_id,
            );
            final(self).one_mission_differs(old(self), crew_member_ships.mission_id);
        }
        Ok(())
    }
}

impl MemoryStore {
    /// Gives a mission a new status, under the store's conditions.
    pub(crate) fn restatus(&mut self, mission_id: i32, chief_id: i32, next: MissionStatuses) -> (r:
        Result<i32, MissionError>)
        ensures
            restatus_guarantee(old(self), final(self), r, mission_id, chief_id, next),
            final(self).time() == old(self).time(),
            final(self).next_message_id() == old(self).next_message_id(),
            r is Ok ==> final(self).board().missions[mission_id].updated_at == old(self).time(),
    {
        if self.changes_left <= 0 {
            return Err(MissionError::Unavailable);
        }
        let i = match self.live_slot(mission_id) {
            Some(i) => i,
            None => {
                return Err(MissionError::NotFound);
            },
        };
        if self.missions[i].chief_id != chief_id {
            return Err(MissionError::Forbidden);
        }
        if !self.missions[i].status.can_become(next) {
            return Err(MissionError::InvalidTransition);
        }
        self.missions[i].status = next;
        self.missions[i].updated_at = self.clock;
        self.changes_left = self.changes_left - 1;
        proof {
            final(self).one_mission_differs(old(self), mission_id);
        }
        Ok(mission_id)
    }
}

impl MissionOperationRepository for MemoryStore {
    /// The mission is stamped with the store's time.
    fn to_progress(&mut self, mission_id: i32, chief_id: i32) -> (r: Result<i32, MissionError>)
        ensures
            final(self).time() == old(self).time(),
            final(self).next_message_id() == old(self).next_message_id(),
            r is Ok ==> final(self).board().missions[mission_id].updated_at == old(self).time(),
    {
        self.restatus(mission_id, chief_id, MissionStatuses::InProgress)
    }

    /// The mission is stamped with the store's time.
    fn to_completed(&mut self, mission_id: i32, chief_id: i32) -> (r: Result<i32, MissionError>)
        ensures
            final(self).time() == old(self).time(),
            final(self).next_message_id() == old(self).next_message_id(),
            r is Ok ==> final(self).board().missions[mission_id].updated_at == old(self).time(),
    {
        self.restatus(mission_id, chief_id, MissionStatuses::Completed)
    }

    /// The mission is stamped with the store's time.
    fn to_failed(&mut self, mission_id: i32, chief_id: i32) -> (r: Result<i32, MissionError>)
        ensures
            final(self).time() == old(self).time(),
            final(self).next_message_id() == old(self).next_message_id(),
            r is Ok ==> final(self).board().missions[mission_id].updated_at == old(self).time(),
    {
        self.restatus(mission_id, chief_id, MissionStatuses::Failed)
    }
}

impl MissionManagementRepository for MemoryStore {
    /// The mission is stamped with the store's time.
    fn add(&mut self, add_mission_entity: AddMissionEntity) -> (r: Result<i32, MissionError>)
        ensures
            final(self).time() == old(self).time(),
            final(self).next_message_id() == old(self).next_message_id(),
            r matches Ok(mission_id) ==> final(self).board().missions[mission_id].created_at
                == old(self).time(),
    {
        if self.changes_left <= 0 || self.missions.len() >= i32::MAX as usize {
            return Err(MissionError::Unavailable);
        }
        let ghost posted = BoardState::fresh(add_mission_entity, self.clock);
        self.missions.push(
            MissionRecord {
                chief_id: add_mission_entity.chief_id,
                name: add_mission_entity.name,
                description: add_mission_entity.description,
                status: add_mission_entity.status,
                category: add_mission_entity.category,
                created_at: self.clock,
                updated_at: self.clock,
                deleted_at: None,
                crew: Vec::new(),
                chat: Vec::new(),
            },
        );
        let mission_id = self.missions.len() as i32;
        self.changes_left = self.changes_left - 1;
        proof {
            assert(final(self).missions[mission_id - 1].state().chat =~= Seq::<ChatState>::empty());
            assert(final(self).missions[mission_id - 1].state() == posted);
            assert(final(self).board().missions =~= old(self).board().missions.insert(
                mission_id,
                posted,
            ));
        }
        Ok(mission_id)
    }

    /// The mission is stamped with the store's time.
    fn edit(&mut self, mission_id: i32, edit_mission_entity: EditMissionEntity) -> (r: Result<
        i32,
        MissionError,
    >)
        ensures
            final(self).time() == old(self).time(),
            final(self).next_message_id() == old(self).next_message_id(),
            r is Ok ==> final(self).board().missions[mission_id].updated_at == old(self).time(),
    {
        if self.changes_left <= 0 {
            return Err(MissionError::Unavailable);
        }
        let i = match self.live_slot(mission_id) {
            Some(i) => i,
            None => {
                return Err(MissionError::NotFound);
            },
        };
        if self.missions[i].chief_id != edit_mission_entity.chief_id {
            return Err(MissionError::Forbidden);
        }
        match edit_mission_entity.name {
            Some(name) => {
                self.missions[i].name = name;
            },
            None => {},
        }
        match edit_mission_entity.description {
            Some(description) => {
                self.missions[i].description = Some(description);
            },
            None => {},
        }
        match edit_mission_entity.category {
            Some(category) => {
                self.missions[i].category = category;
            },
            None => {},
        }
        self.missions[i].updated_at = self.clock;
        self.changes_left = self.changes_left - 1;
        proof {
            final(self).one_mission_differs(old(self), mission_id);
        }
        Ok(mission_id)
    }

    /// The mission is stamped with the store's time.
    fn remove(&mut self, mission_id: i32, chief_id: i32) -> (r: Result<(), MissionError>)
        ensures
            final(self).time() == old(self).time(),
            final(self).next_message_id() == old(self).next_message_id(),
            r is Ok ==> final(self).board().missions[mission_id].updated_at == old(self).time(),
    {
        if self.changes_left <= 0 {
            return Err(MissionError::Unavailable);
        }
        let i = match self.live_slot(mission_id) {
            Some(i) => i,
            None => {
                return Err(MissionError::NotFound);
            },
        };
        if self.missions[i].chief_id != chief_id {
            return Err(MissionError::Forbidden);
        }
        self.missions[i].deleted_at = Some(self.clock);
        self.missions[i].updated_at = self.clock;
        self.changes_left = self.changes_left - 1;
        proof {
            final(self).one_mission_differs(old(self), mission_id);
        }
        Ok(())
    }
}

} // verus!
