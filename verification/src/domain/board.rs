//! The board as a mathematical value, and the rules of the board as
//! functions on it.
//!
//! Every store shows its contents as a [`BoardState`]. What an operation
//! answers and what it leaves behind are both stated here, once, and the
//! coordinators and stores are proved against these statements.

use crate::domain::entities::crew_memberships::CrewMembershipEntity;
use crate::domain::entities::missions::AddMissionEntity;
use crate::domain::rules::{
    absent_as_not_found,
    change_ruling,
    join_ruling,
    leave_ruling,
    transition_ruling,
};
use crate::domain::value_objects::brawler_model::BrawlerModelView;
use crate::domain::value_objects::mission_chat_model::MissionChatModelView;
use crate::domain::value_objects::mission_error::MissionError;
use crate::domain::value_objects::mission_filter::MissionFilterView;
use crate::domain::value_objects::mission_model::{edited_name, optional_text, MissionModelView};
use crate::domain::value_objects::mission_policy::MissionPolicy;
use crate::domain::value_objects::mission_statuses::MissionStatuses;
use crate::domain::value_objects::text::{lowercase, occurs_in};
use vstd::prelude::*;

verus! {

/// What the board knows of a brawler.
pub struct BrawlerState {
    pub display_name: Seq<char>,
    /// Empty where the brawler has no picture.
    pub avatar_url: Seq<char>,
}

/// One message of a mission's chat.
pub struct ChatState {
    pub id: i32,
    pub brawler_id: i32,
    pub message: Seq<char>,
    pub created_at: i64,
}

/// One mission with its roster and its chat.
pub struct MissionState {
    pub chief_id: i32,
    pub name: Seq<char>,
    pub description: Option<Seq<char>>,
    pub status: MissionStatuses,
    pub category: Seq<char>,
    pub created_at: i64,
    pub updated_at: i64,
    /// The soft-delete marker: a deleted mission stays on record and takes
    /// part in nothing.
    pub deleted: bool,
    /// The brawlers on the crew, in the order in which they joined.
    pub crew: Seq<i32>,
    /// The chat, oldest message first.
    pub chat: Seq<ChatState>,
}

/// The whole board: missions by id, brawlers by id.
pub struct BoardState {
    pub missions: Map<i32, MissionState>,
    pub brawlers: Map<i32, BrawlerState>,
}

/// `crew` without `brawler_id`.
pub open spec fn without(crew: Seq<i32>, brawler_id: i32) -> Seq<i32>
    decreases crew.len(),
{
    if crew.len() == 0 {
        crew
    } else if crew.last() == brawler_id {
        without(crew.drop_last(), brawler_id)
    } else {
        without(crew.drop_last(), brawler_id).push(crew.last())
    }
}

/// Taking a brawler off a roster takes off that brawler and nobody else,
/// makes the roster no longer, and leaves nobody on it twice who was on it
/// once.
pub proof fn without_takes_one_off(crew: Seq<i32>, brawler_id: i32)
    ensures
        without(crew, brawler_id).len() <= crew.len(),
        !without(crew, brawler_id).contains(brawler_id),
        forall|other: i32|
            other != brawler_id ==> (without(crew, brawler_id).contains(other) <==> crew.contains(
                other,
            )),
        crew.no_duplicates() ==> without(crew, brawler_id).no_duplicates(),
    decreases crew.len(),
{
    if crew.len() > 0 {
        let rest = crew.drop_last();
        let kept = without(rest, brawler_id);
        without_takes_one_off(rest, brawler_id);
        assert forall|other: i32| other != brawler_id implies (without(crew, brawler_id).contains(
            other,
        ) <==> crew.contains(other)) by {
            if crew.contains(other) {
                let j = choose|j: int| 0 <= j < crew.len() && crew[j] == other;
                if j < rest.len() {
                    assert(rest[j] == other);
                    assert(rest.contains(other));
                    assert(kept.contains(other));
                    let i = choose|i: int| 0 <= i < kept.len() && kept[i] == other;
                    if crew.last() != brawler_id {
                        assert(kept.push(crew.last())[i] == other);
                    }
                } else {
                    assert(kept.push(other)[kept.len() as int] == other);
                }
            }
            if without(crew, brawler_id).contains(other) {
                let out = without(crew, brawler_id);
                let i = choose|i: int| 0 <= i < out.len() && out[i] == other;
                if crew.last() != brawler_id && i == kept.len() {
                    assert(crew[crew.len() - 1] == other);
                } else {
                    assert(kept[i] == other);
                    assert(kept.contains(other));
                    assert(rest.contains(other));
                    let j = choose|j: int| 0 <= j < rest.len() && rest[j] == other;
                    assert(crew[j] == other);
                }
            }
        }
        if crew.last() != brawler_id {
            let out = kept.push(crew.last());
            assert(!out.contains(brawler_id)) by {
                if out.contains(brawler_id) {
                    let i = choose|i: int| 0 <= i < out.len() && out[i] == brawler_id;
                    assert(kept[i] == brawler_id);
                    assert(kept.contains(brawler_id));
                }
            }
            if crew.no_duplicates() {
                assert(rest.no_duplicates());
                assert(!rest.contains(crew.last())) by {
                    if rest.contains(crew.last()) {
                        let j = choose|j: int| 0 <= j < rest.len() && rest[j] == crew.last();
                        assert(crew[j] == crew[crew.len() - 1]);
                    }
                }
                assert(!kept.contains(crew.last())) by {
                    if kept.contains(crew.last()) {
                        let i = choose|i: int| 0 <= i < kept.len() && kept[i] == crew.last();
                        assert(kept[i] == crew.last());
                    }
                }
                assert forall|a: int, b: int| 0 <= a < out.len() && 0 <= b < out.len() && a
                    != b implies out[a] != out[b] by {
                    if a < kept.len() && b < kept.len() {
                        assert(kept[a] != kept[b]);
                    } else if a < kept.len() {
                        assert(kept.contains(kept[a]));
                    } else {
                        assert(kept.contains(kept[b]));
                    }
                }
            }
        } else {
            if crew.no_duplicates() {
                assert(rest.no_duplicates());
            }
        }
    }
}

/// Whether a mission meets the conditions of a filter.
pub open spec fn admits(filter: MissionFilterView, mission: MissionState) -> bool {
    &&& filter.status matches Some(status) ==> mission.status == status
    &&& filter.name matches Some(name) ==> occurs_in(lowercase(name), lowercase(mission.name))
    &&& filter.category matches Some(category) ==> mission.category == category
    &&& filter.exclude_chief_id matches Some(chief_id) ==> mission.chief_id != chief_id
}

/// Whether `a` may stand before `b` in a list: missions that have not run
/// their course come first, and within each group the newest.
pub open spec fn ranks_before(a: MissionState, b: MissionState) -> bool {
    if a.status.terminal() == b.status.terminal() {
        a.created_at >= b.created_at
    } else {
        b.status.terminal()
    }
}

impl BoardState {
    /// A board with no missions and no brawlers.
    pub open spec fn empty() -> BoardState {
        BoardState { missions: Map::empty(), brawlers: Map::empty() }
    }

    /// Whether a mission is on record, deleted or not.
    pub open spec fn knows(self, mission_id: i32) -> bool {
        self.missions.dom().contains(mission_id)
    }

    /// Whether a mission exists for the purposes of the board: it is on
    /// record and not deleted.
    pub open spec fn has(self, mission_id: i32) -> bool {
        self.knows(mission_id) && !self.missions[mission_id].deleted
    }

    /// The crew of a mission; empty for a mission that is not on record.
    pub open spec fn crew(self, mission_id: i32) -> Seq<i32> {
        if self.knows(mission_id) {
            self.missions[mission_id].crew
        } else {
            Seq::empty()
        }
    }

    /// The size of the crew of a mission; zero for a mission that is not
    /// on record.
    pub open spec fn crew_count(self, mission_id: i32) -> int {
        self.crew(mission_id).len() as int
    }

    /// The chat of a mission; empty for a mission that is not on record.
    pub open spec fn chat(self, mission_id: i32) -> Seq<ChatState> {
        if self.knows(mission_id) {
            self.missions[mission_id].chat
        } else {
            Seq::empty()
        }
    }

    /// A brawler's display name; empty for a brawler the board does not know.
    pub open spec fn display_name(self, brawler_id: i32) -> Seq<char> {
        if self.brawlers.dom().contains(brawler_id) {
            self.brawlers[brawler_id].display_name
        } else {
            Seq::empty()
        }
    }

    /// A brawler's picture; empty for a brawler the board does not know.
    pub open spec fn avatar_url(self, brawler_id: i32) -> Seq<char> {
        if self.brawlers.dom().contains(brawler_id) {
            self.brawlers[brawler_id].avatar_url
        } else {
            Seq::empty()
        }
    }

    /// The same board with one mission put in place of what was there.
    pub open spec fn with_mission(self, mission_id: i32, mission: MissionState) -> BoardState {
        BoardState { missions: self.missions.insert(mission_id, mission), ..self }
    }

    // ----- reading -----

    /// A mission as a reader sees it.
    pub open spec fn model(self, mission_id: i32) -> MissionModelView {
        let mission = self.missions[mission_id];
        MissionModelView {
            id: mission_id,
            name: mission.name,
            description: mission.description,
            status: mission.status,
            chief_id: mission.chief_id,
            chief_display_name: self.display_name(mission.chief_id),
            crew_count: mission.crew.len() as i64,
            created_at: mission.created_at,
            updated_at: mission.updated_at,
            category: mission.category,
        }
    }

    /// The missions on whose crew a brawler is.
    pub open spec fn crewed_by(self, brawler_id: i32) -> Set<i32> {
        Set::new(|id: i32| self.knows(id) && self.missions[id].crew.contains(brawler_id))
    }

    /// The completed missions on whose crew a brawler is.
    pub open spec fn completed_by(self, brawler_id: i32) -> Set<i32> {
        Set::new(
            |id: i32|
                self.knows(id) && self.missions[id].crew.contains(brawler_id)
                    && self.missions[id].status == MissionStatuses::Completed,
        )
    }

    /// A brawler's line on a roster.
    pub open spec fn card(self, brawler_id: i32) -> BrawlerModelView {
        BrawlerModelView {
            display_name: self.display_name(brawler_id),
            avatar_url: self.avatar_url(brawler_id),
            mission_success_count: self.completed_by(brawler_id).len() as i64,
            mission_joined_count: self.crewed_by(brawler_id).len() as i64,
        }
    }

    /// The roster of a mission, in the order of joining.
    pub open spec fn roster(self, mission_id: i32) -> Seq<BrawlerModelView> {
        self.crew(mission_id).map_values(|brawler_id: i32| self.card(brawler_id))
    }

    /// One message of a mission's chat as a reader sees it.
    pub open spec fn chat_model(self, mission_id: i32, chat: ChatState) -> MissionChatModelView {
        MissionChatModelView {
            id: chat.id,
            mission_id,
            brawler_id: chat.brawler_id,
            brawler_name: self.display_name(chat.brawler_id),
            message: chat.message,
            created_at: chat.created_at,
        }
    }

    /// The chat of a mission as a reader sees it, oldest message first.
    pub open spec fn chat_models(self, mission_id: i32) -> Seq<MissionChatModelView> {
        self.chat(mission_id).map_values(|chat: ChatState| self.chat_model(mission_id, chat))
    }

    /// Whether `ids` is the list that a filter asks for: each mission that
    /// exists and meets the filter once, no other, in an order in which
    /// every mission may stand before those that follow it.
    pub open spec fn is_listing(self, filter: MissionFilterView, ids: Seq<i32>) -> bool {
        &&& ids.no_duplicates()
        &&& forall|id: i32| #[trigger]
            ids.contains(id) <==> self.has(id) && admits(filter, self.missions[id])
        &&& forall|i: int, j: int|
            0 <= i < j < ids.len() ==> ranks_before(
                self.missions[#[trigger] ids[i]],
                self.missions[#[trigger] ids[j]],
            )
    }

    /// The missions of a list as a reader sees them.
    pub open spec fn models(self, ids: Seq<i32>) -> Seq<MissionModelView> {
        ids.map_values(|id: i32| self.model(id))
    }

    // ----- the crew store -----

    /// What the store answers to putting a brawler on a crew: the mission
    /// must exist; its chief is let on only where the check is bypassed;
    /// and nobody is put on a roster twice.
    pub open spec fn enlist_outcome(
        self,
        membership: CrewMembershipEntity,
        bypass_chief_check: bool,
    ) -> Result<(), MissionError> {
        if !self.has(membership.mission_id) {
            Err(MissionError::NotFound)
        } else if !bypass_chief_check && self.missions[membership.mission_id].chief_id
            == membership.brawler_id {
            Err(MissionError::Forbidden)
        } else if self.crew(membership.mission_id).contains(membership.brawler_id) {
            Err(MissionError::AlreadyMember)
        } else {
            Ok(())
        }
    }

    /// The board once a brawler is on a crew.
    pub open spec fn enlisted(self, membership: CrewMembershipEntity) -> BoardState {
        let mission = self.missions[membership.mission_id];
        self.with_mission(
            membership.mission_id,
            MissionState { crew: mission.crew.push(membership.brawler_id), ..mission },
        )
    }

    /// What the store answers to taking a brawler off a crew: the mission
    /// must exist and the brawler must be on its roster.
    pub open spec fn discharge_outcome(self, membership: CrewMembershipEntity) -> Result<
        (),
        MissionError,
    > {
        if !self.has(membership.mission_id) {
            Err(MissionError::NotFound)
        } else if !self.crew(membership.mission_id).contains(membership.brawler_id) {
            Err(MissionError::NotMember)
        } else {
            Ok(())
        }
    }

    /// The board once a brawler is off a crew.
    pub open spec fn discharged(self, membership: CrewMembershipEntity) -> BoardState {
        let mission = self.missions[membership.mission_id];
        self.with_mission(
            membership.mission_id,
            MissionState { crew: without(mission.crew, membership.brawler_id), ..mission },
        )
    }

    // ----- the crew coordinator -----

    /// What joining a mission answers: the mission must exist; the request
    /// must pass [`join_ruling`]; and the brawler must not be on the roster
    /// yet.
    pub open spec fn join_outcome(
        self,
        policy: MissionPolicy,
        membership: CrewMembershipEntity,
        bypass_chief_check: bool,
    ) -> Result<(), MissionError> {
        if !self.has(membership.mission_id) {
            Err(MissionError::NotFound)
        } else {
            match join_ruling(
                policy,
                self.missions[membership.mission_id].chief_id,
                self.missions[membership.mission_id].status,
                self.crew_count(membership.mission_id),
                membership.brawler_id,
                bypass_chief_check,
            ) {
                Err(e) => Err(e),
                Ok(_) => self.enlist_outcome(membership, bypass_chief_check),
            }
        }
    }

    /// What leaving a mission answers: the mission must exist; the request
    /// must pass [`leave_ruling`]; and the brawler must be on the roster. A
    /// membership that is not there is not found, as a mission that is not
    /// there is.
    pub open spec fn leave_outcome(self, membership: CrewMembershipEntity) -> Result<
        (),
        MissionError,
    > {
        if !self.has(membership.mission_id) {
            Err(MissionError::NotFound)
        } else {
            match leave_ruling(self.missions[membership.mission_id].status) {
                Err(e) => Err(e),
                Ok(_) => absent_as_not_found(self.discharge_outcome(membership)),
            }
        }
    }

    // ----- the mission store: status -----

    /// What the store answers to a change of status: the mission must exist,
    /// the caller must be its chief, and the lifecycle must have the edge.
    pub open spec fn restatus_outcome(self, mission_id: i32, chief_id: i32, next: MissionStatuses)
        -> Result<i32, MissionError> {
        if !self.has(mission_id) {
            Err(MissionError::NotFound)
        } else if self.missions[mission_id].chief_id != chief_id {
            Err(MissionError::Forbidden)
        } else if !self.missions[mission_id].status.allows(next) {
            Err(MissionError::InvalidTransition)
        } else {
            Ok(mission_id)
        }
    }

    /// The board once a mission has a new status, stamped with the time `at`.
    pub open spec fn restatused(self, mission_id: i32, next: MissionStatuses, at: i64)
        -> BoardState {
        let mission = self.missions[mission_id];
        self.with_mission(mission_id, MissionState { status: next, updated_at: at, ..mission })
    }

    // ----- the lifecycle coordinator -----

    /// What a transition answers: the mission must exist, and the request
    /// must pass [`transition_ruling`].
    pub open spec fn transition_outcome(
        self,
        policy: MissionPolicy,
        mission_id: i32,
        chief_id: i32,
        next: MissionStatuses,
    ) -> Result<i32, MissionError> {
        if !self.has(mission_id) {
            Err(MissionError::NotFound)
        } else {
            match transition_ruling(
                policy,
                self.missions[mission_id].chief_id,
                self.missions[mission_id].status,
                self.crew_count(mission_id),
                chief_id,
                next,
            ) {
                Err(e) => Err(e),
                Ok(_) => Ok(mission_id),
            }
        }
    }

    // ----- the mission store: posting, editing, removing -----

    /// The mission that a posting record describes, stamped with the time
    /// `at`: no crew yet, and an empty chat.
    pub open spec fn fresh(entity: AddMissionEntity, at: i64) -> MissionState {
        MissionState {
            chief_id: entity.chief_id,
            name: entity.name@,
            description: optional_text(entity.description),
            status: entity.status,
            category: entity.category@,
            created_at: at,
            updated_at: at,
            deleted: false,
            crew: Seq::empty(),
            chat: Seq::empty(),
        }
    }

    /// What the store answers to an edit: the mission must exist and the
    /// caller must be its chief.
    pub open spec fn owner_outcome(self, mission_id: i32, chief_id: i32) -> Result<
        i32,
        MissionError,
    > {
        if !self.has(mission_id) {
            Err(MissionError::NotFound)
        } else if self.missions[mission_id].chief_id != chief_id {
            Err(MissionError::Forbidden)
        } else {
            Ok(mission_id)
        }
    }

    /// What the store answers to a removal; see [`BoardState::owner_outcome`].
    pub open spec fn retire_outcome(self, mission_id: i32, chief_id: i32) -> Result<
        (),
        MissionError,
    > {
        match self.owner_outcome(mission_id, chief_id) {
            Ok(_) => Ok(()),
            Err(e) => Err(e),
        }
    }

    /// The board once a mission is edited, stamped with the time `at`.
    pub open spec fn revised(
        self,
        mission_id: i32,
        name: Option<Seq<char>>,
        description: Option<Seq<char>>,
        category: Option<Seq<char>>,
        at: i64,
    ) -> BoardState {
        let mission = self.missions[mission_id];
        self.with_mission(
            mission_id,
            MissionState {
                name: match name {
                    Some(n) => n,
                    None => mission.name,
                },
                description: match description {
                    Some(d) => Some(d),
                    None => mission.description,
                },
                category: match category {
                    Some(c) => c,
                    None => mission.category,
                },
                updated_at: at,
                ..mission
            },
        )
    }

    /// The board once a mission is removed, stamped with the time `at`.
    pub open spec fn retired(self, mission_id: i32, at: i64) -> BoardState {
        let mission = self.missions[mission_id];
        self.with_mission(mission_id, MissionState { deleted: true, updated_at: at, ..mission })
    }

    // ----- mission management -----

    /// Whether the policy locks a mission against edits and removal; see
    /// [`change_ruling`]. Only a mission that exists can be locked.
    pub open spec fn locked(self, policy: MissionPolicy, mission_id: i32) -> bool {
        self.has(mission_id) && change_ruling(policy, self.crew_count(mission_id)) is Err
    }

    /// What editing a mission answers: the new name, if there is one, must
    /// be acceptable; the mission must exist; the policy must not lock it;
    /// and the caller must be its chief.
    pub open spec fn edit_outcome(
        self,
        policy: MissionPolicy,
        mission_id: i32,
        chief_id: i32,
        name: Option<Seq<char>>,
    ) -> Result<i32, MissionError> {
        match edited_name(name) {
            Err(e) => Err(e),
            Ok(_) => if self.locked(policy, mission_id) {
                Err(MissionError::InvalidState)
            } else {
                self.owner_outcome(mission_id, chief_id)
            },
        }
    }

    /// What removing a mission answers: the mission must exist; the policy
    /// must not lock it; and the caller must be its chief.
    pub open spec fn remove_outcome(self, policy: MissionPolicy, mission_id: i32, chief_id: i32)
        -> Result<(), MissionError> {
        if self.locked(policy, mission_id) {
            Err(MissionError::InvalidState)
        } else {
            self.retire_outcome(mission_id, chief_id)
        }
    }

    // ----- the chat store -----

    /// The board once a mission's chat is emptied. A mission that is not on
    /// record has no chat to empty.
    pub open spec fn purged(self, mission_id: i32) -> BoardState {
        if self.knows(mission_id) {
            let mission = self.missions[mission_id];
            self.with_mission(mission_id, MissionState { chat: Seq::empty(), ..mission })
        } else {
            self
        }
    }

    /// What the store answers to a new message: the mission must exist,
    /// and the board must know the brawler.
    pub open spec fn say_outcome(self, mission_id: i32, brawler_id: i32) -> Result<
        (),
        MissionError,
    > {
        if !self.has(mission_id) || !self.brawlers.dom().contains(brawler_id) {
            Err(MissionError::NotFound)
        } else {
            Ok(())
        }
    }

    /// The board once a message is added to a mission's chat.
    pub open spec fn said(self, mission_id: i32, chat: ChatState) -> BoardState {
        let mission = self.missions[mission_id];
        self.with_mission(mission_id, MissionState { chat: mission.chat.push(chat), ..mission })
    }

    // ----- what holds of a board -----

    /// No roster is larger than the policy allows.
    pub open spec fn within_capacity(self, policy: MissionPolicy) -> bool {
        forall|id: i32| #[trigger]
            self.knows(id) ==> self.missions[id].crew.len() <= policy.max_crew_per_mission
    }

    /// Whether two boards have the same missions on record, each with the
    /// same roster.
    pub open spec fn same_rosters(self, other: BoardState) -> bool {
        forall|id: i32|
            #![trigger self.knows(id)]
            #![trigger other.knows(id)]
            self.knows(id) == other.knows(id) && self.crew(id) == other.crew(id)
    }

    /// No brawler is on a roster twice.
    pub open spec fn memberships_unique(self) -> bool {
        forall|id: i32| #[trigger] self.knows(id) ==> self.missions[id].crew.no_duplicates()
    }
}

} // verus!
