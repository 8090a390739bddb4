//! What holds of the board whatever is asked of the coordinators.
//!
//! Each law is proved from what the coordinators guarantee, and so holds of
//! every store behind them.

use crate::application::use_cases::crew_operation::{
    join_guarantee,
    leave_guarantee,
    CrewOperationUseCase,
};
use crate::application::use_cases::mission_management::{
    edit_guarantee,
    opened,
    post_guarantee,
    posted,
    remove_guarantee,
    MissionManagementUseCase,
};
use crate::application::use_cases::mission_operation::{
    transition_guarantee,
    MissionOperationUseCase,
};
use crate::domain::board::{without_takes_one_off, BoardState, ChatState, MissionState};
use crate::domain::entities::crew_memberships::CrewMembershipEntity;
use crate::domain::entities::missions::AddMissionEntity;
use crate::domain::repositories::crew_operation::CrewOperationRepository;
use crate::domain::repositories::mission_chat::MissionChatRepository;
use crate::domain::repositories::mission_management::MissionManagementRepository;
use crate::domain::repositories::mission_operation::MissionOperationRepository;
use crate::domain::repositories::mission_viewing::MissionViewingRepository;
use crate::domain::value_objects::mission_error::MissionError;
use crate::domain::value_objects::mission_model::{AddMissionModel, EditMissionModel};
use crate::domain::value_objects::mission_policy::MissionPolicy;
use crate::domain::value_objects::mission_statuses::MissionStatuses;
use vstd::prelude::*;

verus! {

/// A mission changes its status only along an edge of the lifecycle: a
/// transition that succeeds went from a status that allows the new one, and
/// left every other mission as it was.
pub proof fn transitions_follow_the_lifecycle<T>(
    before: &MissionOperationUseCase<T>,
    after: &MissionOperationUseCase<T>,
    r: Result<i32, MissionError>,
    mission_id: i32,
    caller_id: i32,
    next: MissionStatuses,
) where T: MissionOperationRepository + MissionViewingRepository + MissionChatRepository
    requires
        transition_guarantee(before, after, r, mission_id, caller_id, next),
        r is Ok,
    ensures
        before.repository.board().has(mission_id),
        before.repository.board().missions[mission_id].status.allows(next),
        after.repository.board().missions[mission_id].status == next,
        forall|other: i32|
            other != mission_id ==> (after.repository.board().knows(other)
                == before.repository.board().knows(other) && after.repository.board().missions[other]
                == before.repository.board().missions[other]),
{
}

/// A transition for which the lifecycle has no edge is refused as an
/// invalid transition when the chief asks for it, and the board stays as it
/// is.
pub proof fn other_transitions_are_refused<T>(
    before: &MissionOperationUseCase<T>,
    after: &MissionOperationUseCase<T>,
    r: Result<i32, MissionError>,
    mission_id: i32,
    caller_id: i32,
    next: MissionStatuses,
) where T: MissionOperationRepository + MissionViewingRepository + MissionChatRepository
    requires
        transition_guarantee(before, after, r, mission_id, caller_id, next),
        before.repository.board().has(mission_id),
        before.repository.board().missions[mission_id].chief_id == caller_id,
        !before.repository.board().missions[mission_id].status.allows(next),
    ensures
        r == Err::<i32, MissionError>(MissionError::InvalidTransition) || r == Err::<
            i32,
            MissionError,
        >(MissionError::Unavailable),
        before.repository.spare() > 0 ==> r == Err::<i32, MissionError>(
            MissionError::InvalidTransition,
        ),
        after.repository.board() == before.repository.board(),
        after.broadcaster.published() == before.broadcaster.published(),
{
}

/// Only the chief moves a mission: a transition that anyone else asks for is
/// refused as forbidden, whatever the status, and the board stays as it is.
pub proof fn only_the_chief_moves_a_mission<T>(
    before: &MissionOperationUseCase<T>,
    after: &MissionOperationUseCase<T>,
    r: Result<i32, MissionError>,
    mission_id: i32,
    caller_id: i32,
    next: MissionStatuses,
) where T: MissionOperationRepository + MissionViewingRepository + MissionChatRepository
    requires
        transition_guarantee(before, after, r, mission_id, caller_id, next),
        before.repository.board().has(mission_id),
        before.repository.board().missions[mission_id].chief_id != caller_id,
    ensures
        r == Err::<i32, MissionError>(MissionError::Forbidden) || r == Err::<i32, MissionError>(
            MissionError::Unavailable,
        ),
        before.repository.spare() > 0 ==> r == Err::<i32, MissionError>(MissionError::Forbidden),
        after.repository.board() == before.repository.board(),
        after.broadcaster.published() == before.broadcaster.published(),
{
}

/// A chief never gets on the crew of their own mission by joining without
/// the bypass: the request is refused as forbidden, and the board stays as
/// it is.
pub proof fn chief_cannot_join_own_mission<T>(
    before: &CrewOperationUseCase<T>,
    after: &CrewOperationUseCase<T>,
    r: Result<(), MissionError>,
    mission_id: i32,
    brawler_id: i32,
) where T: CrewOperationRepository + MissionViewingRepository
    requires
        join_guarantee(before, after, r, mission_id, brawler_id, false),
        before.repository.board().has(mission_id),
        before.repository.board().missions[mission_id].chief_id == brawler_id,
    ensures
        r == Err::<(), MissionError>(MissionError::Forbidden) || r == Err::<(), MissionError>(
            MissionError::Unavailable,
        ),
        before.repository.spare() > 0 ==> r == Err::<(), MissionError>(MissionError::Forbidden),
        after.repository.board() == before.repository.board(),
        after.broadcaster.published() == before.broadcaster.published(),
{
}

/// The roster of a mission that is under way or completed is frozen: nobody
/// joins and nobody leaves, the request is refused as an invalid state, and
/// the board stays as it is. (A chief who asks to join without the bypass is
/// refused as forbidden before the status is looked at.)
pub proof fn frozen_rosters_stay<T>(
    before: &CrewOperationUseCase<T>,
    after_join: &CrewOperationUseCase<T>,
    after_leave: &CrewOperationUseCase<T>,
    joined: Result<(), MissionError>,
    left: Result<(), MissionError>,
    mission_id: i32,
    brawler_id: i32,
    allow_bypass: bool,
) where T: CrewOperationRepository + MissionViewingRepository
    requires
        join_guarantee(before, after_join, joined, mission_id, brawler_id, allow_bypass),
        leave_guarantee(before, after_leave, left, mission_id, brawler_id),
        before.repository.board().has(mission_id),
        !before.repository.board().missions[mission_id].status.recruitable(),
    ensures
        before.repository.board().missions[mission_id].status == MissionStatuses::InProgress
            || before.repository.board().missions[mission_id].status == MissionStatuses::Completed,
        left == Err::<(), MissionError>(MissionError::InvalidState) || left == Err::<
            (),
            MissionError,
        >(MissionError::Unavailable),
        before.repository.spare() > 0 ==> left == Err::<(), MissionError>(
            MissionError::InvalidState,
        ),
        after_leave.repository.board() == before.repository.board(),
        joined is Err,
        before.repository.spare() > 0 && (allow_bypass
            || before.repository.board().missions[mission_id].chief_id != brawler_id) ==> joined
            == Err::<(), MissionError>(MissionError::InvalidState),
        after_join.repository.board() == before.repository.board(),
{
}

/// No roster ever grows beyond the capacity through the crew coordinator: a
/// board on which every roster is within the capacity is such a board again
/// after any request to join or to leave, granted or not.
pub proof fn crew_requests_keep_rosters_within_capacity<T>(
    before: &CrewOperationUseCase<T>,
    after_join: &CrewOperationUseCase<T>,
    after_leave: &CrewOperationUseCase<T>,
    joined: Result<(), MissionError>,
    left: Result<(), MissionError>,
    mission_id: i32,
    brawler_id: i32,
    allow_bypass: bool,
) where T: CrewOperationRepository + MissionViewingRepository
    requires
        join_guarantee(before, after_join, joined, mission_id, brawler_id, allow_bypass),
        leave_guarantee(before, after_leave, left, mission_id, brawler_id),
        before.repository.board().within_capacity(before.policy),
    ensures
        after_join.repository.board().within_capacity(after_join.policy),
        after_leave.repository.board().within_capacity(after_leave.policy),
        joined is Ok ==> after_join.repository.board().crew_count(mission_id)
            == before.repository.board().crew_count(mission_id) + 1,
{
    let board = before.repository.board();
    let membership = CrewMembershipEntity { mission_id, brawler_id };
    if joined is Ok {
        let then = after_join.repository.board();
        assert forall|id: i32| #[trigger] then.knows(id) implies then.missions[id].crew.len()
            <= before.policy.max_crew_per_mission by {
            assert(board.knows(id));
        }
    }
    if left is Ok {
        let then = after_leave.repository.board();
        without_takes_one_off(board.missions[mission_id].crew, brawler_id);
        assert forall|id: i32| #[trigger] then.knows(id) implies then.missions[id].crew.len()
            <= before.policy.max_crew_per_mission by {
            assert(board.knows(id));
        }
    }
}

/// Moving a mission through its lifecycle leaves every roster as it is, and
/// so within the capacity.
pub proof fn transitions_keep_rosters<T>(
    before: &MissionOperationUseCase<T>,
    after: &MissionOperationUseCase<T>,
    r: Result<i32, MissionError>,
    mission_id: i32,
    caller_id: i32,
    next: MissionStatuses,
) where T: MissionOperationRepository + MissionViewingRepository + MissionChatRepository
    requires
        transition_guarantee(before, after, r, mission_id, caller_id, next),
    ensures
        forall|id: i32| after.repository.board().crew(id) == before.repository.board().crew(id),
        before.repository.board().within_capacity(before.policy)
            ==> after.repository.board().within_capacity(after.policy),
        before.repository.board().memberships_unique()
            ==> after.repository.board().memberships_unique(),
{
    let board = before.repository.board();
    let then = after.repository.board();
    assert forall|id: i32| then.crew(id) == board.crew(id) && then.knows(id) == board.knows(id) by {
    }
    if board.within_capacity(before.policy) {
        assert forall|id: i32| #[trigger] then.knows(id) implies then.missions[id].crew.len()
            <= before.policy.max_crew_per_mission by {
            assert(board.knows(id));
            assert(then.crew(id) == board.crew(id));
        }
    }
    if board.memberships_unique() {
        assert forall|id: i32| #[trigger]
            then.knows(id) implies then.missions[id].crew.no_duplicates() by {
            assert(board.knows(id));
            assert(then.crew(id) == board.crew(id));
        }
    }
}

/// Posting a mission puts its chief, and nobody else, on the new roster;
/// where the capacity is at least one, every roster stays within it.
pub proof fn posting_keeps_rosters_within_capacity(
    board: BoardState,
    policy: MissionPolicy,
    mission_id: i32,
    entity: AddMissionEntity,
    at: i64,
)
    requires
        !board.knows(mission_id),
        board.within_capacity(policy),
        policy.max_crew_per_mission >= 1,
    ensures
        posted(board, mission_id, entity, at).crew(mission_id) == seq![entity.chief_id],
        posted(board, mission_id, entity, at).within_capacity(policy),
        opened(board, mission_id, entity, at).within_capacity(policy),
{
    let then = posted(board, mission_id, entity, at);
    assert(then.crew(mission_id) =~= seq![entity.chief_id]);
    assert forall|id: i32| #[trigger] then.knows(id) implies then.missions[id].crew.len()
        <= policy.max_crew_per_mission by {
        if id != mission_id {
            assert(board.knows(id));
        }
    }
    let bare = opened(board, mission_id, entity, at);
    assert forall|id: i32| #[trigger] bare.knows(id) implies bare.missions[id].crew.len()
        <= policy.max_crew_per_mission by {
        if id != mission_id {
            assert(board.knows(id));
        }
    }
}

/// Editing and removing a mission, and everything that happens in a chat,
/// leave every roster as it is; and boards with the same rosters are within
/// the capacity together, and have unique memberships together.
pub proof fn other_changes_keep_rosters(
    board: BoardState,
    policy: MissionPolicy,
    mission_id: i32,
    name: Option<Seq<char>>,
    description: Option<Seq<char>>,
    category: Option<Seq<char>>,
    chat: ChatState,
    at: i64,
    other: BoardState,
)
    requires
        board.knows(mission_id),
    ensures
        board.revised(mission_id, name, description, category, at).same_rosters(board),
        board.retired(mission_id, at).same_rosters(board),
        board.retired(mission_id, at).purged(mission_id).same_rosters(board),
        board.purged(mission_id).same_rosters(board),
        board.said(mission_id, chat).same_rosters(board),
        other.same_rosters(board) ==> (other.within_capacity(policy) <==> board.within_capacity(
            policy,
        )),
        other.same_rosters(board) ==> (other.memberships_unique() <==> board.memberships_unique()),
{
    if other.same_rosters(board) {
        assert forall|id: i32| #[trigger] other.knows(id) implies other.missions[id].crew
            == board.missions[id].crew by {
            assert(board.knows(id));
            assert(other.crew(id) == board.crew(id));
        }
        assert forall|id: i32| #[trigger] board.knows(id) implies other.missions[id].crew
            == board.missions[id].crew by {
            assert(other.knows(id));
            assert(other.crew(id) == board.crew(id));
        }
    }
}

/// The board after the brawlers of `askers` asked to join a mission, one
/// after another in the order of the list, each without the bypass: who is
/// let on is on the crew, and who is refused leaves no trace.
pub open spec fn after_joins(
    board: BoardState,
    policy: MissionPolicy,
    mission_id: i32,
    askers: Seq<i32>,
) -> BoardState
    decreases askers.len(),
{
    if askers.len() == 0 {
        board
    } else {
        let before = after_joins(board, policy, mission_id, askers.drop_last());
        let membership = CrewMembershipEntity { mission_id, brawler_id: askers.last() };
        if before.join_outcome(policy, membership, false) is Ok {
            before.enlisted(membership)
        } else {
            before
        }
    }
}

/// What the brawler at place `i` of `askers` is answered, after those
/// before have been.
pub open spec fn answer_in_turn(
    board: BoardState,
    policy: MissionPolicy,
    mission_id: i32,
    askers: Seq<i32>,
    i: int,
) -> Result<(), MissionError> {
    after_joins(board, policy, mission_id, askers.take(i)).join_outcome(
        policy,
        CrewMembershipEntity { mission_id, brawler_id: askers[i] },
        false,
    )
}

/// How many places a roster has left.
pub open spec fn places_left(board: BoardState, policy: MissionPolicy, mission_id: i32) -> int {
    if policy.max_crew_per_mission > board.crew_count(mission_id) {
        policy.max_crew_per_mission - board.crew_count(mission_id)
    } else {
        0
    }
}

/// The board with `joined` added to the end of one roster.
pub open spec fn with_crew_added(board: BoardState, mission_id: i32, joined: Seq<i32>)
    -> BoardState {
    let mission = board.missions[mission_id];
    board.with_mission(mission_id, MissionState { crew: mission.crew + joined, ..mission })
}

/// The first `n` of `askers`, or all of them where they are fewer.
pub open spec fn first(askers: Seq<i32>, n: int) -> Seq<i32> {
    if n < askers.len() {
        askers.take(n)
    } else {
        askers
    }
}

proof fn joins_in_turn(
    board: BoardState,
    policy: MissionPolicy,
    mission_id: i32,
    askers: Seq<i32>,
    served: int,
)
    requires
        board.has(mission_id),
        board.missions[mission_id].status.recruitable(),
        askers.no_duplicates(),
        forall|i: int|
            0 <= i < askers.len() ==> !board.crew(mission_id).contains(#[trigger] askers[i])
                && askers[i] != board.missions[mission_id].chief_id,
        0 <= served <= askers.len(),
    ensures
        after_joins(board, policy, mission_id, askers.take(served)) == with_crew_added(
            board,
            mission_id,
            first(askers.take(served), places_left(board, policy, mission_id)),
        ),
    decreases served,
{
    let room = places_left(board, policy, mission_id);
    let crew = board.missions[mission_id].crew;
    if served == 0 {
        assert(askers.take(0) =~= Seq::<i32>::empty());
        assert(crew + first(askers.take(0), room) =~= crew);
        assert(with_crew_added(board, mission_id, first(askers.take(0), room)).missions
            =~= board.missions);
    } else {
        joins_in_turn(board, policy, mission_id, askers, served - 1);
        let asker = askers[served - 1];
        let earlier = askers.take(served - 1);
        assert(askers.take(served).drop_last() =~= earlier);
        assert(askers.take(served).last() == asker);
        let on_board = first(earlier, room);
        let before = with_crew_added(board, mission_id, on_board);
        let membership = CrewMembershipEntity { mission_id, brawler_id: asker };
        assert(!(crew + on_board).contains(asker)) by {
            if (crew + on_board).contains(asker) {
                let at = choose|at: int| 0 <= at < (crew + on_board).len() && (crew + on_board)[at]
                    == asker;
                if at < crew.len() {
                    assert(crew[at] == asker);
                    assert(crew.contains(askers[served - 1]));
                } else {
                    assert(askers[at - crew.len()] == askers[served - 1]);
                }
            }
        }
        if served - 1 < room {
            assert(on_board =~= earlier);
            assert(before.join_outcome(policy, membership, false) is Ok);
            assert(first(askers.take(served), room) =~= askers.take(served));
            assert((crew + on_board).push(asker) =~= crew + askers.take(served));
            assert(before.enlisted(membership).missions =~= with_crew_added(
                board,
                mission_id,
                askers.take(served),
            ).missions);
        } else {
            assert(on_board =~= askers.take(room));
            assert(first(askers.take(served), room) =~= askers.take(room));
            assert(before.join_outcome(policy, membership, false) == Err::<(), MissionError>(
                MissionError::CapacityExceeded,
            ));
        }
    }
}

/// Of brawlers who ask at once to join a recruitable mission, as many are
/// let on as the roster has places left, and the others are told that the
/// roster is full. The requests are served one after another, in whatever
/// order: `askers` lists the brawlers in the order of service, each of them
/// once, none of them on the crew before and none of them the chief. Those
/// served first are let on, in that order, and nothing else on the board
/// changes; so the roster is as long as the capacity where more asked than
/// it had places, and never longer.
pub proof fn racing_joins_fill_the_roster_and_no_more(
    board: BoardState,
    policy: MissionPolicy,
    mission_id: i32,
    askers: Seq<i32>,
)
    requires
        board.has(mission_id),
        board.missions[mission_id].status.recruitable(),
        askers.no_duplicates(),
        forall|i: int|
            0 <= i < askers.len() ==> !board.crew(mission_id).contains(#[trigger] askers[i])
                && askers[i] != board.missions[mission_id].chief_id,
    ensures
        forall|i: int|
            0 <= i < askers.len() ==> #[trigger] answer_in_turn(
                board,
                policy,
                mission_id,
                askers,
                i,
            ) == if i < places_left(board, policy, mission_id) {
                Ok::<(), MissionError>(())
            } else {
                Err::<(), MissionError>(MissionError::CapacityExceeded)
            },
        after_joins(board, policy, mission_id, askers) == with_crew_added(
            board,
            mission_id,
            first(askers, places_left(board, policy, mission_id)),
        ),
        askers.len() > places_left(board, policy, mission_id) > 0 ==> after_joins(
            board,
            policy,
            mission_id,
            askers,
        ).crew_count(mission_id) == policy.max_crew_per_mission,
        board.within_capacity(policy) ==> after_joins(
            board,
            policy,
            mission_id,
            askers,
        ).within_capacity(policy),
{
    let room = places_left(board, policy, mission_id);
    let crew = board.missions[mission_id].crew;
    joins_in_turn(board, policy, mission_id, askers, askers.len() as int);
    assert(askers.take(askers.len() as int) =~= askers);
    assert forall|i: int| 0 <= i < askers.len() implies #[trigger] answer_in_turn(
        board,
        policy,
        mission_id,
        askers,
        i,
    ) == if i < room {
        Ok::<(), MissionError>(())
    } else {
        Err::<(), MissionError>(MissionError::CapacityExceeded)
    } by {
        joins_in_turn(board, policy, mission_id, askers, i);
        let on_board = first(askers.take(i), room);
        let asker = askers[i];
        assert(!(crew + on_board).contains(asker)) by {
            if (crew + on_board).contains(asker) {
                let at = choose|at: int| 0 <= at < (crew + on_board).len() && (crew + on_board)[at]
                    == asker;
                if at < crew.len() {
                    assert(crew[at] == asker);
                    assert(crew.contains(askers[i]));
                } else {
                    assert(askers[at - crew.len()] == askers[i]);
                }
            }
        }
        if i < room {
            assert(on_board =~= askers.take(i));
        } else {
            assert(on_board =~= askers.take(room));
        }
    }
    let then = after_joins(board, policy, mission_id, askers);
    if board.within_capacity(policy) {
        assert forall|id: i32| #[trigger] then.knows(id) implies then.missions[id].crew.len()
            <= policy.max_crew_per_mission by {
            assert(board.knows(id));
        }
    }
}

/// Posting puts the chief on the crew of the new mission: with a store
/// that has two changes to spare, the mission that was posted exists, is
/// open, and has its chief as its whole crew. Where the capacity is one or
/// less, that roster is full: whoever else asks to join is told so.
pub proof fn posting_puts_the_chief_on_the_crew<T>(
    before: &MissionManagementUseCase<T>,
    after: &MissionManagementUseCase<T>,
    r: Result<i32, MissionError>,
    chief_id: i32,
    model: AddMissionModel,
    brawler_id: i32,
) where
    T: MissionManagementRepository + MissionChatRepository + CrewOperationRepository
        + MissionViewingRepository,

    requires
        post_guarantee(before, after, r, chief_id, model),
        r is Ok,
        before.repository.spare() >= 2,
    ensures
        after.repository.board().has(r->Ok_0),
        after.repository.board().missions[r->Ok_0].status == MissionStatuses::Open,
        after.repository.board().missions[r->Ok_0].chief_id == chief_id,
        after.repository.board().crew(r->Ok_0) == seq![chief_id],
        after.repository.board().crew_count(r->Ok_0) == 1,
        before.policy.max_crew_per_mission <= 1 && brawler_id != chief_id
            ==> after.repository.board().join_outcome(
            after.policy,
            CrewMembershipEntity { mission_id: r->Ok_0, brawler_id },
            false,
        ) == Err::<(), MissionError>(MissionError::CapacityExceeded),
{
    let mission_id = r->Ok_0;
    let at = after.repository.board().missions[mission_id].created_at;
    let entity = model.entity(chief_id);
    assert(posted(before.repository.board(), mission_id, entity, at).crew(mission_id) =~= seq![
        chief_id,
    ]);
}

/// Ending a mission empties its chat: with a store that has two changes to
/// spare, a mission that was completed or failed has no message left, and
/// every other chat is as it was.
pub proof fn ending_empties_the_chat<T>(
    before: &MissionOperationUseCase<T>,
    after: &MissionOperationUseCase<T>,
    r: Result<i32, MissionError>,
    mission_id: i32,
    caller_id: i32,
    next: MissionStatuses,
) where T: MissionOperationRepository + MissionViewingRepository + MissionChatRepository
    requires
        transition_guarantee(before, after, r, mission_id, caller_id, next),
        next.terminal(),
        r is Ok,
        before.repository.spare() >= 2,
    ensures
        after.repository.board().missions[mission_id].status == next,
        after.repository.board().chat(mission_id) == Seq::<ChatState>::empty(),
        forall|other: i32|
            other != mission_id ==> after.repository.board().chat(other)
                == before.repository.board().chat(other),
{
}

/// No roster grows beyond the capacity through mission management: where
/// the capacity is at least one, a board on which every roster is within the
/// capacity is such a board again after any request to post, to edit or to
/// remove a mission, granted or not. (With a capacity below one, the roster
/// of a new mission, which holds its chief, is beyond it.)
pub proof fn management_keeps_rosters_within_capacity<T>(
    before: &MissionManagementUseCase<T>,
    after_post: &MissionManagementUseCase<T>,
    after_edit: &MissionManagementUseCase<T>,
    after_remove: &MissionManagementUseCase<T>,
    posted_as: Result<i32, MissionError>,
    edited: Result<i32, MissionError>,
    removed: Result<(), MissionError>,
    chief_id: i32,
    mission_id: i32,
    add_model: AddMissionModel,
    edit_model: EditMissionModel,
) where
    T: MissionManagementRepository + MissionChatRepository + CrewOperationRepository
        + MissionViewingRepository,

    requires
        post_guarantee(before, after_post, posted_as, chief_id, add_model),
        edit_guarantee(before, after_edit, edited, mission_id, chief_id, edit_model),
        remove_guarantee(before, after_remove, removed, mission_id, chief_id),
        before.repository.board().within_capacity(before.policy),
        before.policy.max_crew_per_mission >= 1,
    ensures
        after_post.repository.board().within_capacity(after_post.policy),
        after_edit.repository.board().within_capacity(after_edit.policy),
        after_remove.repository.board().within_capacity(after_remove.policy),
{
    let board = before.repository.board();
    let policy = before.policy;
    if let Ok(new_id) = posted_as {
        let at = after_post.repository.board().missions[new_id].created_at;
        posting_keeps_rosters_within_capacity(board, policy, new_id, add_model.entity(chief_id), at);
    }
    if edited is Ok {
        let then = after_edit.repository.board();
        assert forall|id: i32| #[trigger] then.knows(id) implies then.missions[id].crew.len()
            <= policy.max_crew_per_mission by {
            assert(board.knows(id));
        }
    }
    if removed is Ok {
        let then = after_remove.repository.board();
        assert forall|id: i32| #[trigger] then.knows(id) implies then.missions[id].crew.len()
            <= policy.max_crew_per_mission by {
            assert(board.knows(id));
        }
    }
}

/// A brawler holds at most one membership of a mission: a board on which no
/// roster names a brawler twice is such a board again after any request to
/// join or to leave.
pub proof fn memberships_stay_unique<T>(
    before: &CrewOperationUseCase<T>,
    after_join: &CrewOperationUseCase<T>,
    after_leave: &CrewOperationUseCase<T>,
    joined: Result<(), MissionError>,
    left: Result<(), MissionError>,
    mission_id: i32,
    brawler_id: i32,
    allow_bypass: bool,
) where T: CrewOperationRepository + MissionViewingRepository
    requires
        join_guarantee(before, after_join, joined, mission_id, brawler_id, allow_bypass),
        leave_guarantee(before, after_leave, left, mission_id, brawler_id),
        before.repository.board().memberships_unique(),
    ensures
        after_join.repository.board().memberships_unique(),
        after_leave.repository.board().memberships_unique(),
        left is Ok ==> !after_leave.repository.board().crew(mission_id).contains(brawler_id),
{
    let board = before.repository.board();
    if joined is Ok {
        let then = after_join.repository.board();
        assert forall|id: i32| #[trigger]
            then.knows(id) implies then.missions[id].crew.no_duplicates() by {
            assert(board.knows(id));
            if id == mission_id {
                let crew = board.missions[id].crew;
                let longer = crew.push(brawler_id);
                assert(!crew.contains(brawler_id));
                assert forall|a: int, b: int| 0 <= a < longer.len() && 0 <= b < longer.len() && a
                    != b implies longer[a] != longer[b] by {
                    if a < crew.len() && b < crew.len() {
                        assert(crew[a] != crew[b]);
                    } else if a < crew.len() {
                        assert(crew.contains(crew[a]));
                    } else {
                        assert(crew.contains(crew[b]));
                    }
                }
            }
        }
    }
    if left is Ok {
        let then = after_leave.repository.board();
        without_takes_one_off(board.missions[mission_id].crew, brawler_id);
        assert forall|id: i32| #[trigger]
            then.knows(id) implies then.missions[id].crew.no_duplicates() by {
            assert(board.knows(id));
        }
    }
}

} // verus!
