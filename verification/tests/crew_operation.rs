use mission_board::application::use_cases::crew_operation::CrewOperationUseCase;
use mission_board::application::use_cases::mission_management::MissionManagementUseCase;
use mission_board::application::use_cases::mission_operation::MissionOperationUseCase;
use mission_board::domain::entities::crew_memberships::CrewMembershipEntity;
use mission_board::domain::repositories::crew_operation::CrewOperationRepository;
use mission_board::domain::repositories::mission_viewing::MissionViewingRepository;
use mission_board::domain::rules::leave_answer;
use mission_board::domain::value_objects::mission_error::MissionError;
use mission_board::domain::value_objects::mission_model::AddMissionModel;
use mission_board::domain::value_objects::mission_policy::MissionPolicy;
use mission_board::domain::value_objects::mission_statuses::MissionStatuses;
use mission_board::infrastructure::memory::store::MemoryStore;
use mission_board::infrastructure::notifications::broadcaster::GlobalBroadcaster;
use mission_board::infrastructure::notifications::event::Event;

const CHIEF: i32 = 1;

fn board_with_mission(policy: MissionPolicy) -> (MemoryStore, i32) {
    let mut management = MissionManagementUseCase::new(MemoryStore::new(), policy);
    let mission_id = management
        .add(
            CHIEF,
            AddMissionModel {
                name: "Dragon hunt".to_string(),
                description: Some("Bring a shield".to_string()),
                category: "hunt".to_string(),
            },
        )
        .unwrap();
    (management.repository, mission_id)
}

#[test]
fn posting_puts_the_chief_on_the_crew() {
    let (store, mission_id) = board_with_mission(MissionPolicy::new(5));
    assert_eq!(mission_id, 1);
    assert_eq!(store.crew_counting(mission_id), Ok(1));
    let mission = store.get_one(mission_id).unwrap();
    assert_eq!(mission.status, MissionStatuses::Open);
    assert_eq!(mission.chief_id, CHIEF);
    assert_eq!(mission.crew_count, 1);
}

#[test]
fn brawler_joins_and_event_goes_out() {
    let policy = MissionPolicy::new(5);
    let (store, mission_id) = board_with_mission(policy);
    let bus = GlobalBroadcaster::new();
    let mut feed = bus.subscribe();
    let mut crew = CrewOperationUseCase::new(store, bus.handle(), policy);
    assert_eq!(crew.join(mission_id, 7, false), Ok(()));
    assert_eq!(crew.repository.crew_counting(mission_id), Ok(2));
    assert_eq!(
        feed.try_recv().unwrap(),
        Event::CrewMovement {
            mission_id,
            message: "New brawler joined mission \"Dragon hunt\"".to_string(),
        }
    );
    assert!(feed.try_recv().is_err());
}

#[test]
fn brawler_leaves_and_event_goes_out() {
    let policy = MissionPolicy::new(5);
    let (store, mission_id) = board_with_mission(policy);
    let bus = GlobalBroadcaster::new();
    let mut crew = CrewOperationUseCase::new(store, bus.handle(), policy);
    crew.join(mission_id, 7, false).unwrap();
    let mut feed = bus.subscribe();
    assert_eq!(crew.leave(mission_id, 7), Ok(()));
    assert_eq!(crew.repository.crew_counting(mission_id), Ok(1));
    assert_eq!(
        feed.try_recv().unwrap(),
        Event::CrewMovement {
            mission_id,
            message: "A brawler left mission \"Dragon hunt\"".to_string(),
        }
    );
}

#[test]
fn joining_a_missing_mission_is_not_found() {
    let policy = MissionPolicy::new(5);
    let mut crew = CrewOperationUseCase::new(MemoryStore::new(), GlobalBroadcaster::new(), policy);
    assert_eq!(crew.join(42, 7, false), Err(MissionError::NotFound));
    assert_eq!(crew.leave(42, 7), Err(MissionError::NotFound));
    assert_eq!(crew.join(0, 7, false), Err(MissionError::NotFound));
    assert_eq!(crew.join(-3, 7, true), Err(MissionError::NotFound));
}

#[test]
fn chief_cannot_join_own_mission_without_bypass() {
    let policy = MissionPolicy::new(5);
    let (mut store, mission_id) = board_with_mission(policy);
    // The chief left the roster, so only the rule stands in the way.
    store
        .leave(CrewMembershipEntity { mission_id, brawler_id: CHIEF })
        .unwrap();
    let bus = GlobalBroadcaster::new();
    let mut feed = bus.subscribe();
    let mut crew = CrewOperationUseCase::new(store, bus.handle(), policy);
    assert_eq!(crew.join(mission_id, CHIEF, false), Err(MissionError::Forbidden));
    assert_eq!(crew.repository.crew_counting(mission_id), Ok(0));
    assert!(feed.try_recv().is_err());
    assert_eq!(crew.join(mission_id, CHIEF, true), Ok(()));
    assert_eq!(crew.repository.crew_counting(mission_id), Ok(1));
}

#[test]
fn joining_twice_is_refused() {
    let policy = MissionPolicy::new(5);
    let (store, mission_id) = board_with_mission(policy);
    let mut crew = CrewOperationUseCase::new(store, GlobalBroadcaster::new(), policy);
    assert_eq!(crew.join(mission_id, 7, false), Ok(()));
    assert_eq!(crew.join(mission_id, 7, false), Err(MissionError::AlreadyMember));
    assert_eq!(crew.repository.crew_counting(mission_id), Ok(2));
}

#[test]
fn leaving_without_membership_is_refused() {
    let policy = MissionPolicy::new(5);
    let (store, mission_id) = board_with_mission(policy);
    let mut crew = CrewOperationUseCase::new(store, GlobalBroadcaster::new(), policy);
    assert_eq!(crew.leave(mission_id, 7), Err(MissionError::NotFound));
    assert_eq!(crew.repository.crew_counting(mission_id), Ok(1));
}

#[test]
fn the_store_itself_answers_not_member() {
    let policy = MissionPolicy::new(5);
    let (mut store, mission_id) = board_with_mission(policy);
    assert_eq!(
        store.leave(CrewMembershipEntity { mission_id, brawler_id: 7 }),
        Err(MissionError::NotMember)
    );
    assert_eq!(leave_answer(Err(MissionError::NotMember)), Err(MissionError::NotFound));
    assert_eq!(leave_answer(Err(MissionError::Unavailable)), Err(MissionError::Unavailable));
    assert_eq!(leave_answer(Err(MissionError::NotFound)), Err(MissionError::NotFound));
    assert_eq!(leave_answer(Ok(())), Ok(()));
}

#[test]
fn joins_in_turn_fill_the_places_that_are_left() {
    // Two on the crew, capacity five: three places for six who ask.
    let policy = MissionPolicy::new(5);
    let (store, mission_id) = board_with_mission(policy);
    let mut crew = CrewOperationUseCase::new(store, GlobalBroadcaster::new(), policy);
    crew.join(mission_id, 50, false).unwrap();
    let answers: Vec<Result<(), MissionError>> =
        (60..66).map(|brawler_id| crew.join(mission_id, brawler_id, false)).collect();
    assert_eq!(
        answers,
        vec![
            Ok(()),
            Ok(()),
            Ok(()),
            Err(MissionError::CapacityExceeded),
            Err(MissionError::CapacityExceeded),
            Err(MissionError::CapacityExceeded),
        ]
    );
    assert_eq!(crew.repository.crew_counting(mission_id), Ok(5));
    // Those served first are on the crew, the others are not.
    assert_eq!(crew.leave(mission_id, 62), Ok(()));
    assert_eq!(crew.leave(mission_id, 63), Err(MissionError::NotFound));
}

#[test]
fn full_roster_refuses_with_capacity_one() {
    let policy = MissionPolicy::new(1);
    let (store, mission_id) = board_with_mission(policy);
    assert_eq!(store.crew_counting(mission_id), Ok(1));
    let mut crew = CrewOperationUseCase::new(store, GlobalBroadcaster::new(), policy);
    assert_eq!(crew.join(mission_id, 7, false), Err(MissionError::CapacityExceeded));
    assert_eq!(crew.repository.crew_counting(mission_id), Ok(1));
}

#[test]
fn many_joins_fill_the_roster_and_no_more() {
    let capacity: i64 = 4;
    let policy = MissionPolicy::new(capacity);
    let (mut store, mission_id) = board_with_mission(policy);
    store
        .leave(CrewMembershipEntity { mission_id, brawler_id: CHIEF })
        .unwrap();
    let mut crew = CrewOperationUseCase::new(store, GlobalBroadcaster::new(), policy);
    let mut granted = 0;
    let mut refused = 0;
    for brawler_id in 10..20 {
        match crew.join(mission_id, brawler_id, false) {
            Ok(()) => granted += 1,
            Err(MissionError::CapacityExceeded) => refused += 1,
            Err(other) => panic!("unexpected {:?}", other),
        }
        assert!(crew.repository.crew_counting(mission_id).unwrap() <= capacity);
    }
    assert_eq!(granted, 4);
    assert_eq!(refused, 6);
    assert_eq!(crew.repository.crew_counting(mission_id), Ok(4));
}

#[test]
fn frozen_roster_refuses_join_and_leave() {
    let policy = MissionPolicy::new(5);
    let (store, mission_id) = board_with_mission(policy);
    let bus = GlobalBroadcaster::new();
    let mut crew = CrewOperationUseCase::new(store, bus.handle(), policy);
    crew.join(mission_id, 7, false).unwrap();
    let mut operation = MissionOperationUseCase::new(crew.repository, bus.handle(), policy);
    operation.in_progress(mission_id, CHIEF).unwrap();
    let mut crew = CrewOperationUseCase::new(operation.repository, bus.handle(), policy);
    assert_eq!(crew.leave(mission_id, 7), Err(MissionError::InvalidState));
    assert_eq!(crew.join(mission_id, 8, false), Err(MissionError::InvalidState));
    assert_eq!(crew.repository.crew_counting(mission_id), Ok(2));
    let mut operation = MissionOperationUseCase::new(crew.repository, bus.handle(), policy);
    operation.to_completed(mission_id, CHIEF).unwrap();
    let mut crew = CrewOperationUseCase::new(operation.repository, bus.handle(), policy);
    assert_eq!(crew.leave(mission_id, 7), Err(MissionError::InvalidState));
    assert_eq!(crew.join(mission_id, 8, false), Err(MissionError::InvalidState));
    assert_eq!(crew.repository.crew_counting(mission_id), Ok(2));
}

#[test]
fn failed_mission_takes_crew_again() {
    let policy = MissionPolicy::new(5);
    let (store, mission_id) = board_with_mission(policy);
    let bus = GlobalBroadcaster::new();
    let mut operation = MissionOperationUseCase::new(store, bus.handle(), policy);
    operation.in_progress(mission_id, CHIEF).unwrap();
    operation.to_failed(mission_id, CHIEF).unwrap();
    let mut crew = CrewOperationUseCase::new(operation.repository, bus.handle(), policy);
    assert_eq!(crew.join(mission_id, 7, false), Ok(()));
    assert_eq!(crew.leave(mission_id, 7), Ok(()));
}
