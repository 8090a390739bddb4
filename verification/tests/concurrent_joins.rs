use std::sync::{Arc, Mutex};

use mission_board::application::use_cases::crew_operation::CrewOperationUseCase;
use mission_board::domain::entities::missions::AddMissionEntity;
use mission_board::domain::repositories::mission_management::MissionManagementRepository;
use mission_board::domain::repositories::mission_viewing::MissionViewingRepository;
use mission_board::domain::value_objects::mission_error::MissionError;
use mission_board::domain::value_objects::mission_policy::MissionPolicy;
use mission_board::domain::value_objects::mission_statuses::MissionStatuses;
use mission_board::infrastructure::memory::store::MemoryStore;
use mission_board::infrastructure::notifications::broadcaster::GlobalBroadcaster;
use mission_board::infrastructure::notifications::event::Event;

/// Many brawlers ask to join at once. Each request holds the coordinator
/// for itself while it reads, decides and writes.
fn race(capacity: i64, brawlers: i32) -> (usize, usize, i64, usize) {
    let mut store = MemoryStore::new();
    let mission_id = store
        .add(AddMissionEntity {
            chief_id: 1,
            name: "Harbor watch".to_string(),
            status: MissionStatuses::Open,
            description: None,
            category: "guard".to_string(),
        })
        .unwrap();
    let bus = GlobalBroadcaster::new();
    let mut feed = bus.subscribe();
    let crew = Arc::new(Mutex::new(CrewOperationUseCase::new(
        store,
        bus.handle(),
        MissionPolicy::new(capacity),
    )));

    let runtime = tokio::runtime::Builder::new_multi_thread().worker_threads(4).build().unwrap();
    let answers: Vec<Result<(), MissionError>> = runtime.block_on(async {
        let mut tasks = Vec::new();
        for brawler_id in 0..brawlers {
            let crew = Arc::clone(&crew);
            tasks.push(tokio::spawn(async move {
                crew.lock().unwrap().join(mission_id, 100 + brawler_id, false)
            }));
        }
        let mut answers = Vec::new();
        for task in tasks {
            answers.push(task.await.unwrap());
        }
        answers
    });

    let granted = answers.iter().filter(|answer| answer.is_ok()).count();
    let full = answers
        .iter()
        .filter(|answer| **answer == Err(MissionError::CapacityExceeded))
        .count();
    let count = crew.lock().unwrap().repository.crew_counting(mission_id).unwrap();
    let mut events = 0;
    while let Ok(event) = feed.try_recv() {
        assert!(matches!(event, Event::CrewMovement { .. }));
        events += 1;
    }
    (granted, full, count, events)
}

#[test]
fn parallel_joins_never_overfill_the_roster() {
    let (granted, full, count, events) = race(5, 40);
    assert_eq!(granted, 5);
    assert_eq!(full, 35);
    assert_eq!(count, 5);
    assert_eq!(events, 5);
}

#[test]
fn parallel_joins_all_fit_a_large_roster() {
    let (granted, full, count, events) = race(100, 40);
    assert_eq!(granted, 40);
    assert_eq!(full, 0);
    assert_eq!(count, 40);
    assert_eq!(events, 40);
}

#[test]
fn parallel_joins_find_no_room_in_a_closed_roster() {
    let (granted, full, count, events) = race(0, 16);
    assert_eq!(granted, 0);
    assert_eq!(full, 16);
    assert_eq!(count, 0);
    assert_eq!(events, 0);
}
