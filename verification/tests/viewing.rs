use mission_board::application::use_cases::mission_viewing::MissionViewingUseCase;
use mission_board::domain::entities::crew_memberships::CrewMembershipEntity;
use mission_board::domain::entities::missions::AddMissionEntity;
use mission_board::domain::repositories::crew_operation::CrewOperationRepository;
use mission_board::domain::repositories::mission_management::MissionManagementRepository;
use mission_board::domain::repositories::mission_operation::MissionOperationRepository;
use mission_board::domain::value_objects::mission_error::MissionError;
use mission_board::domain::value_objects::mission_filter::{MissionFilter, PageWindow};
use mission_board::domain::value_objects::mission_statuses::MissionStatuses;
use mission_board::infrastructure::memory::store::{MemoryStore, MEMORY_STORE_CHANGES};

fn post(store: &mut MemoryStore, at: i64, chief_id: i32, name: &str, category: &str) -> i32 {
    store.set_time(at);
    store
        .add(AddMissionEntity {
            chief_id,
            name: name.to_string(),
            status: MissionStatuses::Open,
            description: None,
            category: category.to_string(),
        })
        .unwrap()
}

/// Six missions, posted at times 10 to 60:
///   1 "Dragon hunt"   hunt   chief 1  Open
///   2 "Goblin cave"   cave   chief 2  Completed
///   3 "DRAGON egg"    hunt   chief 1  InProgress
///   4 "Herb run"      errand chief 3  Failed
///   5 "Sea dragon"    sea    chief 2  Open
///   6 "Lost ring"     errand chief 3  removed
fn sample() -> MemoryStore {
    let mut store = MemoryStore::new();
    post(&mut store, 10, 1, "Dragon hunt", "hunt");
    post(&mut store, 20, 2, "Goblin cave", "cave");
    post(&mut store, 30, 1, "DRAGON egg", "hunt");
    post(&mut store, 40, 3, "Herb run", "errand");
    post(&mut store, 50, 2, "Sea dragon", "sea");
    post(&mut store, 60, 3, "Lost ring", "errand");
    store.set_time(70);
    store.to_progress(2, 2).unwrap();
    store.to_completed(2, 2).unwrap();
    store.to_progress(3, 1).unwrap();
    store.to_progress(4, 3).unwrap();
    store.to_failed(4, 3).unwrap();
    store.remove(6, 3).unwrap();
    store
}

fn ids(store: MemoryStore, filter: MissionFilter) -> Vec<i32> {
    MissionViewingUseCase::new(store)
        .get_all(&filter)
        .unwrap()
        .iter()
        .map(|mission| mission.id)
        .collect()
}

#[test]
fn list_puts_running_missions_first_and_newest_first() {
    // Not yet over: 5 (50), 3 (30), 1 (10). Over: 4 (40), 2 (20). Removed: 6.
    assert_eq!(ids(sample(), MissionFilter::new()), vec![5, 3, 1, 4, 2]);
}

#[test]
fn list_filters_by_status() {
    let mut filter = MissionFilter::new();
    filter.status = Some(MissionStatuses::Open);
    assert_eq!(ids(sample(), filter), vec![5, 1]);
    let mut filter = MissionFilter::new();
    filter.status = Some(MissionStatuses::Completed);
    assert_eq!(ids(sample(), filter), vec![2]);
}

#[test]
fn list_filters_by_name_whatever_the_case() {
    let mut filter = MissionFilter::new();
    filter.name = Some("dragon".to_string());
    assert_eq!(ids(sample(), filter), vec![5, 3, 1]);
    let mut filter = MissionFilter::new();
    filter.name = Some("GOBLIN C".to_string());
    assert_eq!(ids(sample(), filter), vec![2]);
    let mut filter = MissionFilter::new();
    filter.name = Some("unicorn".to_string());
    assert_eq!(ids(sample(), filter), Vec::<i32>::new());
    let mut filter = MissionFilter::new();
    filter.name = Some(String::new());
    assert_eq!(ids(sample(), filter), vec![5, 3, 1, 4, 2]);
}

#[test]
fn list_filters_by_category_and_chief() {
    let mut filter = MissionFilter::new();
    filter.category = Some("hunt".to_string());
    assert_eq!(ids(sample(), filter), vec![3, 1]);
    // Categories are compared as they are.
    let mut filter = MissionFilter::new();
    filter.category = Some("Hunt".to_string());
    assert_eq!(ids(sample(), filter), Vec::<i32>::new());
    let mut filter = MissionFilter::new();
    filter.exclude_chief_id = Some(1);
    assert_eq!(ids(sample(), filter), vec![5, 4, 2]);
    let mut filter = MissionFilter::new();
    filter.exclude_chief_id = Some(2);
    filter.name = Some("dragon".to_string());
    filter.status = Some(MissionStatuses::Open);
    assert_eq!(ids(sample(), filter), vec![1]);
}

#[test]
fn filters_are_built_step_by_step() {
    let filter = MissionFilter::new()
        .with_status(MissionStatuses::Open)
        .with_name("dragon".to_string())
        .with_category("hunt".to_string())
        .without_chief(2)
        .paged(1, 10);
    assert_eq!(filter.status, Some(MissionStatuses::Open));
    assert_eq!(filter.name, Some("dragon".to_string()));
    assert_eq!(filter.category, Some("hunt".to_string()));
    assert_eq!(filter.exclude_chief_id, Some(2));
    assert_eq!(filter.page, Some(1));
    assert_eq!(filter.limit, Some(10));
    assert_eq!(ids(sample(), filter), vec![1]);
    assert_eq!(ids(sample(), MissionFilter::new().without_chief(1).paged(2, 2)), vec![2]);
    let blank = MissionFilter::new();
    assert!(blank.status.is_none() && blank.name.is_none() && blank.category.is_none());
    assert!(blank.exclude_chief_id.is_none() && blank.limit.is_none() && blank.page.is_none());
}

#[test]
fn list_is_cut_into_pages() {
    let mut filter = MissionFilter::new();
    filter.limit = Some(2);
    assert_eq!(ids(sample(), filter), vec![5, 3]);
    let mut filter = MissionFilter::new();
    filter.limit = Some(2);
    filter.page = Some(2);
    assert_eq!(ids(sample(), filter), vec![1, 4]);
    let mut filter = MissionFilter::new();
    filter.limit = Some(2);
    filter.page = Some(3);
    assert_eq!(ids(sample(), filter), vec![2]);
    let mut filter = MissionFilter::new();
    filter.limit = Some(2);
    filter.page = Some(4);
    assert_eq!(ids(sample(), filter), Vec::<i32>::new());
    let mut filter = MissionFilter::new();
    filter.limit = Some(0);
    assert_eq!(ids(sample(), filter), Vec::<i32>::new());
}

#[test]
fn page_window_has_defaults_and_limits() {
    assert_eq!(MissionFilter::new().window(), Ok(PageWindow { skip: 0, size: 20 }));
    let mut filter = MissionFilter::new();
    filter.page = Some(3);
    assert_eq!(filter.window(), Ok(PageWindow { skip: 40, size: 20 }));
    filter.limit = Some(7);
    assert_eq!(filter.window(), Ok(PageWindow { skip: 14, size: 7 }));
    filter.page = Some(0);
    assert_eq!(filter.window(), Err(MissionError::InvalidPage));
    filter.page = Some(1);
    filter.limit = Some(-1);
    assert_eq!(filter.window(), Err(MissionError::InvalidPage));
    filter.limit = Some(i64::MAX);
    filter.page = Some(3);
    assert_eq!(filter.window(), Err(MissionError::InvalidPage));
    filter.page = Some(2);
    assert_eq!(filter.window(), Ok(PageWindow { skip: i64::MAX, size: i64::MAX }));
    let viewing = MissionViewingUseCase::new(sample());
    assert!(viewing.get_all(&filter).unwrap().is_empty());
    filter.page = Some(-4);
    assert_eq!(viewing.get_all(&filter).err(), Some(MissionError::InvalidPage));
}

#[test]
fn default_page_holds_twenty() {
    let mut store = MemoryStore::new();
    for n in 0..25 {
        post(&mut store, n, 1, "Errand", "errand");
    }
    let viewing = MissionViewingUseCase::new(store);
    let first = viewing.get_all(&MissionFilter::new()).unwrap();
    assert_eq!(first.len(), 20);
    assert_eq!(first[0].id, 25);
    assert_eq!(first[19].id, 6);
    let mut filter = MissionFilter::new();
    filter.page = Some(2);
    let second = viewing.get_all(&filter).unwrap();
    assert_eq!(second.iter().map(|m| m.id).collect::<Vec<i32>>(), vec![5, 4, 3, 2, 1]);
}

#[test]
fn missions_of_one_instant_keep_their_order() {
    let mut store = MemoryStore::new();
    for _ in 0..4 {
        post(&mut store, 5, 1, "Errand", "errand");
    }
    assert_eq!(ids(store, MissionFilter::new()), vec![1, 2, 3, 4]);
}

#[test]
fn one_mission_is_read_with_its_derived_values() {
    let mut store = MemoryStore::new();
    let chief = store.enroll("Molly", "").unwrap();
    let mission_id = post(&mut store, 10, chief, "Herb run", "errand");
    store.join(CrewMembershipEntity { mission_id, brawler_id: chief }, true).unwrap();
    store.join(CrewMembershipEntity { mission_id, brawler_id: 30 }, false).unwrap();
    let viewing = MissionViewingUseCase::new(store);
    let mission = viewing.get_one(mission_id).unwrap();
    assert_eq!(mission.chief_display_name, "Molly");
    assert_eq!(mission.crew_count, 2);
    assert_eq!(viewing.get_mission_count(mission_id), Ok(2));
    assert_eq!(viewing.get_mission_count(99), Ok(0));
    assert_eq!(viewing.get_one(99).err(), Some(MissionError::NotFound));
    assert_eq!(viewing.get_one(0).err(), Some(MissionError::NotFound));
    // A chief that the board does not know has no display name.
    let mut store = viewing.mission_viewing_repository;
    let other = post(&mut store, 20, 77, "Ghost ship", "sea");
    assert_eq!(MissionViewingUseCase::new(store).get_one(other).unwrap().chief_display_name, "");
}

#[test]
fn roster_lists_the_crew_in_order_with_their_counts() {
    let mut store = MemoryStore::new();
    let molly = store.enroll("Molly", "https://pics.example/molly.png").unwrap();
    let finn = store.enroll("Finn", "").unwrap();
    let first = post(&mut store, 10, molly, "Herb run", "errand");
    let second = post(&mut store, 20, molly, "Dragon hunt", "hunt");
    let third = post(&mut store, 30, finn, "Sea dragon", "sea");
    for (mission_id, brawler_id) in
        [(first, molly), (first, finn), (second, finn), (second, molly), (third, finn)]
    {
        store.join(CrewMembershipEntity { mission_id, brawler_id }, true).unwrap();
    }
    store.to_progress(first, molly).unwrap();
    store.to_completed(first, molly).unwrap();
    store.to_progress(third, finn).unwrap();
    store.to_completed(third, finn).unwrap();
    store.remove(third, finn).unwrap();

    let viewing = MissionViewingUseCase::new(store);
    let roster = viewing.get_crew(second).unwrap();
    assert_eq!(roster.len(), 2);
    assert_eq!(roster[0].display_name, "Finn");
    assert_eq!(roster[0].avatar_url, "");
    assert_eq!(roster[0].mission_joined_count, 3);
    assert_eq!(roster[0].mission_success_count, 2);
    assert_eq!(roster[1].display_name, "Molly");
    assert_eq!(roster[1].avatar_url, "https://pics.example/molly.png");
    assert_eq!(roster[1].mission_joined_count, 2);
    assert_eq!(roster[1].mission_success_count, 1);

    assert!(viewing.get_crew(99).unwrap().is_empty());
    let names: Vec<String> =
        viewing.get_crew(first).unwrap().into_iter().map(|b| b.display_name).collect();
    assert_eq!(names, vec!["Molly".to_string(), "Finn".to_string()]);
}

#[test]
fn a_store_has_changes_for_a_lifetime() {
    assert_eq!(MEMORY_STORE_CHANGES, i32::MAX - 1);
}

#[test]
fn enrolling_numbers_brawlers_from_one() {
    let mut store = MemoryStore::new();
    assert_eq!(store.enroll("A", ""), Some(1));
    assert_eq!(store.enroll("B", ""), Some(2));
    assert_eq!(store.enroll("A", ""), Some(3));
}
