use mission_board::application::use_cases::crew_operation::CrewOperationUseCase;
use mission_board::application::use_cases::mission_management::MissionManagementUseCase;
use mission_board::application::use_cases::mission_operation::MissionOperationUseCase;
use mission_board::domain::entities::crew_memberships::CrewMembershipEntity;
use mission_board::domain::entities::missions::{AddMissionEntity, EditMissionEntity};
use mission_board::domain::repositories::crew_operation::CrewOperationRepository;
use mission_board::domain::repositories::mission_chat::MissionChatRepository;
use mission_board::domain::repositories::mission_management::MissionManagementRepository;
use mission_board::domain::repositories::mission_operation::MissionOperationRepository;
use mission_board::domain::repositories::mission_viewing::MissionViewingRepository;
use mission_board::domain::repositories::store::MissionStore;
use mission_board::domain::value_objects::brawler_model::BrawlerModel;
use mission_board::domain::value_objects::mission_chat_model::MissionChatModel;
use mission_board::domain::value_objects::mission_error::MissionError;
use mission_board::domain::value_objects::mission_filter::MissionFilter;
use mission_board::domain::value_objects::mission_model::{AddMissionModel, MissionModel};
use mission_board::domain::value_objects::mission_policy::MissionPolicy;
use mission_board::domain::value_objects::mission_statuses::MissionStatuses;
use mission_board::infrastructure::memory::store::MemoryStore;
use mission_board::infrastructure::notifications::broadcaster::GlobalBroadcaster;
use mission_board::infrastructure::notifications::event::Event;

/// A store that gives out on the operations it is told to.
struct Flaky {
    inner: MemoryStore,
    chat_down: bool,
    crew_down: bool,
    reads_down: bool,
}

impl Flaky {
    fn new(inner: MemoryStore) -> Flaky {
        Flaky { inner, chat_down: false, crew_down: false, reads_down: false }
    }
}

impl MissionStore for Flaky {}

impl CrewOperationRepository for Flaky {
    fn join(&mut self, m: CrewMembershipEntity, bypass: bool) -> Result<(), MissionError> {
        if self.crew_down {
            return Err(MissionError::Unavailable);
        }
        self.inner.join(m, bypass)
    }

    fn leave(&mut self, m: CrewMembershipEntity) -> Result<(), MissionError> {
        if self.crew_down {
            return Err(MissionError::Unavailable);
        }
        self.inner.leave(m)
    }
}

impl MissionViewingRepository for Flaky {
    fn crew_counting(&self, mission_id: i32) -> Result<i64, MissionError> {
        if self.reads_down {
            return Err(MissionError::Unavailable);
        }
        self.inner.crew_counting(mission_id)
    }

    fn get_one(&self, mission_id: i32) -> Result<MissionModel, MissionError> {
        if self.reads_down {
            return Err(MissionError::Unavailable);
        }
        self.inner.get_one(mission_id)
    }

    fn get_all(&self, filter: &MissionFilter) -> Result<Vec<MissionModel>, MissionError> {
        self.inner.get_all(filter)
    }

    fn get_crew(&self, mission_id: i32) -> Result<Vec<BrawlerModel>, MissionError> {
        self.inner.get_crew(mission_id)
    }
}

impl MissionOperationRepository for Flaky {
    fn to_progress(&mut self, mission_id: i32, chief_id: i32) -> Result<i32, MissionError> {
        self.inner.to_progress(mission_id, chief_id)
    }

    fn to_completed(&mut self, mission_id: i32, chief_id: i32) -> Result<i32, MissionError> {
        self.inner.to_completed(mission_id, chief_id)
    }

    fn to_failed(&mut self, mission_id: i32, chief_id: i32) -> Result<i32, MissionError> {
        self.inner.to_failed(mission_id, chief_id)
    }
}

impl MissionManagementRepository for Flaky {
    fn add(&mut self, entity: AddMissionEntity) -> Result<i32, MissionError> {
        self.inner.add(entity)
    }

    fn edit(&mut self, mission_id: i32, entity: EditMissionEntity) -> Result<i32, MissionError> {
        self.inner.edit(mission_id, entity)
    }

    fn remove(&mut self, mission_id: i32, chief_id: i32) -> Result<(), MissionError> {
        self.inner.remove(mission_id, chief_id)
    }
}

impl MissionChatRepository for Flaky {
    fn add_message(
        &mut self,
        mission_id: i32,
        brawler_id: i32,
        message: &str,
    ) -> Result<MissionChatModel, MissionError> {
        self.inner.add_message(mission_id, brawler_id, message)
    }

    fn get_messages(&self, mission_id: i32) -> Result<Vec<MissionChatModel>, MissionError> {
        self.inner.get_messages(mission_id)
    }

    fn delete_messages(&mut self, mission_id: i32) -> Result<(), MissionError> {
        if self.chat_down {
            return Err(MissionError::Unavailable);
        }
        self.inner.delete_messages(mission_id)
    }
}

fn add_model() -> AddMissionModel {
    AddMissionModel { name: "Night watch".to_string(), description: None, category: "guard".to_string() }
}

#[test]
fn failed_purge_does_not_undo_completion() {
    let policy = MissionPolicy::new(5);
    let mut inner = MemoryStore::new();
    let chief = inner.enroll("Chief", "").unwrap();
    let mut management = MissionManagementUseCase::new(Flaky::new(inner), policy);
    let mission_id = management.add(chief, add_model()).unwrap();
    let mut store = management.repository;
    store.add_message(mission_id, chief, "ready?").unwrap();
    store.chat_down = true;
    let bus = GlobalBroadcaster::new();
    let mut feed = bus.subscribe();
    let mut operation = MissionOperationUseCase::new(store, bus.handle(), policy);
    assert_eq!(operation.in_progress(mission_id, chief), Ok(mission_id));
    assert_eq!(operation.to_completed(mission_id, chief), Ok(mission_id));
    assert_eq!(
        operation.repository.get_one(mission_id).unwrap().status,
        MissionStatuses::Completed
    );
    assert_eq!(operation.repository.get_messages(mission_id).unwrap().len(), 1);
    assert_eq!(
        feed.try_recv().unwrap(),
        Event::MissionUpdated {
            id: mission_id,
            name: "Night watch".to_string(),
            status: MissionStatuses::InProgress,
        }
    );
    assert_eq!(
        feed.try_recv().unwrap(),
        Event::MissionUpdated {
            id: mission_id,
            name: "Night watch".to_string(),
            status: MissionStatuses::Completed,
        }
    );
}

#[test]
fn failed_auto_join_does_not_undo_posting() {
    let policy = MissionPolicy::new(5);
    let mut store = Flaky::new(MemoryStore::new());
    store.crew_down = true;
    let mut management = MissionManagementUseCase::new(store, policy);
    let mission_id = management.add(3, add_model()).unwrap();
    assert_eq!(management.repository.crew_counting(mission_id), Ok(0));
    assert_eq!(management.repository.get_one(mission_id).unwrap().chief_id, 3);
}

#[test]
fn unavailable_store_is_reported_and_nothing_goes_out() {
    let policy = MissionPolicy::new(5);
    let mut management = MissionManagementUseCase::new(Flaky::new(MemoryStore::new()), policy);
    let mission_id = management.add(3, add_model()).unwrap();
    let mut store = management.repository;
    store.reads_down = true;
    let bus = GlobalBroadcaster::new();
    let mut feed = bus.subscribe();
    let mut crew = CrewOperationUseCase::new(store, bus.handle(), policy);
    assert_eq!(crew.join(mission_id, 9, false), Err(MissionError::Unavailable));
    assert_eq!(crew.leave(mission_id, 3), Err(MissionError::Unavailable));
    crew.repository.reads_down = false;
    crew.repository.crew_down = true;
    assert_eq!(crew.join(mission_id, 9, false), Err(MissionError::Unavailable));
    assert_eq!(crew.repository.inner.crew_counting(mission_id), Ok(1));
    assert!(feed.try_recv().is_err());
}
