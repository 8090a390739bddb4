use mission_board::application::use_cases::mission_chat::MissionChatUseCase;
use mission_board::domain::entities::missions::AddMissionEntity;
use mission_board::domain::repositories::mission_management::MissionManagementRepository;
use mission_board::domain::value_objects::mission_chat_model::{
    AddMissionChatModel, MissionChatModel,
};
use mission_board::domain::value_objects::mission_error::MissionError;
use mission_board::domain::value_objects::mission_statuses::MissionStatuses;
use mission_board::infrastructure::memory::store::MemoryStore;
use mission_board::infrastructure::notifications::chat_broadcaster::{
    ChatBroadcaster, MissionChatState, WsParams,
};

fn board() -> (MemoryStore, i32, i32, i32) {
    let mut store = MemoryStore::new();
    let molly = store.enroll("Molly", "").unwrap();
    let finn = store.enroll("Finn", "").unwrap();
    let mission_id = store
        .add(AddMissionEntity {
            chief_id: molly,
            name: "Herb run".to_string(),
            status: MissionStatuses::Open,
            description: None,
            category: "errand".to_string(),
        })
        .unwrap();
    (store, molly, finn, mission_id)
}

#[test]
fn messages_are_kept_in_order() {
    let (mut store, molly, finn, mission_id) = board();
    store.set_time(100);
    let mut chat = MissionChatUseCase::new(store);
    let first = chat.add_message(mission_id, molly, "ready?").unwrap();
    assert_eq!(first.id, 1);
    assert_eq!(first.mission_id, mission_id);
    assert_eq!(first.brawler_id, molly);
    assert_eq!(first.brawler_name, "Molly");
    assert_eq!(first.message, "ready?");
    assert_eq!(first.created_at, 100);
    chat.repo.set_time(200);
    let second = chat.add_message(mission_id, finn, "aye").unwrap();
    assert_eq!(second.id, 2);
    assert_eq!(second.created_at, 200);
    let all = chat.get_messages(mission_id).unwrap();
    assert_eq!(all.len(), 2);
    assert_eq!(all[0].message, "ready?");
    assert_eq!(all[0].brawler_name, "Molly");
    assert_eq!(all[1].message, "aye");
    assert_eq!(all[1].brawler_name, "Finn");
    assert_eq!(all[1].brawler_id, finn);
    assert_eq!(all[1].mission_id, mission_id);
}

#[test]
fn messages_need_a_mission_and_a_known_brawler() {
    let (store, molly, _, mission_id) = board();
    let mut chat = MissionChatUseCase::new(store);
    assert_eq!(chat.add_message(99, molly, "hello").err(), Some(MissionError::NotFound));
    assert_eq!(chat.add_message(mission_id, 99, "hello").err(), Some(MissionError::NotFound));
    assert_eq!(chat.add_message(mission_id, 0, "hello").err(), Some(MissionError::NotFound));
    assert!(chat.get_messages(mission_id).unwrap().is_empty());
    assert!(chat.get_messages(99).unwrap().is_empty());
}

#[test]
fn a_removed_mission_takes_no_messages() {
    let (mut store, molly, _, mission_id) = board();
    store.remove(mission_id, molly).unwrap();
    let mut chat = MissionChatUseCase::new(store);
    assert_eq!(chat.add_message(mission_id, molly, "anyone?").err(), Some(MissionError::NotFound));
    assert!(chat.get_messages(mission_id).unwrap().is_empty());
}

#[test]
fn deleting_empties_one_chat() {
    let (mut store, molly, _, mission_id) = board();
    let other = store
        .add(AddMissionEntity {
            chief_id: molly,
            name: "Dragon hunt".to_string(),
            status: MissionStatuses::Open,
            description: None,
            category: "hunt".to_string(),
        })
        .unwrap();
    let mut chat = MissionChatUseCase::new(store);
    chat.add_message(mission_id, molly, "one").unwrap();
    chat.add_message(other, molly, "two").unwrap();
    assert_eq!(chat.delete_messages(mission_id), Ok(()));
    assert!(chat.get_messages(mission_id).unwrap().is_empty());
    assert_eq!(chat.get_messages(other).unwrap().len(), 1);
    assert_eq!(chat.delete_messages(99), Ok(()));
    // Ids of messages are not used again.
    assert_eq!(chat.add_message(mission_id, molly, "three").unwrap().id, 3);
}

#[test]
fn what_is_said_reaches_the_listeners_of_that_mission() {
    let (mut store, molly, finn, mission_id) = board();
    let other = store
        .add(AddMissionEntity {
            chief_id: finn,
            name: "Dragon hunt".to_string(),
            status: MissionStatuses::Open,
            description: None,
            category: "hunt".to_string(),
        })
        .unwrap();
    let mut chats = ChatBroadcaster::new();
    let mut here = chats.subscribe(mission_id);
    let mut also_here = chats.subscribe(mission_id);
    let mut elsewhere = chats.subscribe(other);
    let mut state = MissionChatState::new(MissionChatUseCase::new(store), chats);
    let said = state
        .add_message(mission_id, molly, &AddMissionChatModel { message: "ready?".to_string() })
        .unwrap();
    assert_eq!(said.message, "ready?");
    assert_eq!(said.brawler_name, "Molly");
    let heard = here.try_recv().unwrap();
    assert_eq!(heard.id, said.id);
    assert_eq!(heard.mission_id, mission_id);
    assert_eq!(heard.message, "ready?");
    assert_eq!(also_here.try_recv().unwrap().message, "ready?");
    assert!(elsewhere.try_recv().is_err());
    assert!(here.try_recv().is_err());
    assert_eq!(state.use_case.get_messages(mission_id).unwrap().len(), 1);
}

#[test]
fn what_cannot_be_stored_is_not_published() {
    let (store, _, _, mission_id) = board();
    let mut chats = ChatBroadcaster::new();
    let mut here = chats.subscribe(mission_id);
    let mut state = MissionChatState::new(MissionChatUseCase::new(store), chats);
    assert_eq!(
        state
            .add_message(mission_id, 99, &AddMissionChatModel { message: "psst".to_string() })
            .err(),
        Some(MissionError::NotFound)
    );
    assert!(here.try_recv().is_err());
}

fn said(mission_id: i32, message: &str) -> MissionChatModel {
    MissionChatModel {
        id: 1,
        mission_id,
        brawler_id: 1,
        brawler_name: "Molly".to_string(),
        message: message.to_string(),
        created_at: 0,
    }
}

#[test]
fn a_mission_has_one_channel() {
    let mut chats = ChatBroadcaster::new();
    let first = chats.get_sender(7);
    let second = chats.get_sender(7);
    let third = chats.get_sender(8);
    assert!(ChatBroadcaster::same_channel(&first, &second));
    assert!(ChatBroadcaster::same_channel(&second, &first));
    assert!(!ChatBroadcaster::same_channel(&first, &third));
    // A channel that was made is kept, whatever else is asked for.
    let _ = chats.subscribe(9);
    let again = chats.get_sender(7);
    assert!(ChatBroadcaster::same_channel(&first, &again));
    let mut listener = chats.subscribe(7);
    let _ = first.send(said(7, "over here"));
    assert_eq!(listener.try_recv().unwrap().message, "over here");
    let mut elsewhere = chats.subscribe(8);
    let _ = again.send(said(7, "still here"));
    assert_eq!(listener.try_recv().unwrap().message, "still here");
    assert!(elsewhere.try_recv().is_err());
    // A message nobody listens to is dropped, and sending it is no error
    // for the one who publishes.
    let (store, molly, _, mission_id) = board();
    let mut state = MissionChatState::new(MissionChatUseCase::new(store), chats);
    assert!(state
        .add_message(mission_id, molly, &AddMissionChatModel { message: "echo".to_string() })
        .is_ok());
    let params = WsParams { token: None };
    assert!(params.token.is_none());
}
