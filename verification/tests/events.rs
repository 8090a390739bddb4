use mission_board::domain::value_objects::mission_error::MissionError;
use mission_board::domain::value_objects::mission_statuses::MissionStatuses;
use mission_board::infrastructure::notifications::broadcaster::{
    GlobalBroadcaster, GLOBAL_CAPACITY,
};
use mission_board::infrastructure::notifications::event::Event;
use tokio::sync::broadcast::error::TryRecvError;

#[test]
fn events_are_built_with_their_words() {
    assert_eq!(
        Event::joined(3, "Herb run"),
        Event::CrewMovement {
            mission_id: 3,
            message: "New brawler joined mission \"Herb run\"".to_string(),
        }
    );
    assert_eq!(
        Event::left(3, "Herb run"),
        Event::CrewMovement {
            mission_id: 3,
            message: "A brawler left mission \"Herb run\"".to_string(),
        }
    );
    assert_eq!(
        Event::updated(3, "Herb run", MissionStatuses::Failed),
        Event::MissionUpdated {
            id: 3,
            name: "Herb run".to_string(),
            status: MissionStatuses::Failed,
        }
    );
    assert_eq!(Event::joined(1, "x").kind(), "crew_movement");
    assert_eq!(Event::left(1, "x").kind(), "crew_movement");
    assert_eq!(Event::updated(1, "x", MissionStatuses::Open).kind(), "mission_updated");
}

#[test]
fn every_subscriber_gets_every_event() {
    let mut bus = GlobalBroadcaster::new();
    let mut first = bus.subscribe();
    let mut second = bus.subscribe();
    let mut other_handle = bus.handle();
    bus.broadcast(Event::joined(1, "a"));
    other_handle.broadcast(Event::left(1, "a"));
    for feed in [&mut first, &mut second] {
        assert_eq!(feed.try_recv().unwrap(), Event::joined(1, "a"));
        assert_eq!(feed.try_recv().unwrap(), Event::left(1, "a"));
        assert_eq!(feed.try_recv(), Err(TryRecvError::Empty));
    }
}

#[test]
fn handles_share_the_bus_they_were_taken_from() {
    let bus = GlobalBroadcaster::new();
    let first = bus.handle();
    let second = first.handle();
    assert!(first.same_bus(&bus));
    assert!(bus.same_bus(&first));
    assert!(second.same_bus(&bus));
    assert!(bus.same_bus(&bus));
    let elsewhere = GlobalBroadcaster::new();
    assert!(!elsewhere.same_bus(&bus));
    assert!(!elsewhere.handle().same_bus(&first));
    assert!(elsewhere.handle().same_bus(&elsewhere));
}

#[test]
fn what_goes_out_on_one_bus_stays_off_another() {
    let bus = GlobalBroadcaster::new();
    let elsewhere = GlobalBroadcaster::new();
    let mut here = bus.subscribe();
    let mut there = elsewhere.subscribe();
    let mut handle = bus.handle();
    handle.broadcast(Event::joined(1, "a"));
    assert_eq!(here.try_recv().unwrap(), Event::joined(1, "a"));
    assert_eq!(there.try_recv(), Err(TryRecvError::Empty));
}

#[test]
fn events_without_subscribers_are_dropped() {
    let mut bus = GlobalBroadcaster::new();
    bus.broadcast(Event::joined(1, "early"));
    let mut late = bus.subscribe();
    assert_eq!(late.try_recv(), Err(TryRecvError::Empty));
    bus.broadcast(Event::joined(2, "on time"));
    assert_eq!(late.try_recv().unwrap(), Event::joined(2, "on time"));
}

#[test]
fn a_slow_subscriber_loses_the_oldest_events() {
    let mut bus = GlobalBroadcaster::new();
    let mut slow = bus.subscribe();
    let extra = 6;
    for n in 0..(GLOBAL_CAPACITY + extra) {
        bus.broadcast(Event::updated(n as i32, "m", MissionStatuses::InProgress));
    }
    assert_eq!(slow.try_recv(), Err(TryRecvError::Lagged(extra as u64)));
    assert_eq!(
        slow.try_recv().unwrap(),
        Event::updated(extra as i32, "m", MissionStatuses::InProgress)
    );
}

#[test]
fn errors_have_messages_and_codes() {
    let all = [
        (MissionError::NotFound, 404, "Mission not found"),
        (MissionError::Forbidden, 403, "Caller is not allowed to do this on the mission"),
        (MissionError::InvalidState, 409, "Mission is not in a state that allows this"),
        (MissionError::InvalidTransition, 409, "Invalid condition to change stages!"),
        (MissionError::CapacityExceeded, 409, "Mission is full"),
        (MissionError::ConfigurationError, 500, "Configuration value is missing or unreadable"),
        (MissionError::InvalidName, 400, "Mission name must be at least 3 characters long!"),
        (MissionError::AlreadyMember, 409, "Brawler already joined the mission"),
        (MissionError::NotMember, 404, "Brawler is not on the mission's crew"),
        (MissionError::InvalidPage, 400, "Page must be at least 1 and page size at least 0"),
        (MissionError::Unavailable, 500, "Mission store is unavailable"),
    ];
    for (error, code, message) in all {
        assert_eq!(error.status_code(), code);
        assert_eq!(error.message(), message);
    }
}
