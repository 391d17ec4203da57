use chat_core::CommandStep;
use chat_core::Method;
use chat_core::RoomActor;
use chat_core::RoomCommand;
use chat_core::RoomManager;
use chat_core::RoomPhase;
use chat_core::TimerVerdict;

#[test]
fn idle_room_times_out_and_becomes_unjoinable() {
    let mut rm: RoomManager<u32> = RoomManager::build(100);
    rm.register_room("room-1".to_string(), 42);
    let mut actor = RoomActor::new(100, 0);
    // no traffic for a whole window: the timer check closes the room
    match actor.on_timer(100) {
        TimerVerdict::CloseNow => {}
        TimerVerdict::SleepUntil(_) => panic!("idle room must close"),
    }
    assert_eq!(actor.phase, RoomPhase::Closing);
    // the actor removes itself; its final broadcast goes through the handle
    assert_eq!(rm.delete_room("room-1"), Some(42));
    // thereafter the id is not alive
    assert!(rm.join("room-1").is_none());
}

#[test]
fn command_resets_idle_deadline() {
    let mut actor = RoomActor::new(100, 0);
    // a command every half window: the room never goes idle
    let mut t: u64 = 0;
    for _ in 0..10 {
        t += 50;
        match actor.on_timer(t - 1) {
            TimerVerdict::SleepUntil(_) => {}
            TimerVerdict::CloseNow => panic!("room with traffic must not close"),
        }
        let step = actor.on_command(&RoomCommand::join("u".to_string()), t);
        assert_eq!(step, CommandStep::Deliver { persist: false });
        assert_eq!(actor.phase, RoomPhase::Active);
        assert_eq!(actor.deadline, t + 100);
    }
}

#[test]
fn close_command_shuts_down_even_when_not_idle() {
    let mut actor = RoomActor::new(100, 0);
    let step = actor.on_command(&RoomCommand::close(), 1);
    assert_eq!(step, CommandStep::Shutdown);
    assert_eq!(actor.phase, RoomPhase::Closing);
}

#[test]
fn send_is_delivered_and_persisted_others_only_delivered() {
    let mut actor = RoomActor::new(100, 0);
    let send = RoomCommand::send(1, "alice".to_string(), "r".to_string(), "hi".to_string());
    assert_eq!(actor.on_command(&send, 5), CommandStep::Deliver { persist: true });
    let leave = RoomCommand::leave("bob".to_string());
    assert_eq!(actor.on_command(&leave, 6), CommandStep::Deliver { persist: false });
}

#[test]
fn failed_durable_write_leaves_no_live_room() {
    let mut rm: RoomManager<u32> = RoomManager::build(100);
    let room_id = "fresh-room-id".to_string();
    // creation inserts the entry first, so the room is joinable at once
    rm.register_room(room_id.clone(), 7);
    assert!(rm.join(&room_id).is_some());
    // the durable write fails: the creation is rolled back as a whole
    let _ = rm.delete_room(&room_id);
    assert!(rm.join(&room_id).is_none());
}

#[test]
fn delete_room_is_idempotent() {
    let mut rm: RoomManager<u32> = RoomManager::build(100);
    rm.register_room("a".to_string(), 1);
    assert_eq!(rm.delete_room("a"), Some(1));
    assert_eq!(rm.delete_room("a"), None);
    assert_eq!(rm.delete_room("never-existed"), None);
}

#[test]
fn registry_tracks_multiple_rooms_independently() {
    let mut rm: RoomManager<u32> = RoomManager::build(100);
    rm.register_room("a".to_string(), 1);
    rm.register_room("b".to_string(), 2);
    assert_eq!(rm.join("a").copied(), Some(1));
    assert_eq!(rm.join("b").copied(), Some(2));
    rm.delete_room("a");
    assert!(rm.join("a").is_none());
    assert_eq!(rm.join("b").copied(), Some(2));
}

#[test]
fn room_command_constructors_carry_declared_fields() {
    let j = RoomCommand::join("alice".to_string());
    assert!(matches!(j.method, Method::Join));
    assert_eq!(j.user.as_deref(), Some("alice"));
    assert!(j.room_id.is_none() && j.user_id.is_none() && j.message.is_none());

    let s = RoomCommand::send(3, "bob".to_string(), "room-9".to_string(), "hey".to_string());
    assert!(matches!(s.method, Method::Send));
    assert_eq!(s.user_id, Some(3));
    assert_eq!(s.user.as_deref(), Some("bob"));
    assert_eq!(s.room_id.as_deref(), Some("room-9"));
    assert_eq!(s.message.as_deref(), Some("hey"));

    let l = RoomCommand::leave("carol".to_string());
    assert!(matches!(l.method, Method::Leave));
    assert_eq!(l.user.as_deref(), Some("carol"));

    let c = RoomCommand::close();
    assert!(matches!(c.method, Method::Close));
    assert!(c.user.is_none() && c.room_id.is_none() && c.user_id.is_none() && c.message.is_none());
}
