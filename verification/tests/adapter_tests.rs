use chat_core::BroadcastQueue;
use chat_core::Method;
use chat_core::OutboundStep;
use chat_core::RecvOutcome;
use chat_core::RoomActor;
use chat_core::RoomCommand;
use chat_core::StreamMethod;
use chat_core::adapter::disconnect_command;
use chat_core::adapter::inbound_command;
use chat_core::adapter::outbound_frame;

#[test]
fn send_fans_out_with_is_self_per_connection() {
    // create room "general", two connections join, A sends "hi"
    let mut actor = RoomActor::new(100, 0);
    let mut q = BroadcastQueue::new(128);
    let mut sub_a = q.subscribe();
    let mut sub_b = q.subscribe();

    let cmd = inbound_command(StreamMethod::Send, "hi".to_string(), 1, "alice", "general-id")
        .expect("send frame becomes a command");
    let _ = actor.on_command(&cmd, 10);
    q.publish(cmd);

    let got_a = q.drain(&mut sub_a);
    let got_b = q.drain(&mut sub_b);
    assert_eq!(got_a.len(), 1);
    assert_eq!(got_b.len(), 1);

    match outbound_frame(&got_a[0], "alice") {
        OutboundStep::Write(f) => assert_eq!(
            f,
            "{\"method\":\"Send\",\"message\":\"hi\",\"sender\":\"alice\",\"is_self\":true}"
        ),
        OutboundStep::Stop => panic!("A must receive the frame"),
    }
    match outbound_frame(&got_b[0], "bob") {
        OutboundStep::Write(f) => assert_eq!(
            f,
            "{\"method\":\"Send\",\"message\":\"hi\",\"sender\":\"alice\",\"is_self\":false}"
        ),
        OutboundStep::Stop => panic!("B must receive the frame"),
    }
}

#[test]
fn abrupt_disconnect_broadcasts_leave_for_that_user() {
    // B's socket fails: the read loop ends and emits the leave command
    let mut q = BroadcastQueue::new(128);
    let mut sub_a = q.subscribe();
    let cmd = disconnect_command("bob");
    assert!(matches!(cmd.method, Method::Leave));
    q.publish(cmd);
    let got = q.drain(&mut sub_a);
    assert_eq!(got.len(), 1);
    match outbound_frame(&got[0], "alice") {
        OutboundStep::Write(f) => assert_eq!(
            f,
            "{\"method\":\"Leave\",\"message\":\"User bob leave the room\",\"sender\":\"System\",\"is_self\":false}"
        ),
        OutboundStep::Stop => panic!("remaining members must see the leave"),
    }
}

#[test]
fn close_envelope_stops_the_connection() {
    let mut q = BroadcastQueue::new(128);
    let mut s = q.subscribe();
    q.publish(RoomCommand::close());
    match q.recv(&mut s) {
        RecvOutcome::Message(c) => match outbound_frame(&c, "alice") {
            OutboundStep::Stop => {}
            OutboundStep::Write(_) => panic!("close is a shutdown signal, not a frame"),
        },
        _ => panic!("close must be delivered"),
    }
}

#[test]
fn join_envelope_becomes_system_notice() {
    match outbound_frame(&RoomCommand::join("carol".to_string()), "alice") {
        OutboundStep::Write(f) => assert_eq!(
            f,
            "{\"method\":\"Join\",\"message\":\"User carol join the room\",\"sender\":\"System\",\"is_self\":false}"
        ),
        OutboundStep::Stop => panic!("join must be written"),
    }
}

#[test]
fn inbound_join_is_stamped_with_identity() {
    let cmd = inbound_command(StreamMethod::Join, String::new(), 4, "dave", "room-3").unwrap();
    assert!(matches!(cmd.method, Method::Join));
    assert_eq!(cmd.user.as_deref(), Some("dave"));
    assert!(cmd.room_id.is_none() && cmd.user_id.is_none() && cmd.message.is_none());
}

#[test]
fn inbound_send_is_stamped_with_identity_and_room() {
    let cmd =
        inbound_command(StreamMethod::Send, "yo".to_string(), 4, "dave", "room-3").unwrap();
    assert!(matches!(cmd.method, Method::Send));
    assert_eq!(cmd.user_id, Some(4));
    assert_eq!(cmd.user.as_deref(), Some("dave"));
    assert_eq!(cmd.room_id.as_deref(), Some("room-3"));
    assert_eq!(cmd.message.as_deref(), Some("yo"));
}

#[test]
fn inbound_leave_frame_is_ignored() {
    assert!(inbound_command(StreamMethod::Leave, String::new(), 4, "dave", "room-3").is_none());
}
