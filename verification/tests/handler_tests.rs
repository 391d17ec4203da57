use chat_core::DbFailure;
use chat_core::Method;
use chat_core::RoomCommand;
use chat_core::SessionManager;
use chat_core::api::session_cookie_value;
use chat_core::handlers::create_room_guard;
use chat_core::handlers::join_room_guard;
use chat_core::handlers::login_rejection;
use chat_core::handlers::logout;
use chat_core::handlers::room_not_alive_rejection;
use chat_core::handlers::rooms_from_rows;
use chat_core::handlers::rooms_guard;
use chat_core::handlers::signup_rejection;
use chat_core::handlers::{auth, create_failed_rejection, rooms_fetch_failed_rejection};
use chat_core::persistence::message_row;

#[test]
fn auth_without_cookie_names_the_missing_header() {
    let mut sm = SessionManager::build(100);
    let e = auth(&mut sm, None, 0).unwrap_err();
    assert_eq!(e.status, 401);
    assert_eq!(e.body.code, "Unauthorized");
    assert_eq!(e.body.message, "Invalid Session ID Header");
}

#[test]
fn auth_with_stale_token_is_unauthorized() {
    let mut sm = SessionManager::build(100);
    let token = sm.new_session(5, 0);
    let e = auth(&mut sm, Some(&token), 100).unwrap_err();
    assert_eq!(e.status, 401);
    assert_eq!(e.body.code, "UNAUTHORZIED");
    assert_eq!(e.body.message, "Unauthorized operation");
}

#[test]
fn auth_with_live_token_succeeds() {
    let mut sm = SessionManager::build(100);
    let token = sm.new_session(5, 0);
    let a = auth(&mut sm, Some(&token), 50).unwrap();
    assert_eq!(a.status, "success");
    assert_eq!(a.code, "ok");
    assert_eq!(a.message, "Authorized");
}

#[test]
fn logout_revokes_and_reports() {
    let mut sm = SessionManager::build(100);
    let token = sm.new_session(5, 0);
    let a = logout(&mut sm, Some(&token)).unwrap();
    assert_eq!(a.message, "Logout");
    assert_eq!(sm.check_session(&token, 1), None);
    assert!(logout(&mut sm, None).is_err());
}

#[test]
fn create_room_guard_checks_session_before_params() {
    let mut sm = SessionManager::build(100);
    // no session: unauthorized, even though the name is also missing
    let e = create_room_guard(&mut sm, None, None, 0).unwrap_err();
    assert_eq!(e.status, 401);
    assert_eq!(e.body.code, "UNAUTHORZIED");

    let token = sm.new_session(5, 0);
    let e = create_room_guard(&mut sm, Some(&token), None, 10).unwrap_err();
    assert_eq!(e.status, 400);
    assert_eq!(e.body.code, "BAD_REQUEST");
    assert_eq!(e.body.message, "Missing required query parameter: room_name");

    let (uid, name) = create_room_guard(&mut sm, Some(&token), Some("general"), 20).unwrap();
    assert_eq!(uid, 5);
    assert_eq!(name, "general");
}

#[test]
fn join_room_guard_requires_room_id() {
    let mut sm = SessionManager::build(100);
    let token = sm.new_session(5, 0);
    let e = join_room_guard(&mut sm, Some(&token), None, 10).unwrap_err();
    assert_eq!(e.body.message, "Missing required query parameter: room_id");
    let (uid, id) = join_room_guard(&mut sm, Some(&token), Some("room-1"), 20).unwrap();
    assert_eq!((uid, id.as_str()), (5, "room-1"));
}

#[test]
fn rooms_guard_and_listing_shapes() {
    let mut sm = SessionManager::build(100);
    let e = rooms_guard(&mut sm, None, 0).unwrap_err();
    assert_eq!(e.body.message, "Invalid Session ID Header");
    let token = sm.new_session(5, 0);
    assert_eq!(rooms_guard(&mut sm, Some(&token), 10).unwrap(), 5);

    let rooms = rooms_from_rows(vec![
        ("id-1".to_string(), "general".to_string()),
        ("id-2".to_string(), "random".to_string()),
    ]);
    assert_eq!(rooms.len(), 2);
    assert_eq!(rooms[0].room_id, "id-1");
    assert_eq!(rooms[0].room_name, "general");
    assert_eq!(rooms[1].room_name, "random");
}

#[test]
fn fixed_rejections_have_exact_shapes() {
    let r = room_not_alive_rejection();
    assert_eq!((r.status, r.body.code.as_str(), r.body.message.as_str()), (
        400,
        "BAD_REQUEST",
        "Room is not alive",
    ));
    let r = create_failed_rejection();
    assert_eq!((r.status, r.body.code.as_str(), r.body.message.as_str()), (
        500,
        "INTERNAL_SERVER_ERROR",
        "Failed to create chat room.",
    ));
    let r = rooms_fetch_failed_rejection();
    assert_eq!((r.status, r.body.message.as_str()), (500, "Failed to fetch rooms"));
}

#[test]
fn signup_failures_map_to_their_answers() {
    let r = signup_rejection(&DbFailure::UniqueViolation);
    assert_eq!(r.status, 409);
    assert_eq!(r.body.code, "DUPLICATE_ENTRY");
    assert_eq!(
        r.body.message,
        "The provided account name is already taken. Please choose a different one."
    );
    let r = signup_rejection(&DbFailure::DatabaseOther);
    assert_eq!((r.status, r.body.message.as_str()), (500, ""));
    let r = signup_rejection(&DbFailure::Other("boom".to_string()));
    assert_eq!((r.status, r.body.message.as_str()), (500, "boom"));
}

#[test]
fn login_failures_distinguish_unknown_account() {
    let r = login_rejection(&DbFailure::RowNotFound);
    assert_eq!(r.status, 404);
    assert_eq!(r.body.code, "Account not found");
    assert_eq!(r.body.message, "Your account or password is incorrect");
    let r = login_rejection(&DbFailure::DatabaseOther);
    assert_eq!((r.status, r.body.message.as_str()), (500, ""));
}

#[test]
fn cookie_value_has_exact_attributes() {
    assert_eq!(
        session_cookie_value("abc-123"),
        "session_id=abc-123; HttpOnly; Path=/; Secure"
    );
}

#[test]
fn message_row_takes_only_storable_send_commands() {
    let ok = RoomCommand::send(
        3,
        "alice".to_string(),
        "67e55044-10b1-426f-9247-bb680e5fe0c8".to_string(),
        "hello".to_string(),
    );
    let row = message_row(&ok).expect("well-formed send is stored");
    assert_eq!(row.0, "67e55044-10b1-426f-9247-bb680e5fe0c8");
    assert_eq!(row.1, 3);
    assert_eq!(row.2, "hello");

    let bad_id = RoomCommand::send(3, "alice".to_string(), "not-a-uuid".to_string(), "x".to_string());
    assert!(message_row(&bad_id).is_none());

    let join = RoomCommand::join("alice".to_string());
    assert!(matches!(join.method, Method::Join));
    assert!(message_row(&join).is_none());
}
