use chat_core::SessionManager;

#[test]
fn fresh_token_has_uuid_shape() {
    let mut sm = SessionManager::build(100);
    let t1 = sm.new_session(1, 0);
    let t2 = sm.new_session(2, 0);
    assert_eq!(t1.chars().count(), 36);
    assert_eq!(t2.chars().count(), 36);
    assert_ne!(t1, t2);
}

#[test]
fn validate_within_window_succeeds_and_extends() {
    let mut sm = SessionManager::build(100);
    let token = sm.new_session(7, 0);
    // created at 0 with a full window: valid strictly before 100
    assert_eq!(sm.check_session(&token, 99), Some(7));
    // that validation extended expiry to 199: still valid at 150
    assert_eq!(sm.check_session(&token, 150), Some(7));
    // extended to 250: the session expires at 250 sharp
    assert_eq!(sm.check_session(&token, 250), None);
}

#[test]
fn validate_after_window_of_inactivity_fails() {
    let mut sm = SessionManager::build(100);
    let token = sm.new_session(7, 0);
    assert_eq!(sm.check_session(&token, 100), None);
    // a failed validation does not resurrect the session
    assert_eq!(sm.check_session(&token, 50), Some(7));
}

#[test]
fn unknown_token_fails() {
    let mut sm = SessionManager::build(100);
    let _ = sm.new_session(7, 0);
    assert_eq!(sm.check_session("no-such-token", 10), None);
}

#[test]
fn logout_removes_session() {
    let mut sm = SessionManager::build(100);
    let token = sm.new_session(7, 0);
    sm.delete_session(&token);
    assert_eq!(sm.check_session(&token, 1), None);
    // deleting again is a no-op
    sm.delete_session(&token);
}

#[test]
fn update_session_binds_chosen_token() {
    let mut sm = SessionManager::build(100);
    sm.update_session("chosen".to_string(), 9, 10);
    assert_eq!(sm.check_session("chosen", 60), Some(9));
}

#[test]
fn sweep_drops_expired_keeps_live() {
    let mut sm = SessionManager::build(100);
    let stale = sm.new_session(1, 0);
    let live = sm.new_session(2, 50);
    sm.sweep_expired(120);
    assert_eq!(sm.check_session(&stale, 120), None);
    assert_eq!(sm.check_session(&live, 120), Some(2));
}

#[test]
fn shutdown_sweep_clears_all_sessions() {
    let mut sm = SessionManager::build(100);
    let t1 = sm.new_session(1, 0);
    let t2 = sm.new_session(2, 0);
    assert_eq!(sm.check_session(&t1, 1), Some(1));
    sm.clear_all();
    // every previously valid token now fails, at any time
    assert_eq!(sm.check_session(&t1, 2), None);
    assert_eq!(sm.check_session(&t2, 2), None);
}
