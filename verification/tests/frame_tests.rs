use chat_core::StreamCommand;

#[test]
fn join_frame_exact_text() {
    let f = StreamCommand::join("alice".to_string());
    assert_eq!(
        f,
        "{\"method\":\"Join\",\"message\":\"User alice join the room\",\"sender\":\"System\",\"is_self\":false}"
    );
}

#[test]
fn leave_frame_exact_text() {
    let f = StreamCommand::leave("bob".to_string());
    assert_eq!(
        f,
        "{\"method\":\"Leave\",\"message\":\"User bob leave the room\",\"sender\":\"System\",\"is_self\":false}"
    );
}

#[test]
fn send_frames_differ_only_in_is_self() {
    let own = StreamCommand::send_by_self("alice".to_string(), "hi".to_string());
    let other = StreamCommand::send_by_others("alice".to_string(), "hi".to_string());
    assert_eq!(
        own,
        "{\"method\":\"Send\",\"message\":\"hi\",\"sender\":\"alice\",\"is_self\":true}"
    );
    assert_eq!(
        other,
        "{\"method\":\"Send\",\"message\":\"hi\",\"sender\":\"alice\",\"is_self\":false}"
    );
}

#[test]
fn message_text_is_escaped() {
    let f = StreamCommand::send_by_others("a\"b".to_string(), "line1\nline2\\end\t\"q\"".to_string());
    assert_eq!(
        f,
        "{\"method\":\"Send\",\"message\":\"line1\\nline2\\\\end\\t\\\"q\\\"\",\"sender\":\"a\\\"b\",\"is_self\":false}"
    );
}

#[test]
fn control_characters_use_unicode_escapes() {
    let f = StreamCommand::send_by_others("u".to_string(), "\u{1}\u{1f}\u{8}\u{c}\r".to_string());
    assert_eq!(
        f,
        "{\"method\":\"Send\",\"message\":\"\\u0001\\u001f\\b\\f\\r\",\"sender\":\"u\",\"is_self\":false}"
    );
}

#[test]
fn frames_parse_back_as_json() {
    // the frames must be valid JSON for any client: check with a real parser
    let f = StreamCommand::send_by_self("ali\"ce".to_string(), "say \\ \"hi\"\n".to_string());
    let v: serde_json::Value = serde_json::from_str(&f).expect("frame must be valid JSON");
    assert_eq!(v.get("method").unwrap().as_str(), Some("Send"));
    assert_eq!(v.get("message").unwrap().as_str(), Some("say \\ \"hi\"\n"));
    assert_eq!(v.get("sender").unwrap().as_str(), Some("ali\"ce"));
    assert_eq!(v.get("is_self").unwrap().as_bool(), Some(true));
}

#[test]
fn unicode_text_passes_through_unescaped() {
    let f = StreamCommand::send_by_others("ümlaut".to_string(), "héllo ☃".to_string());
    assert_eq!(
        f,
        "{\"method\":\"Send\",\"message\":\"héllo ☃\",\"sender\":\"ümlaut\",\"is_self\":false}"
    );
    let v: serde_json::Value = serde_json::from_str(&f).unwrap();
    assert_eq!(v.get("message").unwrap().as_str(), Some("héllo ☃"));
}

#[test]
fn empty_message_and_sender_encode_cleanly() {
    let f = StreamCommand::send_by_others(String::new(), String::new());
    assert_eq!(
        f,
        "{\"method\":\"Send\",\"message\":\"\",\"sender\":\"\",\"is_self\":false}"
    );
}
