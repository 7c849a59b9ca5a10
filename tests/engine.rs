use chat_engine::bus::EventBus;
use chat_engine::protocol::{classify, encode, quote, ChatMessage, DecodeError, MsgTypes, Payload, RawFrame};
use chat_engine::session::{avatar_url, blank, Chat, ConfigError, Msg, Phase};

fn users_frame(names: &[&str]) -> Result<RawFrame, String> {
    Ok(RawFrame {
        message_type: Some("users".to_string()),
        data_array: Some(names.iter().map(|n| n.to_string()).collect()),
        data: None,
    })
}

fn message_frame(text: &str, nested: Result<ChatMessage, String>) -> Result<RawFrame, String> {
    Ok(RawFrame {
        message_type: Some("message".to_string()),
        data_array: None,
        data: Some(Payload { text: text.to_string(), as_message: nested }),
    })
}

fn chat_message(from: &str, message: &str) -> ChatMessage {
    ChatMessage { from: from.to_string(), message: message.to_string(), timestamp: None }
}

fn error_frame(reason: Option<&str>) -> Result<RawFrame, String> {
    Ok(RawFrame {
        message_type: Some("error".to_string()),
        data_array: None,
        data: reason.map(|r| Payload { text: r.to_string(), as_message: Err("not a message".to_string()) }),
    })
}

fn alice() -> Chat {
    Chat::create("alice".to_string()).unwrap().0
}

fn roster_names(c: &Chat) -> Vec<(String, bool)> {
    c.users().iter().map(|u| (u.name.clone(), u.is_online)).collect()
}

#[test]
fn registration_frame_is_built_and_session_starts_unconnected() {
    let (c, frame) = Chat::create("alice".to_string()).unwrap();
    assert_eq!(frame, "{\"messageType\":\"register\",\"data\":\"alice\",\"dataArray\":null}");
    assert!(!c.is_connected());
    assert_eq!(c.phase(), Phase::Connecting);
    assert_eq!(c.identity(), "alice");
}

#[test]
fn empty_identity_is_refused() {
    assert!(matches!(Chat::create(String::new()), Err(ConfigError::EmptyIdentity)));
}

#[test]
fn failed_registration_disconnects() {
    let mut c = alice();
    c.registration_failed();
    assert_eq!(c.phase(), Phase::Disconnected);
    let frame = c.register();
    assert_eq!(c.phase(), Phase::Connecting);
    assert!(frame.contains("\"register\""));
}

#[test]
fn users_frame_fills_roster_and_connects() {
    let mut c = alice();
    c.handle_frame(users_frame(&["alice", "bob"]));
    assert_eq!(roster_names(&c), vec![("alice".to_string(), true), ("bob".to_string(), true)]);
    assert_eq!(c.users()[1].avatar, "https://avatars.dicebear.com/api/adventurer-neutral/bob.svg");
    assert!(c.is_connected());
    assert_eq!(c.phase(), Phase::Joined);
}

#[test]
fn later_users_frame_replaces_roster() {
    let mut c = alice();
    c.handle_frame(users_frame(&["alice", "bob", "carol"]));
    c.handle_frame(users_frame(&["dave", "alice"]));
    assert_eq!(roster_names(&c), vec![("dave".to_string(), true), ("alice".to_string(), true)]);
}

#[test]
fn users_frame_without_list_empties_roster() {
    let mut c = alice();
    c.handle_frame(users_frame(&["bob"]));
    c.handle_frame(Ok(RawFrame { message_type: Some("users".to_string()), data_array: None, data: None }));
    assert!(c.users().is_empty());
    assert!(c.is_connected());
}

#[test]
fn redelivered_users_frame_changes_nothing() {
    let mut c = alice();
    c.handle_frame(users_frame(&["bob", "bob", "alice"]));
    let once = roster_names(&c);
    c.handle_frame(users_frame(&["bob", "bob", "alice"]));
    assert_eq!(roster_names(&c), once);
    assert_eq!(once.len(), 3);
}

#[test]
fn message_frame_appends_to_transcript() {
    let mut c = alice();
    c.handle_frame(message_frame("{\"from\":\"bob\",\"message\":\"hi\"}", Ok(chat_message("bob", "hi"))));
    assert_eq!(c.messages().len(), 1);
    assert_eq!(c.messages()[0].from, "bob");
    assert_eq!(c.messages()[0].message, "hi");
    assert_eq!(c.messages()[0].timestamp, None);
    assert!(!c.is_connected());
}

#[test]
fn valid_messages_are_kept_in_arrival_order() {
    let mut c = alice();
    for (i, body) in ["one", "two", "three"].iter().enumerate() {
        c.handle_frame(message_frame(body, Ok(chat_message(if i % 2 == 0 { "bob" } else { "carol" }, body))));
    }
    let bodies: Vec<&str> = c.messages().iter().map(|m| m.message.as_str()).collect();
    assert_eq!(bodies, vec!["one", "two", "three"]);
}

#[test]
fn invalid_nested_payload_is_recorded_not_kept() {
    let mut c = alice();
    c.handle_frame(message_frame("ok", Ok(chat_message("bob", "ok"))));
    c.handle_frame(message_frame("{oops", Err("key must be a string".to_string())));
    assert_eq!(c.messages().len(), 1);
    assert_eq!(
        c.error_message().as_deref(),
        Some("Failed to parse message data: key must be a string")
    );
}

#[test]
fn error_frame_disconnects_and_keeps_state() {
    let mut c = alice();
    c.handle_frame(users_frame(&["alice", "bob"]));
    c.handle_frame(message_frame("hi", Ok(chat_message("bob", "hi"))));
    c.handle_frame(error_frame(Some("room full")));
    assert!(!c.is_connected());
    assert_eq!(c.error_message().as_deref(), Some("room full"));
    assert_eq!(roster_names(&c).len(), 2);
    assert_eq!(c.messages().len(), 1);
}

#[test]
fn error_frame_without_reason_clears_error() {
    let mut c = alice();
    c.handle_frame(Err("expected value at line 1 column 1".to_string()));
    c.handle_frame(error_frame(None));
    assert_eq!(c.error_message(), &None);
    assert_eq!(c.phase(), Phase::Disconnected);
}

#[test]
fn malformed_frame_sets_error_only() {
    let mut c = alice();
    c.handle_frame(users_frame(&["bob"]));
    c.handle_frame(message_frame("hi", Ok(chat_message("bob", "hi"))));
    c.handle_frame(Err("expected value at line 1 column 1".to_string()));
    assert_eq!(
        c.error_message().as_deref(),
        Some("Failed to parse server message: expected value at line 1 column 1")
    );
    assert_eq!(roster_names(&c).len(), 1);
    assert_eq!(c.messages().len(), 1);
    assert!(c.is_connected());
}

#[test]
fn unknown_kind_sets_error_only() {
    let mut c = alice();
    c.handle_frame(Ok(RawFrame { message_type: Some("typing".to_string()), data_array: None, data: None }));
    assert_eq!(
        c.error_message().as_deref(),
        Some("Failed to parse server message: unknown message type")
    );
    c.handle_frame(Ok(RawFrame { message_type: None, data_array: None, data: None }));
    assert!(c.error_message().is_some());
    assert_eq!(c.phase(), Phase::Connecting);
}

#[test]
fn register_frame_from_server_is_ignored() {
    let mut c = alice();
    c.handle_frame(Ok(RawFrame {
        message_type: Some("register".to_string()),
        data_array: None,
        data: Some(Payload { text: "mallory".to_string(), as_message: Err("no".to_string()) }),
    }));
    assert_eq!(c.error_message(), &None);
    assert_eq!(c.phase(), Phase::Connecting);
    assert!(c.users().is_empty());
}

#[test]
fn users_frame_clears_last_error() {
    let mut c = alice();
    c.handle_frame(error_frame(Some("room full")));
    c.handle_frame(users_frame(&["alice"]));
    assert_eq!(c.error_message(), &None);
    assert!(c.is_connected());
}

#[test]
fn blank_draft_is_not_sent() {
    let mut c = alice();
    c.handle_frame(error_frame(Some("room full")));
    assert_eq!(c.update(Msg::UpdateInput("  ".to_string())), None);
    assert_eq!(c.update(Msg::SubmitMessage), None);
    assert!(c.messages().is_empty());
    assert_eq!(c.error_message().as_deref(), Some("room full"));
    assert_eq!(c.input_value(), "  ");
}

#[test]
fn draft_is_sent_as_raw_text() {
    let mut c = alice();
    c.update_draft("hello \"you\"".to_string());
    let frame = c.submit().unwrap();
    assert_eq!(frame, "{\"messageType\":\"message\",\"data\":\"hello \\\"you\\\"\",\"dataArray\":null}");
    assert_eq!(c.input_value(), "hello \"you\"");
    c.message_sent(true);
    assert_eq!(c.input_value(), "");
    assert!(c.messages().is_empty());
}

#[test]
fn failed_send_keeps_draft() {
    let mut c = alice();
    c.update_draft("hi".to_string());
    assert!(c.submit().is_some());
    c.message_sent(false);
    assert_eq!(c.input_value(), "hi");
    assert_eq!(c.error_message().as_deref(), Some("Failed to send message"));
}

#[test]
fn enter_key_submits_other_keys_do_not() {
    let mut c = alice();
    c.update(Msg::UpdateInput("yo".to_string()));
    assert_eq!(c.update(Msg::OnKeyPress("a".to_string())), None);
    let frame = c.update(Msg::OnKeyPress("Enter".to_string())).unwrap();
    assert_eq!(frame, "{\"messageType\":\"message\",\"data\":\"yo\",\"dataArray\":null}");
}

#[test]
fn update_handles_frames() {
    let mut c = alice();
    assert_eq!(c.update(Msg::HandleMsg(users_frame(&["bob"]))), None);
    assert!(c.is_connected());
}

#[test]
fn blank_detects_unicode_white_space() {
    assert!(blank(""));
    assert!(blank(" \t\n\u{3000}\u{a0}"));
    assert!(!blank("  x "));
}

#[test]
fn avatar_url_depends_on_name() {
    assert_eq!(avatar_url("bob"), "https://avatars.dicebear.com/api/adventurer-neutral/bob.svg");
    assert_eq!(avatar_url("bob"), avatar_url("bob"));
    assert_ne!(avatar_url("bob"), avatar_url("alice"));
}

#[test]
fn quote_escapes_strings() {
    assert_eq!(quote("a\"b\\c\n"), "\"a\\\"b\\\\c\\n\"");
    assert_eq!(quote(""), "\"\"");
}

#[test]
fn encode_writes_lists() {
    let items = vec!["alice".to_string(), "b\"ob".to_string()];
    assert_eq!(
        encode(MsgTypes::Users, None, Some(&items)),
        "{\"messageType\":\"users\",\"data\":null,\"dataArray\":[\"alice\",\"b\\\"ob\"]}"
    );
    assert_eq!(
        encode(MsgTypes::Error, Some("x"), Some(&Vec::new())),
        "{\"messageType\":\"error\",\"data\":\"x\",\"dataArray\":[]}"
    );
}

#[test]
fn tags_round_trip() {
    for k in [MsgTypes::Users, MsgTypes::Register, MsgTypes::Message, MsgTypes::Error] {
        assert_eq!(MsgTypes::from_tag(k.tag()), Some(k));
    }
    assert_eq!(MsgTypes::from_tag("Users"), None);
}

#[test]
fn classify_checks_kind() {
    let e = classify(RawFrame { message_type: Some("error".to_string()), data_array: None, data: None }).unwrap();
    assert_eq!(e.kind, MsgTypes::Error);
    let bad = classify(RawFrame { message_type: Some("ping".to_string()), data_array: None, data: None });
    assert_eq!(bad.unwrap_err(), DecodeError::UnknownKind);
}

#[test]
fn bus_fans_out_in_order() {
    let mut bus = EventBus::new();
    let a = bus.subscribe();
    bus.publish("one");
    let b = bus.subscribe();
    bus.publish("two");
    bus.publish("three");
    assert_eq!(bus.take(a), vec!["one", "two", "three"]);
    assert_eq!(bus.take(b), vec!["two", "three"]);
    assert!(bus.take(a).is_empty());
    assert_eq!(bus.subscriber_count(), 2);
}

#[test]
fn released_subscriber_gets_nothing() {
    let mut bus = EventBus::new();
    let a = bus.subscribe();
    let b = bus.subscribe();
    bus.publish("one");
    bus.unsubscribe(a);
    bus.publish("two");
    assert!(bus.take(a).is_empty());
    assert_eq!(bus.take(b), vec!["one", "two"]);
}
