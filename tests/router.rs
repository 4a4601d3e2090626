use whatsapp_store::{route_event, should_store, Event, Message, MessageType, Route, Timestamp};

fn received(id: &str, text: Option<&str>) -> Message {
    Message {
        id: id.to_string(),
        from_me: false,
        timestamp: Timestamp::new(2024, 1, 1, 12, 0, 0).unwrap(),
        message_type: MessageType::Text,
        chat_jid: "123@chat".to_string(),
        text: text.map(|t| t.to_string()),
    }
}

#[test]
fn message_with_text_is_stored() {
    let m = received("m1", Some("hello"));
    assert!(should_store(&m));
    assert_eq!(route_event(&Event::MessageReceived(m)), Route::Store);
}

#[test]
fn message_without_text_is_not_stored() {
    assert_eq!(route_event(&Event::MessageReceived(received("m2", None))), Route::Ignore);
    assert_eq!(route_event(&Event::MessageReceived(received("m3", Some("")))), Route::Ignore);
}

#[test]
fn message_without_id_is_not_stored() {
    assert!(!should_store(&received("", Some("hello"))));
    assert_eq!(route_event(&Event::MessageReceived(received("", Some("hello")))), Route::Ignore);
}

#[test]
fn message_with_invalid_time_is_not_stored() {
    let mut m = received("m4", Some("hello"));
    m.timestamp.month = 13;
    assert!(!should_store(&m));
}

#[test]
fn client_state_changes_are_reported() {
    assert_eq!(route_event(&Event::Connected), Route::Report);
    assert_eq!(route_event(&Event::Disconnected), Route::Report);
    assert_eq!(route_event(&Event::QrCodeGenerated("qr".to_string())), Route::Report);
    assert_eq!(route_event(&Event::LoggedIn("me@chat".to_string())), Route::Report);
    assert_eq!(route_event(&Event::LoggedOut), Route::Report);
    assert_eq!(route_event(&Event::Other), Route::Ignore);
}
