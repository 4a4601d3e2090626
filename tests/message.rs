use whatsapp_store::{
    month_length, push_padded, read_number, Message, MessageRow, MessageType, SqlValue, Timestamp,
};

fn sample(text: Option<&str>) -> Message {
    Message {
        id: "m1".to_string(),
        from_me: false,
        timestamp: Timestamp::new(2023, 12, 31, 23, 59, 58).unwrap(),
        message_type: MessageType::Text,
        chat_jid: "123@chat".to_string(),
        text: text.map(|t| t.to_string()),
    }
}

#[test]
fn timestamp_text_is_fixed_width() {
    let t = Timestamp::new(7, 1, 2, 3, 4, 5).unwrap();
    assert_eq!(t.to_text(), "0007-01-02T03:04:05Z");
    let t = Timestamp::new(2024, 2, 29, 23, 59, 59).unwrap();
    assert_eq!(t.to_text(), "2024-02-29T23:59:59Z");
}

#[test]
fn timestamp_text_orders_as_time() {
    let a = Timestamp::new(999, 12, 31, 23, 59, 59).unwrap().to_text();
    let b = Timestamp::new(1000, 1, 1, 0, 0, 0).unwrap().to_text();
    let c = Timestamp::new(1000, 1, 1, 0, 0, 1).unwrap().to_text();
    assert!(a < b && b < c);
}

#[test]
fn timestamp_new_checks_calendar() {
    assert!(Timestamp::new(2023, 2, 29, 0, 0, 0).is_none());
    assert!(Timestamp::new(2000, 2, 29, 0, 0, 0).is_some());
    assert!(Timestamp::new(1900, 2, 29, 0, 0, 0).is_none());
    assert!(Timestamp::new(2024, 4, 31, 0, 0, 0).is_none());
    assert!(Timestamp::new(2024, 13, 1, 0, 0, 0).is_none());
    assert!(Timestamp::new(2024, 0, 1, 0, 0, 0).is_none());
    assert!(Timestamp::new(2024, 1, 0, 0, 0, 0).is_none());
    assert!(Timestamp::new(2024, 1, 1, 24, 0, 0).is_none());
    assert!(Timestamp::new(2024, 1, 1, 0, 60, 0).is_none());
    assert!(Timestamp::new(2024, 1, 1, 0, 0, 60).is_none());
    assert!(Timestamp::new(10000, 1, 1, 0, 0, 0).is_none());
    assert!(Timestamp::new(9999, 12, 31, 23, 59, 59).is_some());
}

#[test]
fn month_lengths() {
    assert_eq!(month_length(2024, 2), 29);
    assert_eq!(month_length(2023, 2), 28);
    assert_eq!(month_length(2100, 2), 28);
    assert_eq!(month_length(2000, 2), 29);
    assert_eq!(month_length(2023, 4), 30);
    assert_eq!(month_length(2023, 12), 31);
}

#[test]
fn timestamp_parse_reads_text_back() {
    let t = Timestamp::new(2024, 3, 15, 9, 5, 7).unwrap();
    assert_eq!(Timestamp::parse(&t.to_text()), Some(t));
    assert_eq!(Timestamp::parse("2024-03-15T09:05:07Z"), Some(t));
}

#[test]
fn timestamp_parse_rejects_other_text() {
    assert_eq!(Timestamp::parse(""), None);
    assert_eq!(Timestamp::parse("2024-03-15 09:05:07Z"), None);
    assert_eq!(Timestamp::parse("2024-03-15T09:05:07"), None);
    assert_eq!(Timestamp::parse("2024-0a-15T09:05:07Z"), None);
    assert_eq!(Timestamp::parse("2023-02-29T09:05:07Z"), None);
    assert_eq!(Timestamp::parse("2024-03-15T24:05:07Z"), None);
}

#[test]
fn digits_are_padded_and_read() {
    let mut s = "x".to_string();
    push_padded(&mut s, 42, 4);
    assert_eq!(s, "x0042");
    let mut s = String::new();
    push_padded(&mut s, 12345, 3);
    assert_eq!(s, "345");
    assert_eq!(read_number("ab0917", 2, 4), Some(917));
    assert_eq!(read_number("ab09x7", 2, 4), None);
    assert_eq!(read_number("ab", 1, 0), Some(0));
}

#[test]
fn message_type_names() {
    assert_eq!(MessageType::Text.name(), "Text");
    assert_eq!(MessageType::Document.name(), "Document");
    assert_eq!(MessageType::System.name(), "System");
    assert_eq!(MessageType::from_name(&"Sticker".to_string()), Some(MessageType::Sticker));
    assert_eq!(MessageType::from_name(&"text".to_string()), None);
}

#[test]
fn row_holds_serialized_fields() {
    let row = MessageRow::from_message(&sample(Some("hello")));
    assert_eq!(row.id, "m1");
    assert_eq!(row.from_me, 0);
    assert_eq!(row.timestamp, "2023-12-31T23:59:58Z");
    assert_eq!(row.message_type, "Text");
    assert_eq!(row.chat_jid, "123@chat");
    assert_eq!(row.text, Some("hello".to_string()));
    let row = MessageRow::from_message(&sample(None));
    assert_eq!(row.text, None);
}

#[test]
fn row_reads_back_as_message() {
    for text in [Some("hello"), None, Some("")] {
        let m = sample(text);
        let back = MessageRow::from_message(&m).to_message().unwrap();
        assert_eq!(back.id, m.id);
        assert_eq!(back.from_me, m.from_me);
        assert_eq!(back.timestamp, m.timestamp);
        assert_eq!(back.message_type, m.message_type);
        assert_eq!(back.chat_jid, m.chat_jid);
        assert_eq!(back.text, m.text);
    }
}

#[test]
fn row_with_bad_column_reads_back_as_none() {
    let mut row = MessageRow::from_message(&sample(None));
    row.from_me = 2;
    assert!(row.to_message().is_none());
    let mut row = MessageRow::from_message(&sample(None));
    row.message_type = "Gif".to_string();
    assert!(row.to_message().is_none());
}

#[test]
fn row_params_in_column_order() {
    let row = MessageRow::from_message(&sample(None));
    let p = row.params();
    assert_eq!(p.len(), 6);
    assert!(matches!(&p[0], SqlValue::Text(t) if t == "m1"));
    assert!(matches!(&p[1], SqlValue::Integer(0)));
    assert!(matches!(&p[2], SqlValue::Text(t) if t == "2023-12-31T23:59:58Z"));
    assert!(matches!(&p[3], SqlValue::Text(t) if t == "Text"));
    assert!(matches!(&p[4], SqlValue::Text(t) if t == "123@chat"));
    assert!(matches!(&p[5], SqlValue::Null));
}
