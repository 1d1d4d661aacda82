use mongodb::bson::DateTime;
use skyserver::frame::{encode_message, encode_message_list, frame_from_parts};
use skyserver::history::{after_bound, messages_after, posted_instant, read_instant, stamp};
use skyserver::message::{ChatError, ChatMessage};

fn day(year: i32, month: u8, day: u8) -> i64 {
    DateTime::builder()
        .year(year)
        .month(month)
        .day(day)
        .build()
        .expect("Should build without errors")
        .timestamp_millis()
}

fn msg(username: &str, message: &str, datetime: i64) -> ChatMessage {
    ChatMessage { username: String::from(username), message: String::from(message), datetime }
}

#[test]
fn only_gets_later_messages() {
    let early_message = msg("testuser", "Early Message", day(2005, 1, 1));
    let late_message = msg("testuser", "Late Message", day(2105, 1, 1));
    let stored = vec![early_message.clone(), late_message.clone()];
    let retrieved_messages = messages_after(&stored, day(2100, 1, 1));
    assert_eq!(retrieved_messages.len(), 1);
    assert_eq!(retrieved_messages[0], late_message);
}

#[test]
fn equal_instant_is_not_after() {
    let stored = vec![msg("a", "x", 10), msg("b", "y", 11), msg("c", "z", 10), msg("d", "w", 12)];
    let kept = messages_after(&stored, 10);
    assert_eq!(kept, vec![msg("b", "y", 11), msg("d", "w", 12)]);
    assert!(messages_after(&Vec::new(), 0).is_empty());
}

#[test]
fn bound_is_rfc3339_text() {
    assert_eq!(after_bound(day(2100, 1, 1)), Some(String::from("2100-01-01T00:00:00Z")));
    assert_eq!(after_bound(0), Some(String::from("1970-01-01T00:00:00Z")));
}

#[test]
fn frame_has_exact_text() {
    let m = msg("u1", "say \"hi\"", 1500);
    assert_eq!(
        encode_message(&m),
        Some(String::from(
            "{\"username\":\"u1\",\"message\":\"say \\\"hi\\\"\",\"datetime\":\"1970-01-01T00:00:01.5Z\"}"
        ))
    );
    assert_eq!(frame_from_parts("\"a\"", "\"b\"", "\"c\""), "{\"username\":\"a\",\"message\":\"b\",\"datetime\":\"c\"}");
}

#[test]
fn list_of_one_message() {
    let m = msg("u1", "hello", 0);
    assert_eq!(
        encode_message_list(&vec![m]),
        Some(String::from("[{\"username\":\"u1\",\"message\":\"hello\",\"datetime\":\"1970-01-01T00:00:00Z\"}]"))
    );
    assert_eq!(encode_message_list(&Vec::new()), Some(String::from("[]")));
    let two = vec![msg("a", "1", 0), msg("b", "2", 0)];
    let text = encode_message_list(&two).expect("encodable");
    let value: serde_json::Value = serde_json::from_str(&text).expect("valid JSON");
    assert_eq!(value.as_array().map(|a| a.len()), Some(2));
}

#[test]
fn can_get_messages() {
    let sample = msg(
        "testuser",
        "Post Test Message",
        DateTime::builder()
            .year(1983)
            .month(8)
            .day(19)
            .hour(23)
            .minute(15)
            .second(30)
            .build()
            .expect("Should build without errors")
            .timestamp_millis(),
    );
    assert_eq!(sample.datetime, 430182930000);
    let text = encode_message_list(&vec![sample.clone()]).expect("encodable");
    let value: serde_json::Value = serde_json::from_str(&text).expect("Deserializable chat message");
    let items = value.as_array().expect("array");
    assert!(items.iter().any(|v| v["username"] == "testuser"
        && v["message"] == "Post Test Message"
        && v["datetime"] == "1983-08-19T23:15:30Z"));
}

#[test]
fn instants_outside_years_zero_to_9999_have_no_frame() {
    assert!(encode_message(&msg("u", "m", 253402300799999)).is_some());
    assert_eq!(encode_message(&msg("u", "m", 253402300800000)), None);
    assert!(encode_message(&msg("u", "m", -62167219200000)).is_some());
    assert_eq!(encode_message(&msg("u", "m", -62167219200001)), None);
    assert_eq!(encode_message_list(&vec![msg("a", "1", 0), msg("b", "2", i64::MAX)]), None);
    assert_eq!(after_bound(i64::MIN), None);
    assert_eq!(after_bound(253402300799999), Some(String::from("9999-12-31T23:59:59.999Z")));
}

#[test]
fn control_characters_are_escaped() {
    let m = msg("a\\b", "x\u{1}\u{1f}\t\u{8}\u{c}\r\n\u{7f}\u{e9}", 0);
    assert_eq!(
        encode_message(&m),
        Some(String::from(
            "{\"username\":\"a\\\\b\",\"message\":\"x\\u0001\\u001f\\t\\b\\f\\r\\n\u{7f}\u{e9}\",\"datetime\":\"1970-01-01T00:00:00Z\"}"
        ))
    );
}

#[test]
fn posted_instant_defaults_to_now() {
    assert_eq!(stamp(None, 77), 77);
    assert_eq!(stamp(Some(5), 77), 5);
    assert_eq!(posted_instant(None, 1234), Ok(1234));
    assert_eq!(posted_instant(Some("2105-01-01T00:00:00Z"), 1234), Ok(day(2105, 1, 1)));
    assert_eq!(posted_instant(Some("not a date"), 1234), Err(ChatError::WriteRejected));
    assert_eq!(read_instant("1970-01-01T00:00:01.5Z"), Ok(1500));
    assert_eq!(read_instant(""), Err(ChatError::WriteRejected));
}

#[test]
fn frame_round_trips_to_the_millisecond() {
    for (i, t) in [0i64, 1, 999, 1_234_567_890_123, day(2105, 1, 1) + 7, -86_400_001].iter().enumerate() {
        let m = msg("user", &format!("text {} \u{e9}\n\"q\"", i), *t);
        let text = encode_message(&m).expect("encodable");
        let value: serde_json::Value = serde_json::from_str(&text).expect("valid JSON");
        let back = ChatMessage {
            username: value["username"].as_str().expect("string").to_string(),
            message: value["message"].as_str().expect("string").to_string(),
            datetime: DateTime::parse_rfc3339_str(value["datetime"].as_str().expect("string"))
                .expect("RFC 3339")
                .timestamp_millis(),
        };
        assert_eq!(back, m);
    }
}
