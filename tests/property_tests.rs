use sentry_sink::attributes::{convert_fields_to_attributes, AttributeValue};
use sentry_sink::convert::{convert_to_sentry_log_at, level_from_text, level_from_word, LogLevel, TraceId};
use sentry_sink::encoder::{SentryEncoder, Transformer};
use sentry_sink::event::{FieldValue, FloatValue, LogEvent, Timestamp};

fn text(s: &str) -> FieldValue {
    FieldValue::Bytes(s.to_string())
}

fn float(f: f64) -> FieldValue {
    FieldValue::Float(FloatValue { bits: f.to_bits(), text: f.to_string() })
}

const NOW: Timestamp = Timestamp { secs: 1_700_000_000, nanos: 5 };

#[test]
fn severity_words_in_any_case() {
    assert_eq!(level_from_text("FATAL"), LogLevel::Fatal);
    assert_eq!(level_from_text("Critical"), LogLevel::Fatal);
    assert_eq!(level_from_text("WaRnInG"), LogLevel::Warn);
    assert_eq!(level_from_text("ERR"), LogLevel::Error);
    assert_eq!(level_from_text("Debug"), LogLevel::Debug);
    assert_eq!(level_from_text("TRACE"), LogLevel::Trace);
    assert_eq!(level_from_text("notice"), LogLevel::Info);
    assert_eq!(level_from_text(""), LogLevel::Info);
}

#[test]
fn severity_of_a_non_text_level_is_info() {
    let mut log = LogEvent::new();
    log.insert("level", FieldValue::Integer(3));
    assert_eq!(convert_to_sentry_log_at(&log, NOW).level, LogLevel::Info);
}

#[test]
fn severity_field_precedence() {
    let mut log = LogEvent::new();
    log.insert("sentry.severity", text("debug"));
    assert_eq!(convert_to_sentry_log_at(&log, NOW).level, LogLevel::Debug);
    log.insert("sentry.level", text("trace"));
    assert_eq!(convert_to_sentry_log_at(&log, NOW).level, LogLevel::Trace);
    log.insert("severity", text("error"));
    assert_eq!(convert_to_sentry_log_at(&log, NOW).level, LogLevel::Error);
    log.insert("level", text("warning"));
    assert_eq!(convert_to_sentry_log_at(&log, NOW).level, LogLevel::Warn);
}

#[test]
fn unrecognised_level_wins_over_severity() {
    let mut log = LogEvent::new();
    log.insert("level", text("verbose"));
    log.insert("severity", text("fatal"));
    assert_eq!(convert_to_sentry_log_at(&log, NOW).level, LogLevel::Info);
}

#[test]
fn trace_id_falls_back_to_sentry_trace_id() {
    let mut log = LogEvent::new();
    log.insert("trace_id", text("not-a-uuid"));
    log.insert("sentry.trace_id", text("550e8400-e29b-41d4-a716-446655440000"));
    let record = convert_to_sentry_log_at(&log, NOW);
    let expected = uuid::Uuid::parse_str("550e8400-e29b-41d4-a716-446655440000").unwrap();
    assert_eq!(record.trace_id, Some(TraceId(expected.into_bytes())));
    assert!(record.attributes.contains_key("trace_id"));
    assert!(!record.attributes.contains_key("sentry.trace_id"));
}

#[test]
fn scenario_fatal_with_trace_id() {
    let mut log = LogEvent::new();
    log.insert("message", text("boom"));
    log.insert("level", text("fatal"));
    log.insert("trace_id", text("550e8400-e29b-41d4-a716-446655440000"));
    log.insert("user", text("alice"));
    let record = convert_to_sentry_log_at(&log, NOW);
    assert_eq!(record.level, LogLevel::Fatal);
    assert_eq!(record.body, "boom");
    assert_eq!(
        record.trace_id,
        Some(TraceId([
            0x55, 0x0e, 0x84, 0x00, 0xe2, 0x9b, 0x41, 0xd4, 0xa7, 0x16, 0x44, 0x66, 0x55, 0x44, 0x00,
            0x00
        ]))
    );
    assert_eq!(record.attributes.len(), 1);
    assert!(matches!(record.attributes.get("user"), Some(AttributeValue::Text(s)) if s == "alice"));
    assert!(!record.attributes.contains_key("trace_id"));
}

#[test]
fn scenario_invalid_trace_id() {
    let mut log = LogEvent::new();
    log.insert("message", text("x"));
    log.insert("trace_id", text("not-a-uuid"));
    let record = convert_to_sentry_log_at(&log, NOW);
    assert_eq!(record.trace_id, Some(TraceId([0u8; 16])));
    assert_eq!(record.attributes.len(), 1);
    assert!(matches!(record.attributes.get("trace_id"), Some(AttributeValue::Text(s)) if s == "not-a-uuid"));
}

#[test]
fn conversion_is_repeatable() {
    let mut log = LogEvent::new();
    log.insert("message", text("hello"));
    log.insert("level", text("warn"));
    log.insert("n", FieldValue::Integer(-7));
    let a = convert_to_sentry_log_at(&log, NOW);
    let b = convert_to_sentry_log_at(&log, NOW);
    let c = convert_to_sentry_log_at(&log, Timestamp { secs: 1, nanos: 0 });
    assert_eq!(format!("{:?}", a), format!("{:?}", b));
    assert_eq!(a.level, c.level);
    assert_eq!(a.body, c.body);
    assert_eq!(a.trace_id, c.trace_id);
    assert_eq!(format!("{:?}", a.attributes), format!("{:?}", c.attributes));
    assert_eq!(a.timestamp, NOW);
    assert_eq!(c.timestamp, Timestamp { secs: 1, nanos: 0 });
}

#[test]
fn event_timestamp_is_kept() {
    let mut log = LogEvent::new();
    let at = Timestamp { secs: 1_600_000_000, nanos: 123 };
    log.insert("timestamp", FieldValue::Timestamp(at));
    assert_eq!(convert_to_sentry_log_at(&log, NOW).timestamp, at);
    assert_eq!(convert_to_sentry_log_at(&log, Timestamp { secs: 9, nanos: 9 }).timestamp, at);
}

#[test]
fn textual_timestamp_falls_back_to_now() {
    let mut log = LogEvent::new();
    log.insert("timestamp", text("2023-01-01T00:00:00Z"));
    assert_eq!(convert_to_sentry_log_at(&log, NOW).timestamp, NOW);
}

#[test]
fn attribute_coercions() {
    let mut log = LogEvent::new();
    log.insert("neg", FieldValue::Integer(i64::MIN));
    log.insert("nan", float(f64::NAN));
    log.insert("inf", float(f64::INFINITY));
    log.insert("when", FieldValue::Timestamp(Timestamp { secs: 0, nanos: 0 }));
    log.insert("other", FieldValue::Other("[1,2]".to_string()));
    log.insert("sentry.level", text("warn"));
    let attributes = convert_fields_to_attributes(&log, None);
    assert_eq!(attributes.len(), 6);
    assert!(matches!(attributes.get("neg"), Some(AttributeValue::Integer(i)) if *i == i64::MIN));
    assert!(matches!(attributes.get("nan"), Some(AttributeValue::Text(s)) if s == "NaN"));
    assert!(matches!(attributes.get("inf"), Some(AttributeValue::Text(s)) if s == "inf"));
    assert!(matches!(attributes.get("when"), Some(AttributeValue::Text(s)) if s == "1970-01-01T00:00:00Z"));
    assert!(matches!(attributes.get("other"), Some(AttributeValue::Text(s)) if s == "[1,2]"));
    assert!(attributes.contains_key("sentry.level"));
}

#[test]
fn lossy_text_of_values() {
    assert_eq!(FieldValue::Integer(-1234).to_string_lossy(), "-1234");
    assert_eq!(FieldValue::Integer(0).to_string_lossy(), "0");
    assert_eq!(FieldValue::Integer(i64::MIN).to_string_lossy(), "-9223372036854775808");
    assert_eq!(FieldValue::Boolean(false).to_string_lossy(), "false");
    assert_eq!(
        FieldValue::Timestamp(Timestamp { secs: 1_700_000_000, nanos: 500_000_000 }).to_string_lossy(),
        "2023-11-14T22:13:20.500Z"
    );
}

#[test]
fn insert_replaces_in_place() {
    let mut log = LogEvent::new();
    log.insert("a", FieldValue::Integer(1));
    log.insert("b", FieldValue::Integer(2));
    log.insert("a", FieldValue::Integer(3));
    assert_eq!(log.all_fields().len(), 2);
    assert!(matches!(log.get("a"), Some(FieldValue::Integer(3))));
    assert_eq!(log.all_fields()[0].0, "a");
}

#[test]
fn transformer_redacts_and_selects() {
    let mut log = LogEvent::from_message("m");
    log.insert("secret", text("s"));
    log.insert("keep", text("k"));
    let redact = Transformer { only_fields: None, except_fields: vec!["secret".to_string()] };
    redact.transform(&mut log);
    assert!(log.get("secret").is_none());
    assert!(log.get("keep").is_some());
    assert!(log.get("message").is_some());
    let select = Transformer { only_fields: Some(vec!["keep".to_string()]), except_fields: vec![] };
    select.transform(&mut log);
    assert_eq!(log.all_fields().len(), 1);
    assert!(log.get("keep").is_some());
}

#[test]
fn encoder_converts_in_order() {
    let encoder = SentryEncoder::new(
        Transformer { only_fields: None, except_fields: vec!["user".to_string()] },
        "https://k@sentry.io/1".to_string(),
    );
    let mut first = LogEvent::from_message("one");
    first.insert("user", text("bob"));
    let second = LogEvent::from_message("two");
    let records = encoder.convert_events_at(vec![first, second], NOW);
    assert_eq!(records.len(), 2);
    assert_eq!(records[0].body, "one");
    assert_eq!(records[1].body, "two");
    assert_eq!(records[0].attributes.len(), 0);
}

#[test]
fn severity_words() {
    assert_eq!(level_from_word("warning"), LogLevel::Warn);
    assert_eq!(level_from_word("emergency"), LogLevel::Fatal);
    assert_eq!(level_from_word("err"), LogLevel::Error);
    assert_eq!(level_from_word("WARN"), LogLevel::Info);
}

#[test]
fn byte_string_is_one_text_attribute() {
    // A raw byte sequence reaches the sink as one value, held as its lossy
    // UTF-8 text, and becomes a single text attribute.
    let mut log = LogEvent::new();
    log.insert("payload", FieldValue::Bytes(String::from_utf8_lossy(b"test_bytes\xff").into_owned()));
    let attributes = convert_fields_to_attributes(&log, None);
    assert_eq!(attributes.len(), 1);
    assert!(matches!(attributes.get("payload"), Some(AttributeValue::Text(s)) if s == "test_bytes\u{fffd}"));
}
