use sentry_sink::attributes::{convert_fields_to_attributes, AttributeValue};
use sentry_sink::convert::{convert_to_sentry_log, convert_to_sentry_log_at, extract_trace_id, LogLevel, TraceId};
use sentry_sink::event::{FieldValue, FloatValue, LogEvent, Timestamp};
use uuid::Uuid;

fn text(s: &str) -> FieldValue {
    FieldValue::Bytes(s.to_string())
}

fn float(f: f64) -> FieldValue {
    FieldValue::Float(FloatValue { bits: f.to_bits(), text: f.to_string() })
}

#[test]
fn sentry_test_extract_trace_id_with_trace_id_field() {
    let mut log = LogEvent::from_message("test message");
    let test_uuid = Uuid::new_v4();
    log.insert("trace_id", text(&test_uuid.to_string()));

    let (trace_id, used_field) = extract_trace_id(&log);

    assert_eq!(trace_id, TraceId(test_uuid.into_bytes()));
    assert_eq!(used_field, Some("trace_id"));
}

#[test]
fn sentry_test_extract_trace_id_with_sentry_trace_id_field() {
    let mut log = LogEvent::from_message("test message");
    let test_uuid = Uuid::new_v4();
    log.insert("sentry.trace_id", text(&test_uuid.to_string()));

    let (trace_id, used_field) = extract_trace_id(&log);

    assert_eq!(trace_id, TraceId(test_uuid.into_bytes()));
    assert_eq!(used_field, Some("sentry.trace_id"));
}

#[test]
fn sentry_test_extract_trace_id_precedence() {
    let mut log = LogEvent::from_message("test message");
    let trace_uuid = Uuid::new_v4();
    let sentry_uuid = Uuid::new_v4();

    log.insert("trace_id", text(&trace_uuid.to_string()));
    log.insert("sentry.trace_id", text(&sentry_uuid.to_string()));

    let (trace_id, used_field) = extract_trace_id(&log);

    assert_eq!(trace_id, TraceId(trace_uuid.into_bytes()));
    assert_eq!(used_field, Some("trace_id"));
}

#[test]
fn sentry_test_extract_trace_id_invalid_uuid() {
    let mut log = LogEvent::from_message("test message");
    log.insert("trace_id", text("not-a-uuid"));

    let (trace_id, used_field) = extract_trace_id(&log);

    assert_eq!(trace_id, TraceId([0u8; 16]));
    assert_eq!(used_field, None);
}

#[test]
fn sentry_test_extract_trace_id_no_trace_fields() {
    let log = LogEvent::from_message("test message");

    let (trace_id, used_field) = extract_trace_id(&log);

    assert_eq!(trace_id, TraceId([0u8; 16]));
    assert_eq!(used_field, None);
}

#[test]
fn sentry_test_convert_to_sentry_log_basic() {
    let mut log = LogEvent::from_message("test message");
    log.insert("level", text("info"));

    let sentry_log = convert_to_sentry_log(&log);

    assert_eq!(sentry_log.body, "test message");
    assert_eq!(sentry_log.level, LogLevel::Info);
    assert!(sentry_log.trace_id.is_some());
}

#[test]
fn sentry_test_convert_to_sentry_log_all_levels() {
    let test_cases = vec![
        ("trace", LogLevel::Trace),
        ("debug", LogLevel::Debug),
        ("info", LogLevel::Info),
        ("warn", LogLevel::Warn),
        ("warning", LogLevel::Warn),
        ("error", LogLevel::Error),
        ("err", LogLevel::Error),
        ("fatal", LogLevel::Fatal),
        ("critical", LogLevel::Fatal),
        ("alert", LogLevel::Fatal),
        ("emergency", LogLevel::Fatal),
        ("unknown", LogLevel::Info),
    ];

    for (level_str, expected_level) in test_cases {
        let mut log = LogEvent::from_message("test message");
        log.insert("level", text(level_str));

        let sentry_log = convert_to_sentry_log(&log);

        assert_eq!(sentry_log.level, expected_level, "Failed for level: {}", level_str);
    }
}

#[test]
fn sentry_test_convert_to_sentry_log_severity_field() {
    let mut log = LogEvent::from_message("test message");
    log.insert("severity", text("error"));

    let sentry_log = convert_to_sentry_log(&log);

    assert_eq!(sentry_log.level, LogLevel::Error);
}

#[test]
fn sentry_test_convert_to_sentry_log_sentry_level_field() {
    let mut log = LogEvent::from_message("test message");
    log.insert("sentry.level", text("warn"));

    let sentry_log = convert_to_sentry_log(&log);

    assert_eq!(sentry_log.level, LogLevel::Warn);
}

#[test]
fn sentry_test_convert_to_sentry_log_with_trace_id() {
    let mut log = LogEvent::from_message("test message");
    let test_uuid = Uuid::new_v4();
    log.insert("trace_id", text(&test_uuid.to_string()));

    let sentry_log = convert_to_sentry_log(&log);

    assert_eq!(sentry_log.trace_id.unwrap(), TraceId(test_uuid.into_bytes()));
}

#[test]
fn sentry_test_convert_to_sentry_log_no_message() {
    let log = LogEvent::new();

    let sentry_log = convert_to_sentry_log(&log);

    assert_eq!(sentry_log.body, "");
    assert_eq!(sentry_log.level, LogLevel::Info);
}

#[test]
fn sentry_test_convert_fields_to_attributes_excludes_reserved_fields() {
    let mut log = LogEvent::from_message("test message");
    log.insert("level", text("info"));
    log.insert("severity", text("high"));
    log.insert("timestamp", text("2023-01-01T00:00:00Z"));
    log.insert("trace_id", text("some-trace-id"));
    log.insert("custom_field", text("custom_value"));

    let attributes = convert_fields_to_attributes(&log, Some("trace_id"));

    assert_eq!(attributes.len(), 1);
    assert!(attributes.contains_key("custom_field"));
    assert!(!attributes.contains_key("message"));
    assert!(!attributes.contains_key("level"));
    assert!(!attributes.contains_key("severity"));
    assert!(!attributes.contains_key("timestamp"));
    assert!(!attributes.contains_key("trace_id"));
}

#[test]
fn sentry_test_convert_fields_to_attributes_different_types() {
    let mut log = LogEvent::new();
    log.insert("string_field", text("test_string"));
    log.insert("int_field", FieldValue::Integer(42i64));
    log.insert("float_field", float(3.14f64));
    log.insert("bool_field", FieldValue::Boolean(true));
    log.insert("bytes_field", text("test_bytes"));

    let attributes = convert_fields_to_attributes(&log, None);

    assert_eq!(attributes.len(), 5);

    assert!(attributes.contains_key("string_field"));
    assert!(attributes.contains_key("int_field"));
    assert!(attributes.contains_key("float_field"));
    assert!(attributes.contains_key("bool_field"));
    assert!(attributes.contains_key("bytes_field"));

    if let Some(attr) = attributes.get("string_field") {
        match attr {
            AttributeValue::Text(s) => assert_eq!(s, "test_string"),
            _ => panic!("Expected string value"),
        }
    }

    if let Some(attr) = attributes.get("int_field") {
        match attr {
            AttributeValue::Integer(n) => assert_eq!(Some(*n), Some(42)),
            _ => panic!("Expected number value"),
        }
    }

    if let Some(attr) = attributes.get("float_field") {
        match attr {
            AttributeValue::Double(bits) => assert_eq!(Some(f64::from_bits(*bits)), Some(3.14)),
            _ => panic!("Expected number value"),
        }
    }

    if let Some(attr) = attributes.get("bool_field") {
        match attr {
            AttributeValue::Boolean(b) => assert_eq!(*b, true),
            _ => panic!("Expected boolean value"),
        }
    }

    if let Some(attr) = attributes.get("bytes_field") {
        match attr {
            AttributeValue::Text(s) => assert_eq!(s, "test_bytes"),
            _ => panic!("Expected string value for bytes"),
        }
    }
}

#[test]
fn test_convert_fields_to_attributes_bytes_array() {
    // An array of bytes reaches the sink flattened into one field per index.
    let mut log = LogEvent::new();
    for (i, b) in b"test_bytes".iter().enumerate() {
        log.insert(&format!("bytes_field[{}]", i), FieldValue::Integer(*b as i64));
    }

    let attributes = convert_fields_to_attributes(&log, None);

    assert!(attributes.len() > 1);

    for i in 0..5 {
        let key = format!("bytes_field[{}]", i);
        assert!(attributes.contains_key(&key), "Missing key: {}", key);

        if let Some(attr) = attributes.get(&key) {
            match attr {
                AttributeValue::Integer(_) => {}
                _ => panic!("Expected number value for byte at index {}", i),
            }
        }
    }
}

#[test]
fn test_convert_fields_to_attributes_no_fields() {
    let log = LogEvent::from_message("test message");

    let attributes = convert_fields_to_attributes(&log, None);

    assert_eq!(attributes.len(), 0);
}

#[test]
fn test_convert_fields_to_attributes_special_float_values() {
    let mut log = LogEvent::new();
    log.insert("normal_float", float(1.23f64));
    log.insert("infinity", float(f64::INFINITY));
    log.insert("neg_infinity", float(f64::NEG_INFINITY));

    let attributes = convert_fields_to_attributes(&log, None);

    assert_eq!(attributes.len(), 3);

    if let Some(attr) = attributes.get("normal_float") {
        assert!(matches!(attr, AttributeValue::Double(_)));
    }

    if let Some(attr) = attributes.get("infinity") {
        assert!(matches!(attr, AttributeValue::Text(_)));
    }

    if let Some(attr) = attributes.get("neg_infinity") {
        assert!(matches!(attr, AttributeValue::Text(_)));
    }
}
