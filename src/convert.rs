//! Conversion of a generic log event into the backend's log record.

use vstd::prelude::*;
use crate::attributes::{attribute_entries, convert_fields_to_attributes, AttributeView, Attributes};
use crate::event::{field_value, lossy_text, FieldValue, LogEvent, Timestamp};
use crate::text::text_eq;

verus! {

/// The severity of a log record.
#[derive(Clone, Copy, Debug, PartialEq, Eq, Structural)]
pub enum LogLevel {
    Trace,
    Debug,
    Info,
    Warn,
    Error,
    Fatal,
}

/// The severity that a lower-case severity word stands for; any other word
/// stands for `Info`.
pub open spec fn level_of_word(w: Seq<char>) -> LogLevel {
    if w == "trace"@ {
        LogLevel::Trace
    } else if w == "debug"@ {
        LogLevel::Debug
    } else if w == "info"@ {
        LogLevel::Info
    } else if w == "warn"@ || w == "warning"@ {
        LogLevel::Warn
    } else if w == "error"@ || w == "err"@ {
        LogLevel::Error
    } else if w == "fatal"@ || w == "critical"@ || w == "alert"@ || w == "emergency"@ {
        LogLevel::Fatal
    } else {
        LogLevel::Info
    }
}

/// A name for the lower-case form of a text, as `str::to_lowercase` gives it.
pub uninterp spec fn lower_of(s: Seq<char>) -> Seq<char>;

/// Relies on `str::to_lowercase`: the lower-case form of a text, which
/// depends on its characters alone.
#[verifier::external_body]
fn to_lowercase(s: &str) -> (r: String)
    ensures
        r@ == lower_of(s@),
{
    s.to_lowercase()
}

/// The first of the fields `level`, `severity`, `sentry.level` and
/// `sentry.severity` that the event has.
pub open spec fn severity_field(fields: Seq<(String, FieldValue)>) -> Option<FieldValue> {
    if field_value(fields, "level"@) is Some {
        field_value(fields, "level"@)
    } else if field_value(fields, "severity"@) is Some {
        field_value(fields, "severity"@)
    } else if field_value(fields, "sentry.level"@) is Some {
        field_value(fields, "sentry.level"@)
    } else {
        field_value(fields, "sentry.severity"@)
    }
}

/// The severity of an event: the word of its first severity field, lower-cased;
/// `Info` where it has none.
pub open spec fn severity_of(fields: Seq<(String, FieldValue)>) -> LogLevel {
    match severity_field(fields) {
        Some(v) => level_of_word(lower_of(lossy_text(v))),
        None => LogLevel::Info,
    }
}

/// The severity that a lower-case word names.
pub fn level_from_word(w: &str) -> (r: LogLevel)
    ensures
        r == level_of_word(w@),
{
    if text_eq(w, "trace") {
        LogLevel::Trace
    } else if text_eq(w, "debug") {
        LogLevel::Debug
    } else if text_eq(w, "info") {
        LogLevel::Info
    } else if text_eq(w, "warn") || text_eq(w, "warning") {
        LogLevel::Warn
    } else if text_eq(w, "error") || text_eq(w, "err") {
        LogLevel::Error
    } else if text_eq(w, "fatal") || text_eq(w, "critical") || text_eq(w, "alert")
        || text_eq(w, "emergency") {
        LogLevel::Fatal
    } else {
        LogLevel::Info
    }
}

/// The severity that a text names, whatever its case.
pub fn level_from_text(text: &str) -> (r: LogLevel)
    ensures
        r == level_of_word(lower_of(text@)),
{
    let lower = to_lowercase(text);
    level_from_word(lower.as_str())
}

/// The severity of an event.
pub fn extract_level(log: &LogEvent) -> (r: LogLevel)
    ensures
        r == severity_of(log.fields()),
{
    let found = match log.get("level") {
        Some(v) => Some(v),
        None => match log.get("severity") {
            Some(v) => Some(v),
            None => match log.get("sentry.level") {
                Some(v) => Some(v),
                None => log.get("sentry.severity"),
            },
        },
    };
    match found {
        Some(v) => {
            let text = v.to_string_lossy();
            level_from_text(text.as_str())
        },
        None => LogLevel::Info,
    }
}

/// A 128-bit correlation id.
#[derive(Clone, Copy, Debug, PartialEq, Eq)]
pub struct TraceId(pub [u8; 16]);

/// The all-zero correlation id, which stands for "none".
pub open spec fn zero_id() -> Seq<u8> {
    Seq::new(16, |i: int| 0u8)
}

/// A name for the bytes of the UUID that `uuid::Uuid::parse_str` reads from a
/// text, or `None` where it reads none.
pub uninterp spec fn uuid_bytes_of(s: Seq<char>) -> Option<Seq<u8>>;

/// The value of an ASCII hexadecimal digit, in either case.
pub open spec fn hex_value(c: char) -> Option<nat> {
    if '0' <= c <= '9' {
        Some((c as u32 - '0' as u32) as nat)
    } else if 'a' <= c <= 'f' {
        Some((c as u32 - 'a' as u32 + 10) as nat)
    } else if 'A' <= c <= 'F' {
        Some((c as u32 - 'A' as u32 + 10) as nat)
    } else {
        None
    }
}

/// Where the `j`-th of the 32 hex digits stands in the hyphenated form.
pub open spec fn hyphenated_position(j: int) -> int {
    if j < 8 {
        j
    } else if j < 12 {
        j + 1
    } else if j < 16 {
        j + 2
    } else if j < 20 {
        j + 3
    } else {
        j + 4
    }
}

/// The bytes of a UUID in hyphenated form (`8-4-4-4-12` hex digits), if the
/// text is one.
pub open spec fn hyphenated_uuid(s: Seq<char>) -> Option<Seq<u8>> {
    if s.len() == 36 && s[8] == '-' && s[13] == '-' && s[18] == '-' && s[23] == '-' && (forall|j: int|
        0 <= j < 32 ==> #[trigger] hex_value(s[hyphenated_position(j)]) is Some) {
        Some(
            Seq::new(
                16,
                |k: int|
                    (hex_value(s[hyphenated_position(2 * k)])->Some_0 * 16 + hex_value(
                        s[hyphenated_position(2 * k + 1)],
                    )->Some_0) as u8,
            ),
        )
    } else {
        None
    }
}

/// Relies on `uuid::Uuid::parse_str` and `Uuid::into_bytes`: the sixteen bytes
/// of the UUID written in a text (simple, hyphenated, braced or URN form);
/// a hyphenated one is read digit pair by digit pair (uuid's `parse_hyphenated`).
#[verifier::external_body]
fn parse_uuid(s: &str) -> (r: Option<[u8; 16]>)
    ensures
        match r {
            Some(b) => uuid_bytes_of(s@) == Some(b@) && (hyphenated_uuid(s@) is Some ==> b@
                == hyphenated_uuid(s@)->Some_0),
            None => uuid_bytes_of(s@) is None && hyphenated_uuid(s@) is None,
        },
{
    uuid::Uuid::parse_str(s).ok().map(|u| u.into_bytes())
}

/// The UUID that the field named `key` holds, if it has one.
pub open spec fn uuid_in_field(fields: Seq<(String, FieldValue)>, key: Seq<char>) -> Option<Seq<u8>> {
    match field_value(fields, key) {
        Some(v) => uuid_bytes_of(lossy_text(v)),
        None => None,
    }
}

/// The correlation id of an event and the field it came from: the first of
/// `trace_id` and `sentry.trace_id` that holds a UUID, else the zero id.
pub open spec fn trace_source(fields: Seq<(String, FieldValue)>) -> (Seq<u8>, Option<Seq<char>>) {
    match uuid_in_field(fields, "trace_id"@) {
        Some(b) => (b, Some("trace_id"@)),
        None => match uuid_in_field(fields, "sentry.trace_id"@) {
            Some(b) => (b, Some("sentry.trace_id"@)),
            None => (zero_id(), None),
        },
    }
}

fn uuid_in(log: &LogEvent, key: &str) -> (r: Option<[u8; 16]>)
    ensures
        match r {
            Some(b) => uuid_in_field(log.fields(), key@) == Some(b@),
            None => uuid_in_field(log.fields(), key@) is None,
        },
{
    match log.get(key) {
        Some(v) => {
            let text = v.to_string_lossy();
            parse_uuid(text.as_str())
        },
        None => None,
    }
}

/// The correlation id of an event, and the name of the field it was read from.
pub fn extract_trace_id(log: &LogEvent) -> (r: (TraceId, Option<&'static str>))
    ensures
        r.0.0@ == trace_source(log.fields()).0,
        match trace_source(log.fields()).1 {
            Some(k) => r.1 matches Some(used) && used@ == k,
            None => r.1 is None,
        },
{
    match uuid_in(log, "trace_id") {
        Some(b) => (TraceId(b), Some("trace_id")),
        None => match uuid_in(log, "sentry.trace_id") {
            Some(b) => (TraceId(b), Some("sentry.trace_id")),
            None => {
                let zero = [0u8; 16];
                assert(zero@ =~= zero_id());
                (TraceId(zero), None)
            },
        },
    }
}

/// A log record in the backend's shape.
#[derive(Clone, Debug)]
pub struct LogRecord {
    pub level: LogLevel,
    pub body: String,
    pub trace_id: Option<TraceId>,
    pub timestamp: Timestamp,
    pub attributes: Attributes,
}

/// What a log record holds, with text as characters.
pub struct RecordView {
    pub level: LogLevel,
    pub body: Seq<char>,
    pub trace_id: Option<Seq<u8>>,
    pub timestamp: Timestamp,
    pub attributes: Seq<(Seq<char>, AttributeView)>,
}

impl View for LogRecord {
    type V = RecordView;

    open spec fn view(&self) -> RecordView {
        RecordView {
            level: self.level,
            body: self.body@,
            trace_id: match self.trace_id {
                Some(t) => Some(t.0@),
                None => None,
            },
            timestamp: self.timestamp,
            attributes: self.attributes@,
        }
    }
}

/// The body of an event: the text of its `message` field, else empty text.
pub open spec fn body_of(fields: Seq<(String, FieldValue)>) -> Seq<char> {
    match field_value(fields, "message"@) {
        Some(v) => lossy_text(v),
        None => Seq::empty(),
    }
}

/// The instant of an event: its `timestamp` field where that holds an
/// instant, else `now`.
pub open spec fn timestamp_of(fields: Seq<(String, FieldValue)>, now: Timestamp) -> Timestamp {
    match field_value(fields, "timestamp"@) {
        Some(FieldValue::Timestamp(t)) => t,
        _ => now,
    }
}

/// The record that an event converts to when the time of conversion is `now`.
pub open spec fn converted_record(fields: Seq<(String, FieldValue)>, now: Timestamp) -> RecordView {
    RecordView {
        level: severity_of(fields),
        body: body_of(fields),
        trace_id: Some(trace_source(fields).0),
        timestamp: timestamp_of(fields, now),
        attributes: attribute_entries(fields, trace_source(fields).1),
    }
}

/// Converts an event into a log record, with `now` as the time of conversion.
pub fn convert_to_sentry_log_at(log: &LogEvent, now: Timestamp) -> (r: LogRecord)
    ensures
        r@ == converted_record(log.fields(), now),
{
    let timestamp = match log.get("timestamp") {
        Some(FieldValue::Timestamp(t)) => *t,
        _ => now,
    };
    let body = match log.get("message") {
        Some(v) => v.to_string_lossy(),
        None => String::new(),
    };
    let level = extract_level(log);
    let (trace_id, used_trace_field) = extract_trace_id(log);
    let attributes = convert_fields_to_attributes(log, used_trace_field);
    LogRecord { level, body, trace_id: Some(trace_id), timestamp, attributes }
}

/// Relies on `std::time::SystemTime::now`: the current instant, as the time
/// since the Unix epoch; a clock set before the epoch reads as the epoch.
/// `Duration::subsec_nanos` is always below one billion; nothing else is
/// known of it.
#[verifier::external_body]
pub(crate) fn current_time() -> (r: Timestamp)
    ensures
        r.nanos < 1_000_000_000,
{
    let since = std::time::SystemTime::now().duration_since(std::time::UNIX_EPOCH).unwrap_or_default();
    Timestamp { secs: since.as_secs() as i64, nanos: since.subsec_nanos() }
}

/// Converts an event into a log record; an event without an instant of its
/// own is stamped with the current time.
pub fn convert_to_sentry_log(log: &LogEvent) -> (r: LogRecord)
    ensures
        exists|now: Timestamp| r@ == converted_record(log.fields(), now),
{
    let now = current_time();
    convert_to_sentry_log_at(log, now)
}

} // verus!
