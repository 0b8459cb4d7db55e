//! Properties of the conversion that relate several fields or several calls.

use vstd::prelude::*;
use crate::attributes::{attribute_entries, attribute_view_of, is_reserved};
use crate::convert::{
    converted_record, level_of_word, lower_of, severity_of, trace_source, uuid_in_field, zero_id,
    LogLevel,
};
use crate::event::{
    field_value, find_field, keys_unique, lemma_find_field, lossy_text, FieldValue, Timestamp,
};

verus! {

/// The severity follows the lower-cased text of the `level` field: `trace`,
/// `debug` and `info` name their levels, `warn` and `warning` name `Warn`,
/// `error` and `err` name `Error`, `fatal`, `critical`, `alert` and
/// `emergency` name `Fatal`, and any other text gives `Info`. An event with
/// none of `level`, `severity`, `sentry.level` and `sentry.severity` is `Info`.
pub proof fn severity_mapping(fields: Seq<(String, FieldValue)>)
    ensures
        field_value(fields, "level"@) matches Some(v) ==> {
            let w = lower_of(lossy_text(v));
            &&& w == "trace"@ ==> severity_of(fields) == LogLevel::Trace
            &&& w == "debug"@ ==> severity_of(fields) == LogLevel::Debug
            &&& w == "info"@ ==> severity_of(fields) == LogLevel::Info
            &&& (w == "warn"@ || w == "warning"@) ==> severity_of(fields) == LogLevel::Warn
            &&& (w == "error"@ || w == "err"@) ==> severity_of(fields) == LogLevel::Error
            &&& (w == "fatal"@ || w == "critical"@ || w == "alert"@ || w == "emergency"@)
                ==> severity_of(fields) == LogLevel::Fatal
            &&& (w != "trace"@ && w != "debug"@ && w != "warn"@ && w != "warning"@ && w
                != "error"@ && w != "err"@ && w != "fatal"@ && w != "critical"@ && w != "alert"@
                && w != "emergency"@) ==> severity_of(fields) == LogLevel::Info
        },
        (field_value(fields, "level"@) is None && field_value(fields, "severity"@) is None
            && field_value(fields, "sentry.level"@) is None && field_value(
            fields,
            "sentry.severity"@,
        ) is None) ==> severity_of(fields) == LogLevel::Info,
{
    reveal_strlit("trace");
    reveal_strlit("debug");
    reveal_strlit("info");
    reveal_strlit("warn");
    reveal_strlit("warning");
    reveal_strlit("error");
    reveal_strlit("err");
    reveal_strlit("fatal");
    reveal_strlit("critical");
    reveal_strlit("alert");
    reveal_strlit("emergency");
    assert("trace"@[0] == 't' && "debug"@[0] == 'd' && "error"@[0] == 'e' && "fatal"@[0] == 'f'
        && "alert"@[0] == 'a' && "info"@[0] == 'i' && "warn"@[0] == 'w');
    assert("trace"@.len() == 5 && "debug"@.len() == 5 && "info"@.len() == 4 && "warn"@.len() == 4
        && "warning"@.len() == 7 && "error"@.len() == 5 && "err"@.len() == 3 && "fatal"@.len() == 5
        && "critical"@.len() == 8 && "alert"@.len() == 5 && "emergency"@.len() == 9);
    assert(level_of_word("error"@) == LogLevel::Error);
    assert(level_of_word("err"@) == LogLevel::Error);
    assert(level_of_word("fatal"@) == LogLevel::Fatal);
    assert(level_of_word("critical"@) == LogLevel::Fatal);
    assert(level_of_word("alert"@) == LogLevel::Fatal);
    assert(level_of_word("emergency"@) == LogLevel::Fatal);
}

/// `level` goes before `severity`, which goes before `sentry.level`, which
/// goes before `sentry.severity`; a UUID in `trace_id` goes before one in
/// `sentry.trace_id`.
pub proof fn field_precedence(fields: Seq<(String, FieldValue)>)
    ensures
        field_value(fields, "level"@) matches Some(v) ==> severity_of(fields) == level_of_word(
            lower_of(lossy_text(v)),
        ),
        field_value(fields, "level"@) is None ==> (field_value(fields, "severity"@) matches Some(v)
            ==> severity_of(fields) == level_of_word(lower_of(lossy_text(v)))),
        field_value(fields, "level"@) is None && field_value(fields, "severity"@) is None ==> (
        field_value(fields, "sentry.level"@) matches Some(v) ==> severity_of(fields)
            == level_of_word(lower_of(lossy_text(v)))),
        field_value(fields, "level"@) is None && field_value(fields, "severity"@) is None
            && field_value(fields, "sentry.level"@) is None ==> (field_value(
            fields,
            "sentry.severity"@,
        ) matches Some(v) ==> severity_of(fields) == level_of_word(lower_of(lossy_text(v)))),
        uuid_in_field(fields, "trace_id"@) matches Some(b) ==> trace_source(fields) == (
            b,
            Some("trace_id"@),
        ),
        uuid_in_field(fields, "trace_id"@) is None ==> (uuid_in_field(fields, "sentry.trace_id"@)
            matches Some(b) ==> trace_source(fields) == (b, Some("sentry.trace_id"@))),
{
}

proof fn lemma_key_absent(fields: Seq<(String, FieldValue)>, used: Option<Seq<char>>, key: Seq<char>)
    requires
        used == Some(key),
    ensures
        forall|i: int|
            0 <= i < attribute_entries(fields, used).len() ==> #[trigger] attribute_entries(
                fields,
                used,
            )[i].0 != key,
    decreases fields.len(),
{
    if fields.len() > 0 {
        let before = attribute_entries(fields.drop_last(), used);
        let entries = attribute_entries(fields, used);
        lemma_key_absent(fields.drop_last(), used, key);
        assert forall|i: int| 0 <= i < entries.len() implies #[trigger] entries[i].0 != key by {
            if i < before.len() {
                assert(entries[i] == before[i]);
            }
        }
    }
}

proof fn lemma_field_present(fields: Seq<(String, FieldValue)>, used: Option<Seq<char>>, j: int)
    requires
        0 <= j < fields.len(),
        !is_reserved(fields[j].0@, used),
    ensures
        exists|i: int|
            0 <= i < attribute_entries(fields, used).len() && #[trigger] attribute_entries(
                fields,
                used,
            )[i] == (fields[j].0@, attribute_view_of(fields[j].1)),
    decreases fields.len(),
{
    let entries = attribute_entries(fields, used);
    if j == fields.len() - 1 {
        assert(entries[entries.len() - 1] == (fields[j].0@, attribute_view_of(fields[j].1)));
    } else {
        let init = fields.drop_last();
        assert(init[j] == fields[j]);
        lemma_field_present(init, used, j);
        let before = attribute_entries(init, used);
        let i = choose|i: int|
            0 <= i < before.len() && #[trigger] before[i] == (
                init[j].0@,
                attribute_view_of(init[j].1),
            );
        assert(entries[i] == before[i]);
    }
}

/// A `trace_id` field that holds a UUID is left out of the attributes. One
/// that holds none stays among them with its own value; where
/// `sentry.trace_id` holds no UUID either, the correlation id is all zeros.
pub proof fn trace_field_attribute(fields: Seq<(String, FieldValue)>, now: Timestamp)
    ensures
        uuid_in_field(fields, "trace_id"@) is Some ==> forall|i: int|
            0 <= i < converted_record(fields, now).attributes.len() ==> (
            #[trigger] converted_record(fields, now).attributes[i]).0 != "trace_id"@,
        field_value(fields, "trace_id"@) is Some && uuid_in_field(fields, "trace_id"@) is None
            ==> exists|i: int|
            0 <= i < converted_record(fields, now).attributes.len() && #[trigger] converted_record(fields, now).attributes[i] == (
                "trace_id"@,
                attribute_view_of(field_value(fields, "trace_id"@)->Some_0),
            ),
        field_value(fields, "trace_id"@) is Some && uuid_in_field(fields, "trace_id"@) is None
            && uuid_in_field(fields, "sentry.trace_id"@) is None ==> converted_record(fields, now).trace_id == Some(zero_id()),
{
    reveal_strlit("trace_id");
    reveal_strlit("sentry.trace_id");
    reveal_strlit("message");
    reveal_strlit("level");
    reveal_strlit("severity");
    reveal_strlit("timestamp");
    assert("trace_id"@[0] == 't' && "severity"@[0] == 's');
    assert("trace_id"@.len() == 8 && "message"@.len() == 7 && "level"@.len() == 5
        && "timestamp"@.len() == 9 && "sentry.trace_id"@.len() == 15);
    let used = trace_source(fields).1;
    if uuid_in_field(fields, "trace_id"@) is Some {
        lemma_key_absent(fields, used, "trace_id"@);
    }
    if field_value(fields, "trace_id"@) is Some && uuid_in_field(fields, "trace_id"@) is None {
        lemma_find_field(fields, "trace_id"@);
        let j = find_field(fields, "trace_id"@)->Some_0;
        lemma_field_present(fields, used, j);
        let entries = attribute_entries(fields, used);
        let i = choose|i: int|
            0 <= i < entries.len() && #[trigger] entries[i] == (
                fields[j].0@,
                attribute_view_of(fields[j].1),
            );
        assert(converted_record(fields, now).attributes[i] == entries[i]);
    }
}

/// Converting one event twice gives the same record, but for the instant
/// stamped on an event that has none of its own.
pub proof fn conversion_repeatable(fields: Seq<(String, FieldValue)>, now1: Timestamp, now2: Timestamp)
    ensures
        converted_record(fields, now1).level == converted_record(fields, now2).level,
        converted_record(fields, now1).body == converted_record(fields, now2).body,
        converted_record(fields, now1).trace_id == converted_record(fields, now2).trace_id,
        converted_record(fields, now1).attributes == converted_record(fields, now2).attributes,
        field_value(fields, "timestamp"@) matches Some(FieldValue::Timestamp(_)) ==> converted_record(
            fields,
            now1,
        ) == converted_record(fields, now2),
{
}

proof fn lemma_entries_from_fields(fields: Seq<(String, FieldValue)>, used: Option<Seq<char>>)
    requires
        keys_unique(fields),
    ensures
        forall|i: int|
            0 <= i < attribute_entries(fields, used).len() ==> exists|j: int|
                0 <= j < fields.len() && !is_reserved(fields[j].0@, used) && #[trigger] attribute_entries(
                    fields,
                    used,
                )[i] == (fields[j].0@, attribute_view_of(fields[j].1)),
        forall|i: int, k: int|
            0 <= i < k < attribute_entries(fields, used).len() ==> (#[trigger] attribute_entries(
                fields,
                used,
            )[i]).0 != (#[trigger] attribute_entries(fields, used)[k]).0,
    decreases fields.len(),
{
    if fields.len() > 0 {
        let init = fields.drop_last();
        let last = fields.len() - 1;
        assert forall|a: int, b: int| 0 <= a < b < init.len() implies
            #[trigger] init[a].0@ != #[trigger] init[b].0@ by {
            assert(init[a] == fields[a] && init[b] == fields[b]);
        }
        lemma_entries_from_fields(init, used);
        let before = attribute_entries(init, used);
        let entries = attribute_entries(fields, used);
        assert forall|i: int| 0 <= i < entries.len() implies exists|j: int|
            0 <= j < fields.len() && !is_reserved(fields[j].0@, used) && #[trigger] entries[i] == (
                fields[j].0@,
                attribute_view_of(fields[j].1),
            ) by {
            if i < before.len() {
                assert(entries[i] == before[i]);
                let j = choose|j: int|
                    0 <= j < init.len() && !is_reserved(init[j].0@, used) && #[trigger] before[i] == (
                        init[j].0@,
                        attribute_view_of(init[j].1),
                    );
                assert(init[j] == fields[j]);
                assert(entries[i] == (fields[j].0@, attribute_view_of(fields[j].1)));
            } else {
                assert(entries[i] == (fields[last].0@, attribute_view_of(fields[last].1)));
            }
        }
        assert forall|i: int, k: int| 0 <= i < k < entries.len() implies (
        #[trigger] entries[i]).0 != (#[trigger] entries[k]).0 by {
            if k < before.len() {
                assert(entries[i] == before[i] && entries[k] == before[k]);
            } else {
                assert(entries[i] == before[i]);
                let j = choose|j: int|
                    0 <= j < init.len() && !is_reserved(init[j].0@, used) && #[trigger] before[i] == (
                        init[j].0@,
                        attribute_view_of(init[j].1),
                    );
                assert(init[j] == fields[j]);
                assert(fields[j].0@ != fields[last].0@);
                assert(entries[k] == (fields[last].0@, attribute_view_of(fields[last].1)));
            }
        }
    }
}

/// The attributes are exactly the fields that are not reserved, each under
/// its own name with its mapped value; no two attributes share a name.
pub proof fn attributes_cover_fields(fields: Seq<(String, FieldValue)>, used: Option<Seq<char>>)
    requires
        keys_unique(fields),
    ensures
        forall|j: int|
            0 <= j < fields.len() && !is_reserved(#[trigger] fields[j].0@, used) ==> exists|i: int|
                0 <= i < attribute_entries(fields, used).len() && #[trigger] attribute_entries(
                    fields,
                    used,
                )[i] == (fields[j].0@, attribute_view_of(fields[j].1)),
        forall|i: int|
            0 <= i < attribute_entries(fields, used).len() ==> exists|j: int|
                0 <= j < fields.len() && !is_reserved(fields[j].0@, used) && #[trigger] attribute_entries(
                    fields,
                    used,
                )[i] == (fields[j].0@, attribute_view_of(fields[j].1)),
        forall|i: int, k: int|
            0 <= i < k < attribute_entries(fields, used).len() ==> (#[trigger] attribute_entries(
                fields,
                used,
            )[i]).0 != (#[trigger] attribute_entries(fields, used)[k]).0,
{
    lemma_entries_from_fields(fields, used);
    assert forall|j: int| 0 <= j < fields.len() && !is_reserved(#[trigger] fields[j].0@, used) implies exists|i: int|
        0 <= i < attribute_entries(fields, used).len() && #[trigger] attribute_entries(fields, used)[i] == (
            fields[j].0@,
            attribute_view_of(fields[j].1),
        ) by {
        lemma_field_present(fields, used, j);
    }
}

} // verus!
