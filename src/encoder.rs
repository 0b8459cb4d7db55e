//! The per-batch encoder: the field transform, the conversion of each event
//! and the framing of the serialized records.

use vstd::prelude::*;
use crate::convert::{converted_record, convert_to_sentry_log_at, current_time, LogRecord, RecordView};
use crate::envelope::{create_sentry_envelope, stamped_envelope, texts};
use crate::error::SinkError;
use crate::event::{kept_fields, names_of, texts_of, LogEvent, FieldValue, Timestamp};

verus! {

/// The field transform applied to each event before conversion: keep only
/// the listed fields (all where there is no list), then drop the excluded ones.
#[derive(Clone, Debug)]
pub struct Transformer {
    pub only_fields: Option<Vec<String>>,
    pub except_fields: Vec<String>,
}

/// What a transform keeps and drops, with names as characters.
pub struct TransformerView {
    pub only_fields: Option<Seq<Seq<char>>>,
    pub except_fields: Seq<Seq<char>>,
}

impl View for Transformer {
    type V = TransformerView;

    open spec fn view(&self) -> TransformerView {
        TransformerView {
            only_fields: names_of(&self.only_fields),
            except_fields: texts_of(self.except_fields@),
        }
    }
}

fn copy_names(names: &Vec<String>) -> (r: Vec<String>)
    ensures
        texts_of(r@) == texts_of(names@),
{
    let n = names.len();
    let mut out: Vec<String> = Vec::new();
    let mut i: usize = 0;
    while i < n
        invariant
            n == names@.len(),
            i <= n,
            out@.len() == i,
            texts_of(out@) == texts_of(names@.subrange(0, i as int)),
        decreases n - i,
    {
        let ghost before = out@;
        out.push(names[i].clone());
        assert forall|j: int| 0 <= j <= i implies #[trigger] texts_of(out@)[j] == texts_of(
            names@.subrange(0, i as int + 1),
        )[j] by {
            if j < i {
                assert(out@[j] == before[j]);
                assert(texts_of(before)[j] == texts_of(names@.subrange(0, i as int))[j]);
            }
        }
        assert(texts_of(out@) =~= texts_of(names@.subrange(0, i as int + 1)));
        i = i + 1;
    }
    assert(names@.subrange(0, n as int) =~= names@);
    out
}

impl Transformer {
    /// A copy of this transform, keeping and dropping the same fields.
    pub fn duplicate(&self) -> (r: Self)
        ensures
            r@ == self@,
    {
        let only_fields = match &self.only_fields {
            Some(o) => Some(copy_names(o)),
            None => None,
        };
        Transformer { only_fields, except_fields: copy_names(&self.except_fields) }
    }

    /// The transform that keeps every field.
    pub fn keep_all() -> (r: Self)
        ensures
            r.only_fields is None,
            r.except_fields@.len() == 0,
    {
        Transformer { only_fields: None, except_fields: Vec::new() }
    }

    /// The fields of an event once this transform has run on it.
    pub open spec fn result(&self, fields: Seq<(String, FieldValue)>) -> Seq<(String, FieldValue)> {
        kept_fields(fields, self@.only_fields, self@.except_fields)
    }

    /// Runs the transform on an event.
    pub fn transform(&self, log: &mut LogEvent)
        requires
            old(log).wf(),
        ensures
            final(log).wf(),
            final(log).fields() == self.result(old(log).fields()),
    {
        log.retain_fields(&self.only_fields, &self.except_fields);
    }
}

/// Encodes batches of events for one DSN.
#[derive(Clone, Debug)]
pub struct SentryEncoder {
    pub transformer: Transformer,
    pub dsn: String,
}

impl SentryEncoder {
    pub fn new(transformer: Transformer, dsn: String) -> (r: Self)
        ensures
            r.transformer == transformer,
            r.dsn == dsn,
    {
        SentryEncoder { transformer, dsn }
    }

    /// The records that a batch of events converts to at `now`, in order.
    pub open spec fn converted_batch(&self, events: Seq<LogEvent>, now: Timestamp) -> Seq<RecordView> {
        events.map_values(|e: LogEvent| converted_record(self.transformer.result(e.fields()), now))
    }

    /// Transforms and converts each event of a batch, in order, with `now`
    /// as the time of conversion.
    pub fn convert_events_at(&self, events: Vec<LogEvent>, now: Timestamp) -> (r: Vec<LogRecord>)
        requires
            forall|i: int| 0 <= i < events@.len() ==> (#[trigger] events@[i]).wf(),
        ensures
            r@.len() == events@.len(),
            forall|i: int|
                0 <= i < events@.len() ==> (#[trigger] r@[i])@ == converted_record(
                    self.transformer.result(events@[i].fields()),
                    now,
                ),
    {
        let ghost orig = events@;
        let mut events = events;
        let n = events.len();
        let mut records: Vec<LogRecord> = Vec::new();
        let mut k: usize = 0;
        while k < n
            invariant
                n == orig.len(),
                k <= n,
                events@ == orig.subrange(k as int, n as int),
                forall|i: int| 0 <= i < orig.len() ==> (#[trigger] orig[i]).wf(),
                records@.len() == k,
                forall|i: int|
                    0 <= i < k ==> (#[trigger] records@[i])@ == converted_record(
                        self.transformer.result(orig[i].fields()),
                        now,
                    ),
            decreases n - k,
        {
            let mut event = events.remove(0);
            assert(event == orig[k as int]);
            self.transformer.transform(&mut event);
            let record = convert_to_sentry_log_at(&event, now);
            records.push(record);
            assert(events@ =~= orig.subrange(k as int + 1, n as int));
            k = k + 1;
        }
        records
    }

    /// Transforms and converts each event of a batch, in order; events
    /// without an instant of their own are stamped with the current time.
    pub fn convert_events(&self, events: Vec<LogEvent>) -> (r: Vec<LogRecord>)
        requires
            forall|i: int| 0 <= i < events@.len() ==> (#[trigger] events@[i]).wf(),
        ensures
            exists|now: Timestamp|
                records_view(r@) == #[trigger] self.converted_batch(events@, now),
    {
        let now = current_time();
        let ghost evs = events@;
        let r = self.convert_events_at(events, now);
        assert(records_view(r@) =~= self.converted_batch(evs, now));
        r
    }

    /// Frames the serialized records of a batch as an envelope for this
    /// encoder's DSN, stamped with the current time.
    pub fn encode_records(&self, items: &Vec<String>) -> (r: Result<String, SinkError>)
        ensures
            exists|now: Timestamp|
                #[trigger] stamped_envelope(texts(items@), self.dsn@, now) == match r {
                    Ok(t) => Some(t@),
                    Err(_) => None::<Seq<char>>,
                },
            r matches Err(e) ==> e == SinkError::EncodingFailure,
    {
        create_sentry_envelope(items, self.dsn.as_str())
    }
}

/// What a list of records holds.
pub open spec fn records_view(records: Seq<LogRecord>) -> Seq<RecordView> {
    records.map_values(|r: LogRecord| r@)
}

/// Builds the requests of a sink: one envelope per batch.
#[derive(Clone, Debug)]
pub struct SentryRequestBuilder {
    pub encoder: SentryEncoder,
}

impl SentryRequestBuilder {
    pub fn new(dsn: String, transformer: Transformer) -> (r: Self)
        ensures
            r.encoder.dsn == dsn,
            r.encoder.transformer == transformer,
    {
        SentryRequestBuilder { encoder: SentryEncoder::new(transformer, dsn) }
    }

    pub fn encoder(&self) -> (r: &SentryEncoder)
        ensures
            *r == self.encoder,
    {
        &self.encoder
    }
}

} // verus!
