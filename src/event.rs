//! The generic log event handed to the sink: an ordered bag of named fields.

use vstd::prelude::*;
use crate::text::{i64_text, int_text, text_eq};

verus! {

/// An absolute instant: whole seconds since the Unix epoch and the
/// nanoseconds past that second.
#[derive(Clone, Copy, Debug, PartialEq, Eq, Structural)]
pub struct Timestamp {
    pub secs: i64,
    pub nanos: u32,
}

/// A floating-point field value, held as its IEEE-754 bits together with the
/// text that `f64`'s `Display` writes for it (`"3.14"`, `"inf"`, `"-inf"`).
#[derive(Clone, Debug)]
pub struct FloatValue {
    pub bits: u64,
    pub text: String,
}

/// Whether the float with these bits is finite: its exponent field is not all ones.
pub open spec fn float_bits_finite(bits: u64) -> bool {
    (bits >> 52u64) & 0x7ffu64 != 0x7ffu64
}

impl FloatValue {
    pub fn is_finite(&self) -> (r: bool)
        ensures
            r == float_bits_finite(self.bits),
    {
        (self.bits >> 52u64) & 0x7ffu64 != 0x7ffu64
    }
}

/// The value of one field of an event.
#[derive(Clone, Debug)]
pub enum FieldValue {
    /// A byte string, held as its lossy UTF-8 text.
    Bytes(String),
    Integer(i64),
    Float(FloatValue),
    Boolean(bool),
    Timestamp(Timestamp),
    /// Any other shape (null, an empty object or array, a pattern), held as
    /// its lossy textual rendering.
    Other(String),
}

/// A name for what `chrono` writes for an instant in RFC 3339 form, or `None`
/// where the instant lies outside the calendar range that `chrono` covers.
pub uninterp spec fn rfc3339_of(secs: int, nanos: int) -> Option<Seq<char>>;

/// Relies on `chrono::DateTime::from_timestamp` and `to_rfc3339_opts` (with
/// automatic sub-second digits and a `Z` suffix): the text of an instant.
#[verifier::external_body]
pub(crate) fn rfc3339_text(t: &Timestamp) -> (r: Option<String>)
    ensures
        match r {
            Some(s) => rfc3339_of(t.secs as int, t.nanos as int) == Some(s@),
            None => rfc3339_of(t.secs as int, t.nanos as int) is None,
        },
{
    chrono::DateTime::from_timestamp(t.secs, t.nanos).map(
        |d| d.to_rfc3339_opts(chrono::SecondsFormat::AutoSi, true),
    )
}

/// The text of a timestamp value; an instant outside the calendar range,
/// which no upstream value holds, reads as empty text.
pub open spec fn timestamp_text(t: Timestamp) -> Seq<char> {
    match rfc3339_of(t.secs as int, t.nanos as int) {
        Some(s) => s,
        None => Seq::empty(),
    }
}

/// The lossy textual rendering of a field value.
pub open spec fn lossy_text(v: FieldValue) -> Seq<char> {
    match v {
        FieldValue::Bytes(s) => s@,
        FieldValue::Integer(i) => int_text(i as int),
        FieldValue::Float(f) => f.text@,
        FieldValue::Boolean(b) => if b { "true"@ } else { "false"@ },
        FieldValue::Timestamp(t) => timestamp_text(t),
        FieldValue::Other(s) => s@,
    }
}

impl FieldValue {
    /// The lossy textual rendering of this value.
    pub fn to_string_lossy(&self) -> (r: String)
        ensures
            r@ == lossy_text(*self),
    {
        match self {
            FieldValue::Bytes(s) => s.clone(),
            FieldValue::Integer(i) => i64_text(*i),
            FieldValue::Float(f) => f.text.clone(),
            FieldValue::Boolean(b) => {
                if *b {
                    String::from_str("true")
                } else {
                    String::from_str("false")
                }
            },
            FieldValue::Timestamp(t) => match rfc3339_text(t) {
                Some(s) => s,
                None => String::new(),
            },
            FieldValue::Other(s) => s.clone(),
        }
    }
}

/// The index of the first field named `key`, if any.
pub open spec fn find_field(fields: Seq<(String, FieldValue)>, key: Seq<char>) -> Option<int>
    decreases fields.len(),
{
    if fields.len() == 0 {
        None
    } else if fields[0].0@ == key {
        Some(0)
    } else {
        match find_field(fields.drop_first(), key) {
            Some(i) => Some(i + 1),
            None => None,
        }
    }
}

/// The value of the field named `key`, if the event has one.
pub open spec fn field_value(fields: Seq<(String, FieldValue)>, key: Seq<char>) -> Option<FieldValue> {
    match find_field(fields, key) {
        Some(i) => Some(fields[i].1),
        None => None,
    }
}

/// No two fields share a name.
pub open spec fn keys_unique(fields: Seq<(String, FieldValue)>) -> bool {
    forall|i: int, j: int|
        0 <= i < j < fields.len() ==> #[trigger] fields[i].0@ != #[trigger] fields[j].0@
}

/// `find_field` gives the first field that bears the name.
pub proof fn lemma_find_field(fields: Seq<(String, FieldValue)>, key: Seq<char>)
    ensures
        match find_field(fields, key) {
            Some(i) => 0 <= i < fields.len() && fields[i].0@ == key && forall|j: int|
                0 <= j < i ==> #[trigger] fields[j].0@ != key,
            None => forall|j: int| 0 <= j < fields.len() ==> #[trigger] fields[j].0@ != key,
        },
    decreases fields.len(),
{
    if fields.len() > 0 {
        let rest = fields.drop_first();
        lemma_find_field(rest, key);
        assert forall|j: int| 0 <= j < rest.len() implies #[trigger] rest[j] == fields[j + 1] by {}
        if fields[0].0@ != key {
            match find_field(rest, key) {
                Some(i) => {
                    assert(rest[i] == fields[i + 1]);
                    assert forall|j: int| 0 <= j < i + 1 implies #[trigger] fields[j].0@ != key by {
                        if j > 0 {
                            assert(rest[j - 1] == fields[j]);
                        }
                    }
                },
                None => {
                    assert forall|j: int| 0 <= j < fields.len() implies #[trigger] fields[j].0@ != key by {
                        if j > 0 {
                            assert(rest[j - 1] == fields[j]);
                        }
                    }
                },
            }
        }
    }
}

/// A log event: named fields in order, names unique and case-sensitive.
/// The message is the field `message`, the timestamp the field `timestamp`.
#[derive(Debug)]
pub struct LogEvent {
    fields: Vec<(String, FieldValue)>,
}

impl LogEvent {
    pub closed spec fn fields(&self) -> Seq<(String, FieldValue)> {
        self.fields@
    }

    /// Well-formed: no two fields share a name.
    pub open spec fn wf(&self) -> bool {
        keys_unique(self.fields())
    }

    /// An event with no field.
    pub fn new() -> (r: Self)
        ensures
            r.wf(),
            r.fields().len() == 0,
    {
        LogEvent { fields: Vec::new() }
    }

    /// An event whose only field is `message`, holding `message` as text.
    pub fn from_message(message: &str) -> (r: Self)
        ensures
            r.wf(),
            r.fields().len() == 1,
            r.fields()[0].0@ == "message"@,
            r.fields()[0].1 matches FieldValue::Bytes(s) && s@ == message@,
    {
        let mut fields: Vec<(String, FieldValue)> = Vec::new();
        fields.push((String::from_str("message"), FieldValue::Bytes(String::from_str(message))));
        LogEvent { fields }
    }

    /// The fields, in order.
    pub fn all_fields(&self) -> (r: &Vec<(String, FieldValue)>)
        ensures
            r@ == self.fields(),
    {
        &self.fields
    }

    /// The position of the field named `key`, if any.
    fn position(&self, key: &str) -> (r: Option<usize>)
        ensures
            r matches Some(i) ==> i < self.fields().len() && find_field(self.fields(), key@) == Some(i as int),
            r is None ==> find_field(self.fields(), key@) is None,
    {
        proof {
            lemma_find_field(self.fields(), key@);
        }
        let n = self.fields.len();
        let mut i: usize = 0;
        while i < n
            invariant
                n == self.fields@.len(),
                i <= n,
                forall|j: int| 0 <= j < i ==> #[trigger] self.fields@[j].0@ != key@,
            decreases n - i,
        {
            if text_eq(self.fields[i].0.as_str(), key) {
                proof {
                    lemma_find_field(self.fields@, key@);
                    match find_field(self.fields@, key@) {
                        Some(k) => {
                            if k < i {
                                assert(self.fields@[k].0@ != key@);
                            }
                            if k > i {
                                assert(self.fields@[i as int].0@ != key@);
                            }
                        },
                        None => {
                            assert(self.fields@[i as int].0@ != key@);
                        },
                    }
                }
                return Some(i);
            }
            i = i + 1;
        }
        None
    }

    /// The value of the field named `key`, if the event has one.
    pub fn get(&self, key: &str) -> (r: Option<&FieldValue>)
        ensures
            r.is_some() == field_value(self.fields(), key@).is_some(),
            r matches Some(v) ==> field_value(self.fields(), key@) == Some(*v),
    {
        match self.position(key) {
            Some(i) => Some(&self.fields[i].1),
            None => None,
        }
    }

    /// Sets the field named `key` to `value`: in its place where the event
    /// has such a field, else as a new last field.
    pub fn insert(&mut self, key: &str, value: FieldValue)
        requires
            old(self).wf(),
        ensures
            final(self).wf(),
            match find_field(old(self).fields(), key@) {
                Some(i) => final(self).fields().len() == old(self).fields().len()
                    && final(self).fields()[i].0@ == key@
                    && final(self).fields()[i].1 == value
                    && forall|j: int| 0 <= j < old(self).fields().len() && j != i
                        ==> #[trigger] final(self).fields()[j] == old(self).fields()[j],
                None => final(self).fields() == old(self).fields().push(
                    (final(self).fields().last().0, value))
                    && final(self).fields().last().0@ == key@,
            },
            field_value(final(self).fields(), key@) == Some(value),
    {
        proof {
            lemma_find_field(self.fields(), key@);
        }
        let pos = self.position(key);
        match pos {
            Some(i) => {
                let ghost before = self.fields@;
                self.fields.set(i, (String::from_str(key), value));
                proof {
                    lemma_find_field(self.fields@, key@);
                    assert forall|a: int, b: int| 0 <= a < b < self.fields@.len() implies
                        #[trigger] self.fields@[a].0@ != #[trigger] self.fields@[b].0@ by {
                        assert(before[a].0@ != before[b].0@);
                    }
                }
            },
            None => {
                let ghost before = self.fields@;
                self.fields.push((String::from_str(key), value));
                proof {
                    lemma_find_field(self.fields@, key@);
                    assert forall|a: int, b: int| 0 <= a < b < self.fields@.len() implies
                        #[trigger] self.fields@[a].0@ != #[trigger] self.fields@[b].0@ by {
                        if b < before.len() {
                            assert(before[a].0@ != before[b].0@);
                        } else {
                            assert(before[a] == self.fields@[a]);
                        }
                    }
                }
            },
        }
    }

    /// Keeps the fields whose names `only` lists (all of them where `only`
    /// is `None`) and `except` does not list, in their order.
    pub fn retain_fields(&mut self, only: &Option<Vec<String>>, except: &Vec<String>)
        requires
            old(self).wf(),
        ensures
            final(self).wf(),
            final(self).fields() == kept_fields(old(self).fields(), names_of(only), texts_of(except@)),
    {
        let ghost orig = self.fields@;
        let ghost only_v = names_of(only);
        let ghost except_v = texts_of(except@);
        let mut i: usize = 0;
        let mut processed: usize = 0;
        let n = self.fields.len();
        while processed < n
            invariant
                n == orig.len(),
                processed <= orig.len(),
                i == kept_fields(orig.subrange(0, processed as int), only_v, except_v).len(),
                self.fields@ == kept_fields(orig.subrange(0, processed as int), only_v, except_v)
                    + orig.subrange(processed as int, orig.len() as int),
                keys_unique(orig),
                only_v == names_of(only),
                except_v == texts_of(except@),
                forall|a: int, b: int| 0 <= a < b < self.fields@.len() ==>
                    #[trigger] self.fields@[a].0@ != #[trigger] self.fields@[b].0@,
            decreases orig.len() - processed,
        {
            let ghost prefix = orig.subrange(0, processed as int + 1);
            assert(prefix.drop_last() =~= orig.subrange(0, processed as int));
            assert(prefix.last() == orig[processed as int]);
            assert(self.fields@[i as int] == orig[processed as int]);
            let keep = name_kept(self.fields[i].0.as_str(), only, except);
            if keep {
                let len_now = self.fields.len();
                assert(i < len_now);
                i = i + 1;
                assert(self.fields@ =~= kept_fields(prefix, only_v, except_v) + orig.subrange(
                    processed as int + 1,
                    orig.len() as int,
                ));
            } else {
                let ghost before = self.fields@;
                self.fields.remove(i);
                assert(self.fields@ =~= kept_fields(prefix, only_v, except_v) + orig.subrange(
                    processed as int + 1,
                    orig.len() as int,
                ));
                assert forall|a: int, b: int| 0 <= a < b < self.fields@.len() implies
                    #[trigger] self.fields@[a].0@ != #[trigger] self.fields@[b].0@ by {
                    let a0 = if a < i { a } else { a + 1 };
                    let b0 = if b < i { b } else { b + 1 };
                    assert(self.fields@[a] == before[a0]);
                    assert(self.fields@[b] == before[b0]);
                }
            }
            processed = processed + 1;
        }
        assert(orig.subrange(0, orig.len() as int) =~= orig);
        assert(self.fields@ =~= kept_fields(orig, only_v, except_v));
    }
}

/// The texts of a list of strings.
pub open spec fn texts_of(items: Seq<String>) -> Seq<Seq<char>> {
    items.map_values(|s: String| s@)
}

/// The names an optional list holds.
pub open spec fn names_of(only: &Option<Vec<String>>) -> Option<Seq<Seq<char>>> {
    match only {
        Some(v) => Some(texts_of(v@)),
        None => None,
    }
}

/// Whether a field named `key` is kept.
pub open spec fn is_kept(key: Seq<char>, only: Option<Seq<Seq<char>>>, except: Seq<Seq<char>>) -> bool {
    (match only {
        Some(o) => o.contains(key),
        None => true,
    }) && !except.contains(key)
}

/// The fields that are kept, in order.
pub open spec fn kept_fields(
    fields: Seq<(String, FieldValue)>,
    only: Option<Seq<Seq<char>>>,
    except: Seq<Seq<char>>,
) -> Seq<(String, FieldValue)>
    decreases fields.len(),
{
    if fields.len() == 0 {
        Seq::empty()
    } else {
        let before = kept_fields(fields.drop_last(), only, except);
        if is_kept(fields.last().0@, only, except) {
            before.push(fields.last())
        } else {
            before
        }
    }
}

fn list_contains(list: &Vec<String>, key: &str) -> (r: bool)
    ensures
        r == texts_of(list@).contains(key@),
{
    let n = list.len();
    let mut i: usize = 0;
    while i < n
        invariant
            n == list@.len(),
            i <= n,
            forall|j: int| 0 <= j < i ==> #[trigger] list@[j]@ != key@,
        decreases n - i,
    {
        if text_eq(list[i].as_str(), key) {
            assert(texts_of(list@)[i as int] == key@);
            return true;
        }
        i = i + 1;
    }
    assert forall|j: int| 0 <= j < texts_of(list@).len() implies #[trigger] texts_of(list@)[j] != key@ by {
        assert(texts_of(list@)[j] == list@[j]@);
    }
    false
}

fn name_kept(key: &str, only: &Option<Vec<String>>, except: &Vec<String>) -> (r: bool)
    ensures
        r == is_kept(key@, names_of(only), texts_of(except@)),
{
    let listed = match only {
        Some(o) => list_contains(o, key),
        None => true,
    };
    listed && !list_contains(except, key)
}

} // verus!
