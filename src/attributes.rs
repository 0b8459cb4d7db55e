//! Mapping of event fields onto the backend's typed attribute values.

use vstd::prelude::*;
use crate::event::{float_bits_finite, lossy_text, FieldValue, LogEvent};
use crate::text::text_eq;

verus! {

/// An attribute value: text, a 64-bit integer, a finite 64-bit float (held
/// as its IEEE-754 bits) or a boolean.
#[derive(Clone, Debug)]
pub enum AttributeValue {
    Text(String),
    Integer(i64),
    Double(u64),
    Boolean(bool),
}

/// What an attribute value holds, with its text as characters.
pub enum AttributeView {
    Text(Seq<char>),
    Integer(i64),
    Double(u64),
    Boolean(bool),
}

impl View for AttributeValue {
    type V = AttributeView;

    open spec fn view(&self) -> AttributeView {
        match self {
            AttributeValue::Text(s) => AttributeView::Text(s@),
            AttributeValue::Integer(i) => AttributeView::Integer(*i),
            AttributeValue::Double(b) => AttributeView::Double(*b),
            AttributeValue::Boolean(b) => AttributeView::Boolean(*b),
        }
    }
}

/// The attribute value of a field value: text stays text, integers and
/// booleans keep their type, a finite float stays a number and any other
/// float becomes its text; every other shape becomes its lossy text.
pub open spec fn attribute_view_of(v: FieldValue) -> AttributeView {
    match v {
        FieldValue::Bytes(s) => AttributeView::Text(s@),
        FieldValue::Integer(i) => AttributeView::Integer(i),
        FieldValue::Float(f) => if float_bits_finite(f.bits) {
            AttributeView::Double(f.bits)
        } else {
            AttributeView::Text(f.text@)
        },
        FieldValue::Boolean(b) => AttributeView::Boolean(b),
        FieldValue::Timestamp(_) => AttributeView::Text(lossy_text(v)),
        FieldValue::Other(s) => AttributeView::Text(s@),
    }
}

/// Maps one field value onto an attribute value.
pub fn attribute_value(v: &FieldValue) -> (r: AttributeValue)
    ensures
        r@ == attribute_view_of(*v),
{
    match v {
        FieldValue::Bytes(s) => AttributeValue::Text(s.clone()),
        FieldValue::Integer(i) => AttributeValue::Integer(*i),
        FieldValue::Float(f) => {
            if f.is_finite() {
                AttributeValue::Double(f.bits)
            } else {
                AttributeValue::Text(f.text.clone())
            }
        },
        FieldValue::Boolean(b) => AttributeValue::Boolean(*b),
        FieldValue::Timestamp(_) => AttributeValue::Text(v.to_string_lossy()),
        FieldValue::Other(s) => AttributeValue::Text(s.clone()),
    }
}

/// Whether a field stays out of the attributes: `message`, `level`,
/// `severity`, `timestamp`, and the field the correlation id was read from.
pub open spec fn is_reserved(key: Seq<char>, used: Option<Seq<char>>) -> bool {
    key == "message"@ || key == "level"@ || key == "severity"@ || key == "timestamp"@
        || used == Some(key)
}

/// The attributes of an event's fields, in field order.
pub open spec fn attribute_entries(
    fields: Seq<(String, FieldValue)>,
    used: Option<Seq<char>>,
) -> Seq<(Seq<char>, AttributeView)>
    decreases fields.len(),
{
    if fields.len() == 0 {
        Seq::empty()
    } else {
        let before = attribute_entries(fields.drop_last(), used);
        let key = fields.last().0@;
        if is_reserved(key, used) {
            before
        } else {
            before.push((key, attribute_view_of(fields.last().1)))
        }
    }
}

/// A record's attributes: names and values, in the order of the event's fields.
#[derive(Clone, Debug)]
pub struct Attributes {
    entries: Vec<(String, AttributeValue)>,
}

/// The entries of an attribute list as characters and views.
pub open spec fn entries_view(entries: Seq<(String, AttributeValue)>) -> Seq<(Seq<char>, AttributeView)> {
    entries.map_values(|e: (String, AttributeValue)| (e.0@, e.1@))
}

impl View for Attributes {
    type V = Seq<(Seq<char>, AttributeView)>;

    closed spec fn view(&self) -> Seq<(Seq<char>, AttributeView)> {
        entries_view(self.entries@)
    }
}

impl Attributes {
    /// The number of attributes.
    pub fn len(&self) -> (r: usize)
        ensures
            r == self@.len(),
    {
        self.entries.len()
    }

    /// The attributes, in order.
    pub fn entries(&self) -> (r: &Vec<(String, AttributeValue)>)
        ensures
            entries_view(r@) == self@,
    {
        &self.entries
    }

    /// Whether an attribute bears the name `key`.
    pub fn contains_key(&self, key: &str) -> (r: bool)
        ensures
            r == exists|i: int| 0 <= i < self@.len() && #[trigger] self@[i].0 == key@,
    {
        match self.get(key) {
            Some(_) => true,
            None => false,
        }
    }

    /// The value of the first attribute named `key`.
    pub fn get(&self, key: &str) -> (r: Option<&AttributeValue>)
        ensures
            r matches Some(v) ==> exists|i: int|
                0 <= i < self@.len() && #[trigger] self@[i].0 == key@ && self@[i].1 == v@,
            r is None ==> forall|i: int| 0 <= i < self@.len() ==> #[trigger] self@[i].0 != key@,
    {
        let n = self.entries.len();
        let mut i: usize = 0;
        while i < n
            invariant
                n == self.entries@.len(),
                i <= n,
                forall|j: int| 0 <= j < i ==> #[trigger] self@[j].0 != key@,
            decreases n - i,
        {
            if text_eq(self.entries[i].0.as_str(), key) {
                assert(self@[i as int].0 == key@);
                return Some(&self.entries[i].1);
            }
            i = i + 1;
        }
        None
    }
}

/// The attributes of an event: every field but the reserved ones, mapped
/// onto attribute values.
pub fn convert_fields_to_attributes(log: &LogEvent, used_trace_field: Option<&str>) -> (r: Attributes)
    ensures
        r@ == attribute_entries(
            log.fields(),
            match used_trace_field {
                Some(u) => Some(u@),
                None => None,
            },
        ),
{
    let ghost used = match used_trace_field {
        Some(u) => Some(u@),
        None => None,
    };
    let fields = log.all_fields();
    let n = fields.len();
    let mut entries: Vec<(String, AttributeValue)> = Vec::new();
    let mut i: usize = 0;
    while i < n
        invariant
            n == fields@.len(),
            fields@ == log.fields(),
            used == match used_trace_field {
                Some(u) => Some(u@),
                None => None::<Seq<char>>,
            },
            i <= n,
            entries_view(entries@) == attribute_entries(fields@.subrange(0, i as int), used),
        decreases n - i,
    {
        let key = fields[i].0.as_str();
        let is_used = match used_trace_field {
            Some(u) => text_eq(key, u),
            None => false,
        };
        let reserved = text_eq(key, "message") || text_eq(key, "level") || text_eq(key, "severity")
            || text_eq(key, "timestamp") || is_used;
        let ghost before = entries@;
        let ghost sub = fields@.subrange(0, i as int + 1);
        assert(sub.drop_last() =~= fields@.subrange(0, i as int));
        assert(sub.last() == fields@[i as int]);
        assert(reserved == is_reserved(fields@[i as int].0@, used));
        if !reserved {
            let value = attribute_value(&fields[i].1);
            entries.push((fields[i].0.clone(), value));
            assert(entries_view(entries@) =~= entries_view(before).push(
                (fields@[i as int].0@, attribute_view_of(fields@[i as int].1)),
            ));
        }
        assert(entries_view(entries@) == attribute_entries(sub, used));
        i = i + 1;
    }
    assert(fields@.subrange(0, n as int) =~= fields@);
    Attributes { entries }
}

} // verus!
