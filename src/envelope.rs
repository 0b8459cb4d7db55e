//! The envelope encoder: frames a batch of serialized log records as the
//! backend's newline-delimited envelope.

use vstd::prelude::*;
use crate::convert::current_time;
use crate::error::SinkError;
use crate::event::{rfc3339_of, rfc3339_text, Timestamp};
use crate::json::{json_string, json_string_has_no_newline, json_string_of};
use crate::text::{digit_char, nat_text, u64_text};

verus! {

/// The envelope header line, given the DSN and the sending instant as JSON
/// string literals.
pub open spec fn header_line(dsn_json: Seq<char>, sent_at_json: Seq<char>) -> Seq<char> {
    "{\"dsn\":"@ + dsn_json + ",\"sdk\":{\"name\":\"sentry.vector.sink\",\"version\":\"0.1.0\"},\"sent_at\":"@
        + sent_at_json + "}"@
}

/// The item header line for a log item of `n` records.
pub open spec fn item_header_line(n: nat) -> Seq<char> {
    "{\"content_type\":\"application/vnd.sentry.items.log+json\",\"item_count\":"@ + nat_text(n)
        + ",\"type\":\"logs\"}"@
}

/// The texts joined in order, with a comma between each two.
pub open spec fn join(items: Seq<Seq<char>>) -> Seq<char>
    decreases items.len(),
{
    if items.len() == 0 {
        Seq::empty()
    } else if items.len() == 1 {
        items[0]
    } else {
        join(items.drop_last()) + ","@ + items.last()
    }
}

/// The item payload line: the records as the array `items`, in order.
pub open spec fn payload_line(items: Seq<Seq<char>>) -> Seq<char> {
    "{\"items\":["@ + join(items) + "]}"@
}

/// The envelope: header, item header and payload, each ended by a newline.
pub open spec fn envelope_text(items: Seq<Seq<char>>, dsn_json: Seq<char>, sent_at_json: Seq<char>) -> Seq<char> {
    header_line(dsn_json, sent_at_json) + "\n"@ + item_header_line(items.len()) + "\n"@
        + payload_line(items) + "\n"@
}

/// The texts of a list of strings.
pub open spec fn texts(items: Seq<String>) -> Seq<Seq<char>> {
    items.map_values(|s: String| s@)
}

fn join_texts(items: &Vec<String>) -> (r: String)
    ensures
        r@ == join(texts(items@)),
{
    proof {
        reveal_strlit(",");
    }
    let n = items.len();
    let mut out = String::new();
    let mut i: usize = 0;
    while i < n
        invariant
            n == items@.len(),
            i <= n,
            out@ == join(texts(items@).subrange(0, i as int)),
        decreases n - i,
    {
        let ghost prefix = texts(items@).subrange(0, i as int + 1);
        assert(prefix.drop_last() =~= texts(items@).subrange(0, i as int));
        if i > 0 {
            out.append(",");
        }
        out.append(items[i].as_str());
        proof {
            if i == 0 {
                assert(out@ =~= prefix[0]);
            } else {
                assert(out@ =~= join(prefix.drop_last()) + ","@ + prefix.last());
            }
        }
        i = i + 1;
    }
    assert(texts(items@).subrange(0, n as int) =~= texts(items@));
    out
}

/// Frames serialized log records as an envelope, given the DSN and the
/// sending instant already written as JSON string literals.
pub fn envelope_from_json(items: &Vec<String>, dsn_json: &str, sent_at_json: &str) -> (r: String)
    ensures
        r@ == envelope_text(texts(items@), dsn_json@, sent_at_json@),
{
    let count = u64_text(items.len() as u64);
    let joined = join_texts(items);
    let mut out = String::from_str("{\"dsn\":");
    out.append(dsn_json);
    out.append(",\"sdk\":{\"name\":\"sentry.vector.sink\",\"version\":\"0.1.0\"},\"sent_at\":");
    out.append(sent_at_json);
    out.append("}");
    out.append("\n");
    out.append("{\"content_type\":\"application/vnd.sentry.items.log+json\",\"item_count\":");
    out.append(count.as_str());
    out.append(",\"type\":\"logs\"}");
    out.append("\n");
    out.append("{\"items\":[");
    out.append(joined.as_str());
    out.append("]}");
    out.append("\n");
    proof {
        let t = texts(items@);
        assert(t.len() == items@.len());
        assert(out@ =~= envelope_text(t, dsn_json@, sent_at_json@));
    }
    out
}

/// Frames serialized log records as an envelope for the DSN, stamped as sent
/// at `sent_at`.
pub fn create_sentry_envelope_at(items: &Vec<String>, dsn_str: &str, sent_at: &str) -> (r: String)
    ensures
        r@ == envelope_text(texts(items@), json_string_of(dsn_str@), json_string_of(sent_at@)),
        !json_string_of(dsn_str@).contains('\n'),
        !json_string_of(sent_at@).contains('\n'),
{
    let dsn_json = json_string(dsn_str);
    let sent_at_json = json_string(sent_at);
    proof {
        json_string_has_no_newline(dsn_str@);
        json_string_has_no_newline(sent_at@);
    }
    envelope_from_json(items, dsn_json.as_str(), sent_at_json.as_str())
}

/// The envelope of a batch stamped at the instant `now`, where that instant
/// can be written in RFC 3339 form.
pub open spec fn stamped_envelope(items: Seq<Seq<char>>, dsn: Seq<char>, now: Timestamp) -> Option<Seq<char>> {
    match rfc3339_of(now.secs as int, now.nanos as int) {
        Some(sent_at) => Some(envelope_text(items, json_string_of(dsn), json_string_of(sent_at))),
        None => None,
    }
}

/// Frames serialized log records as an envelope for the DSN, stamped with
/// the current time in RFC 3339 form. It fails only where the clock reads an
/// instant outside the calendar range that can be written.
pub fn create_sentry_envelope(items: &Vec<String>, dsn_str: &str) -> (r: Result<String, SinkError>)
    ensures
        exists|now: Timestamp|
            #[trigger] stamped_envelope(texts(items@), dsn_str@, now) == match r {
                Ok(t) => Some(t@),
                Err(_) => None::<Seq<char>>,
            },
        r matches Err(e) ==> e == SinkError::EncodingFailure,
{
    let now = current_time();
    match rfc3339_text(&now) {
        Some(sent_at) => {
            let t = create_sentry_envelope_at(items, dsn_str, sent_at.as_str());
            assert(stamped_envelope(texts(items@), dsn_str@, now) == Some(t@));
            Ok(t)
        },
        None => {
            assert(stamped_envelope(texts(items@), dsn_str@, now) == None::<Seq<char>>);
            Err(SinkError::EncodingFailure)
        },
    }
}

/// The number that a run of decimal digits stands for.
pub open spec fn digits_value(s: Seq<char>) -> int
    decreases s.len(),
{
    if s.len() == 0 {
        0
    } else {
        digits_value(s.drop_last()) * 10 + (s.last() as int - '0' as int)
    }
}

proof fn lemma_digit_value(d: nat)
    requires
        d < 10,
    ensures
        digit_char(d) as int - '0' as int == d,
        digit_char(d) != '\n',
{
    if d == 0 {} else if d == 1 {} else if d == 2 {} else if d == 3 {} else if d == 4 {}
    else if d == 5 {} else if d == 6 {} else if d == 7 {} else if d == 8 {} else {}
}

proof fn lemma_digits_round_trip(n: nat)
    ensures
        digits_value(nat_text(n)) == n,
        !nat_text(n).contains('\n'),
    decreases n,
{
    lemma_digit_value(n % 10);
    if n >= 10 {
        lemma_digits_round_trip(n / 10);
        assert(nat_text(n).drop_last() =~= nat_text(n / 10));
        assert((n / 10) * 10 + n % 10 == n) by (nonlinear_arith);
        assert(nat_text(n).last() == digit_char(n % 10));
        assert(digits_value(nat_text(n)) == digits_value(nat_text(n / 10)) * 10 + (digit_char(
            n % 10,
        ) as int - '0' as int));
        assert forall|i: int| 0 <= i < nat_text(n).len() implies nat_text(n)[i] != '\n' by {
            if i < nat_text(n).len() - 1 {
                assert(nat_text(n)[i] == nat_text(n / 10)[i]);
            }
        }
    } else {
        lemma_digit_value(n);
        assert(nat_text(n).drop_last() =~= Seq::<char>::empty());
        assert(digits_value(Seq::<char>::empty()) == 0);
        assert(nat_text(n).last() == digit_char(n));
    }
}

proof fn lemma_concat_no_newline(a: Seq<char>, b: Seq<char>)
    requires
        !a.contains('\n'),
        !b.contains('\n'),
    ensures
        !(a + b).contains('\n'),
{
    assert forall|i: int| 0 <= i < (a + b).len() implies (a + b)[i] != '\n' by {
        if i < a.len() {
            assert((a + b)[i] == a[i]);
        } else {
            assert((a + b)[i] == b[i - a.len()]);
        }
    }
}

proof fn lemma_join_no_newline(items: Seq<Seq<char>>)
    requires
        forall|i: int| 0 <= i < items.len() ==> !(#[trigger] items[i]).contains('\n'),
    ensures
        !join(items).contains('\n'),
    decreases items.len(),
{
    reveal_strlit(",");
    if items.len() > 1 {
        let init = items.drop_last();
        assert forall|i: int| 0 <= i < init.len() implies !(#[trigger] init[i]).contains('\n') by {
            assert(init[i] == items[i]);
        }
        lemma_join_no_newline(init);
        assert(!items.last().contains('\n'));
        lemma_concat_no_newline(join(init), ","@);
        lemma_concat_no_newline(join(init) + ","@, items.last());
    } else if items.len() == 1 {
        assert(!items[0].contains('\n'));
    }
}

proof fn lemma_split_unique(x: Seq<char>, y: Seq<char>, x2: Seq<char>, y2: Seq<char>)
    requires
        !x.contains('\n'),
        !x2.contains('\n'),
        x + "\n"@ + y == x2 + "\n"@ + y2,
    ensures
        x == x2,
        y == y2,
{
    reveal_strlit("\n");
    let s = x + "\n"@ + y;
    let s2 = x2 + "\n"@ + y2;
    if x.len() < x2.len() {
        assert(s[x.len() as int] == '\n');
        assert(s2[x.len() as int] == x2[x.len() as int]);
    } else if x2.len() < x.len() {
        assert(s2[x2.len() as int] == '\n');
        assert(s[x2.len() as int] == x[x2.len() as int]);
    } else {
        assert(x =~= s.subrange(0, x.len() as int));
        assert(x2 =~= s2.subrange(0, x.len() as int));
        assert(y =~= s.subrange(x.len() as int + 1, s.len() as int));
        assert(y2 =~= s2.subrange(x.len() as int + 1, s2.len() as int));
    }
}

proof fn lemma_envelope_lines(
    items: Seq<Seq<char>>,
    dsn_json: Seq<char>,
    sent_at_json: Seq<char>,
    first: Seq<char>,
    second: Seq<char>,
    third: Seq<char>,
)
    requires
        forall|i: int| 0 <= i < items.len() ==> !(#[trigger] items[i]).contains('\n'),
        !dsn_json.contains('\n'),
        !sent_at_json.contains('\n'),
        !first.contains('\n'),
        !second.contains('\n'),
        !third.contains('\n'),
        envelope_text(items, dsn_json, sent_at_json) == first + "\n"@ + second + "\n"@ + third
            + "\n"@,
    ensures
        first == header_line(dsn_json, sent_at_json),
        second == item_header_line(items.len()),
        third == payload_line(items),
        digits_value(nat_text(items.len())) == items.len(),
{
    reveal_strlit("{\"dsn\":");
    reveal_strlit(",\"sdk\":{\"name\":\"sentry.vector.sink\",\"version\":\"0.1.0\"},\"sent_at\":");
    reveal_strlit("}");
    reveal_strlit("{\"content_type\":\"application/vnd.sentry.items.log+json\",\"item_count\":");
    reveal_strlit(",\"type\":\"logs\"}");
    reveal_strlit("{\"items\":[");
    reveal_strlit("]}");
    let h = header_line(dsn_json, sent_at_json);
    let ih = item_header_line(items.len());
    let p = payload_line(items);
    lemma_digits_round_trip(items.len());
    lemma_join_no_newline(items);
    assert(!"{\"dsn\":"@.contains('\n'));
    assert(!",\"sdk\":{\"name\":\"sentry.vector.sink\",\"version\":\"0.1.0\"},\"sent_at\":"@.contains('\n'));
    assert(!"}"@.contains('\n'));
    assert(!"{\"content_type\":\"application/vnd.sentry.items.log+json\",\"item_count\":"@.contains('\n'));
    assert(!",\"type\":\"logs\"}"@.contains('\n'));
    assert(!"{\"items\":["@.contains('\n'));
    assert(!"]}"@.contains('\n'));
    lemma_concat_no_newline("{\"dsn\":"@, dsn_json);
    lemma_concat_no_newline("{\"dsn\":"@ + dsn_json, ",\"sdk\":{\"name\":\"sentry.vector.sink\",\"version\":\"0.1.0\"},\"sent_at\":"@);
    lemma_concat_no_newline("{\"dsn\":"@ + dsn_json + ",\"sdk\":{\"name\":\"sentry.vector.sink\",\"version\":\"0.1.0\"},\"sent_at\":"@, sent_at_json);
    lemma_concat_no_newline("{\"dsn\":"@ + dsn_json + ",\"sdk\":{\"name\":\"sentry.vector.sink\",\"version\":\"0.1.0\"},\"sent_at\":"@ + sent_at_json, "}"@);
    lemma_concat_no_newline("{\"content_type\":\"application/vnd.sentry.items.log+json\",\"item_count\":"@, nat_text(items.len()));
    lemma_concat_no_newline("{\"content_type\":\"application/vnd.sentry.items.log+json\",\"item_count\":"@ + nat_text(items.len()), ",\"type\":\"logs\"}"@);
    lemma_concat_no_newline("{\"items\":["@, join(items));
    lemma_concat_no_newline("{\"items\":["@ + join(items), "]}"@);
    let rest = ih + "\n"@ + p + "\n"@;
    let rest2 = second + "\n"@ + third + "\n"@;
    assert(envelope_text(items, dsn_json, sent_at_json) =~= h + "\n"@ + rest);
    assert(first + "\n"@ + second + "\n"@ + third + "\n"@ =~= first + "\n"@ + rest2);
    lemma_split_unique(h, rest, first, rest2);
    assert(rest =~= ih + "\n"@ + (p + "\n"@));
    assert(rest2 =~= second + "\n"@ + (third + "\n"@));
    lemma_split_unique(ih, p + "\n"@, second, third + "\n"@);
    assert(p =~= (p + "\n"@).subrange(0, p.len() as int));
    assert(third =~= (third + "\n"@).subrange(0, third.len() as int));
}

/// An envelope reads back as the batch it frames, whatever the DSN and the
/// sending instant: however it is cut into three newline-free lines each
/// ended by a newline, the first is the header, the second declares an item
/// count whose digits read back as the number of records, and the third is
/// the array of the records, in order.
pub proof fn envelope_round_trip(
    items: Seq<Seq<char>>,
    dsn: Seq<char>,
    sent_at: Seq<char>,
    first: Seq<char>,
    second: Seq<char>,
    third: Seq<char>,
)
    requires
        forall|i: int| 0 <= i < items.len() ==> !(#[trigger] items[i]).contains('\n'),
        !first.contains('\n'),
        !second.contains('\n'),
        !third.contains('\n'),
        envelope_text(items, json_string_of(dsn), json_string_of(sent_at)) == first + "\n"@ + second
            + "\n"@ + third + "\n"@,
    ensures
        first == header_line(json_string_of(dsn), json_string_of(sent_at)),
        second == item_header_line(items.len()),
        third == payload_line(items),
        digits_value(nat_text(items.len())) == items.len(),
{
    json_string_has_no_newline(dsn);
    json_string_has_no_newline(sent_at);
    lemma_envelope_lines(items, json_string_of(dsn), json_string_of(sent_at), first, second, third);
}

} // verus!
