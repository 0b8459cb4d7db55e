//! JSON string literals, escaped as `serde_json` escapes them.

use vstd::prelude::*;

verus! {

/// The lower-case hexadecimal digit for `d`, which is below sixteen.
pub open spec fn hex_char(d: nat) -> char {
    if d < 10 {
        crate::text::digit_char(d)
    } else if d == 10 {
        'a'
    } else if d == 11 {
        'b'
    } else if d == 12 {
        'c'
    } else if d == 13 {
        'd'
    } else if d == 14 {
        'e'
    } else {
        'f'
    }
}

/// How one character is written inside a JSON string: the quote and the
/// backslash behind a backslash, backspace, tab, newline, form feed and
/// carriage return as `\b \t \n \f \r`, every other control character as
/// `\u00XX` in lower-case hex, and everything else as it is.
pub open spec fn escaped_char(c: char) -> Seq<char> {
    if c == '"' {
        seq!['\\', '"']
    } else if c == '\\' {
        seq!['\\', '\\']
    } else if c == '\u{8}' {
        seq!['\\', 'b']
    } else if c == '\t' {
        seq!['\\', 't']
    } else if c == '\n' {
        seq!['\\', 'n']
    } else if c == '\u{c}' {
        seq!['\\', 'f']
    } else if c == '\r' {
        seq!['\\', 'r']
    } else if (c as u32) < 0x20 {
        seq!['\\', 'u', '0', '0', hex_char((c as u32 / 16) as nat), hex_char((c as u32 % 16) as nat)]
    } else {
        seq![c]
    }
}

/// The characters of a text, each escaped.
pub open spec fn escaped(s: Seq<char>) -> Seq<char>
    decreases s.len(),
{
    if s.len() == 0 {
        Seq::empty()
    } else {
        escaped(s.drop_last()) + escaped_char(s.last())
    }
}

/// The JSON string literal of a text.
pub open spec fn json_string_of(s: Seq<char>) -> Seq<char> {
    seq!['"'] + escaped(s) + seq!['"']
}

fn hex_str(d: u32) -> (r: &'static str)
    requires
        d < 16,
    ensures
        r@ == seq![hex_char(d as nat)],
{
    proof {
        reveal_strlit("0");
        reveal_strlit("1");
        reveal_strlit("2");
        reveal_strlit("3");
        reveal_strlit("4");
        reveal_strlit("5");
        reveal_strlit("6");
        reveal_strlit("7");
        reveal_strlit("8");
        reveal_strlit("9");
        reveal_strlit("a");
        reveal_strlit("b");
        reveal_strlit("c");
        reveal_strlit("d");
        reveal_strlit("e");
        reveal_strlit("f");
    }
    if d == 0 { "0" }
    else if d == 1 { "1" }
    else if d == 2 { "2" }
    else if d == 3 { "3" }
    else if d == 4 { "4" }
    else if d == 5 { "5" }
    else if d == 6 { "6" }
    else if d == 7 { "7" }
    else if d == 8 { "8" }
    else if d == 9 { "9" }
    else if d == 10 { "a" }
    else if d == 11 { "b" }
    else if d == 12 { "c" }
    else if d == 13 { "d" }
    else if d == 14 { "e" }
    else { "f" }
}

fn append_escaped(out: &mut String, s: &str, i: usize, n: usize)
    requires
        n == s@.len(),
        i < n,
    ensures
        final(out)@ == old(out)@ + escaped_char(s@[i as int]),
{
    let c = s.get_char(i);
    proof {
        reveal_strlit("\\\"");
        reveal_strlit("\\\\");
        reveal_strlit("\\b");
        reveal_strlit("\\t");
        reveal_strlit("\\n");
        reveal_strlit("\\f");
        reveal_strlit("\\r");
        reveal_strlit("\\u00");
    }
    if c == '"' {
        out.append("\\\"");
    } else if c == '\\' {
        out.append("\\\\");
    } else if c == '\u{8}' {
        out.append("\\b");
    } else if c == '\t' {
        out.append("\\t");
    } else if c == '\n' {
        out.append("\\n");
    } else if c == '\u{c}' {
        out.append("\\f");
    } else if c == '\r' {
        out.append("\\r");
    } else if (c as u32) < 0x20 {
        out.append("\\u00");
        out.append(hex_str(c as u32 / 16));
        out.append(hex_str(c as u32 % 16));
    } else {
        out.append(s.substring_char(i, i + 1));
    }
    proof {
        if !(c == '"' || c == '\\' || c == '\u{8}' || c == '\t' || c == '\n' || c == '\u{c}'
            || c == '\r' || (c as u32) < 0x20) {
            assert(s@.subrange(i as int, i as int + 1) =~= seq![c]);
        }
        assert(final(out)@ =~= old(out)@ + escaped_char(c));
    }
}

/// Writes a text as a JSON string literal, escaped as `serde_json` escapes it.
pub fn json_string(s: &str) -> (r: String)
    ensures
        r@ == json_string_of(s@),
{
    proof {
        reveal_strlit("\"");
    }
    let n = s.unicode_len();
    let mut out = String::from_str("\"");
    let mut i: usize = 0;
    while i < n
        invariant
            n == s@.len(),
            i <= n,
            out@ == seq!['"'] + escaped(s@.subrange(0, i as int)),
        decreases n - i,
    {
        append_escaped(&mut out, s, i, n);
        let ghost prefix = s@.subrange(0, i as int + 1);
        assert(prefix.drop_last() =~= s@.subrange(0, i as int));
        assert(prefix.last() == s@[i as int]);
        assert(out@ =~= seq!['"'] + escaped(prefix));
        i = i + 1;
    }
    out.append("\"");
    assert(s@.subrange(0, n as int) =~= s@);
    assert(out@ =~= json_string_of(s@));
    out
}

proof fn lemma_escaped_char_no_newline(c: char)
    ensures
        !escaped_char(c).contains('\n'),
{
    let e = escaped_char(c);
    if (c as u32) < 0x20 && !(c == '"' || c == '\\' || c == '\u{8}' || c == '\t' || c == '\n'
        || c == '\u{c}' || c == '\r') {
        let hi = (c as u32 / 16) as nat;
        let lo = (c as u32 % 16) as nat;
        assert(hex_char(hi) != '\n' && hex_char(lo) != '\n') by {
            assert(crate::text::digit_char(hi) != '\n');
            assert(crate::text::digit_char(lo) != '\n');
        }
    }
    assert forall|k: int| 0 <= k < e.len() implies e[k] != '\n' by {}
}

/// A JSON string literal holds no raw newline.
pub proof fn json_string_has_no_newline(s: Seq<char>)
    ensures
        !json_string_of(s).contains('\n'),
    decreases s.len(),
{
    if s.len() > 0 {
        json_string_has_no_newline(s.drop_last());
        lemma_escaped_char_no_newline(s.last());
    }
    let j = json_string_of(s);
    assert forall|k: int| 0 <= k < j.len() implies j[k] != '\n' by {
        if s.len() > 0 {
            let prev = escaped(s.drop_last());
            let last = escaped_char(s.last());
            assert(escaped(s) == prev + last);
            assert(!json_string_of(s.drop_last()).contains('\n'));
            if 1 <= k < 1 + prev.len() {
                assert(j[k] == json_string_of(s.drop_last())[k]);
            } else if 1 + prev.len() <= k < 1 + prev.len() + last.len() {
                assert(j[k] == last[k - 1 - prev.len()]);
            }
        }
    }
}

} // verus!
