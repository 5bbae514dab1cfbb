//! Verified emission of JSON text.
//!
//! The hub writes a handful of JSON documents itself: protocol request
//! bodies and serialised secrets.  String contents are escaped as JSON
//! demands: quote, backslash and control characters, the latter with the
//! conventional short forms and `\u00XX` otherwise.

use vstd::prelude::*;
use vstd::string::*;
use crate::smap::StringMap;
use crate::strutil::string_push;

verus! {

/// The lowercase hex digit of a value below 16.
pub open spec fn hex_digit_spec(n: int) -> char {
    if n == 0 { '0' } else if n == 1 { '1' } else if n == 2 { '2' } else if n == 3 { '3' }
    else if n == 4 { '4' } else if n == 5 { '5' } else if n == 6 { '6' } else if n == 7 { '7' }
    else if n == 8 { '8' } else if n == 9 { '9' } else if n == 10 { 'a' } else if n == 11 { 'b' }
    else if n == 12 { 'c' } else if n == 13 { 'd' } else if n == 14 { 'e' } else { 'f' }
}

/// The lowercase hex digit of a value below 16.
pub fn hex_digit(n: u8) -> (r: char)
    requires
        n < 16,
    ensures
        r == hex_digit_spec(n as int),
{
    if n == 0 { '0' } else if n == 1 { '1' } else if n == 2 { '2' } else if n == 3 { '3' }
    else if n == 4 { '4' } else if n == 5 { '5' } else if n == 6 { '6' } else if n == 7 { '7' }
    else if n == 8 { '8' } else if n == 9 { '9' } else if n == 10 { 'a' } else if n == 11 { 'b' }
    else if n == 12 { 'c' } else if n == 13 { 'd' } else if n == 14 { 'e' } else { 'f' }
}

/// What one character contributes to a JSON string literal.
pub open spec fn escape_char_spec(c: char) -> Seq<char> {
    if c == '"' {
        seq!['\\', '"']
    } else if c == '\\' {
        seq!['\\', '\\']
    } else if c == '\n' {
        seq!['\\', 'n']
    } else if c == '\r' {
        seq!['\\', 'r']
    } else if c == '\t' {
        seq!['\\', 't']
    } else if c == '\u{8}' {
        seq!['\\', 'b']
    } else if c == '\u{c}' {
        seq!['\\', 'f']
    } else if (c as u32) < 0x20 {
        seq!['\\', 'u', '0', '0', hex_digit_spec(c as u32 as int / 16), hex_digit_spec(
            c as u32 as int % 16,
        )]
    } else {
        seq![c]
    }
}

/// A character sequence escaped for a JSON string literal.
pub open spec fn escape_spec(s: Seq<char>) -> Seq<char>
    decreases s.len(),
{
    if s.len() == 0 {
        Seq::empty()
    } else {
        escape_spec(s.drop_last()) + escape_char_spec(s.last())
    }
}

/// A JSON string literal: the escaped contents between double quotes.
pub open spec fn quoted_spec(s: Seq<char>) -> Seq<char> {
    seq!['"'] + escape_spec(s) + seq!['"']
}

/// Append one escaped character to the output.
fn push_escaped(out: &mut String, c: char)
    ensures
        final(out)@ == old(out)@ + escape_char_spec(c),
{
    if c == '"' {
        string_push(out, '\\');
        string_push(out, '"');
    } else if c == '\\' {
        string_push(out, '\\');
        string_push(out, '\\');
    } else if c == '\n' {
        string_push(out, '\\');
        string_push(out, 'n');
    } else if c == '\r' {
        string_push(out, '\\');
        string_push(out, 'r');
    } else if c == '\t' {
        string_push(out, '\\');
        string_push(out, 't');
    } else if c == '\u{8}' {
        string_push(out, '\\');
        string_push(out, 'b');
    } else if c == '\u{c}' {
        string_push(out, '\\');
        string_push(out, 'f');
    } else if (c as u32) < 0x20 {
        let n = (c as u32) as u8;
        string_push(out, '\\');
        string_push(out, 'u');
        string_push(out, '0');
        string_push(out, '0');
        string_push(out, hex_digit(n / 16));
        string_push(out, hex_digit(n % 16));
        proof {
            assert(out@ =~= old(out)@ + escape_char_spec(c));
        }
    } else {
        string_push(out, c);
    }
    proof {
        assert(out@ =~= old(out)@ + escape_char_spec(c));
    }
}

/// Append a JSON string literal holding `s` to the output.
pub fn append_quoted(out: &mut String, s: &str)
    ensures
        final(out)@ == old(out)@ + quoted_spec(s@),
{
    string_push(out, '"');
    let len = s.unicode_len();
    let mut i: usize = 0;
    while i < len
        invariant
            len == s@.len(),
            0 <= i <= len,
            out@ == old(out)@ + seq!['"'] + escape_spec(s@.take(i as int)),
        decreases len - i,
    {
        let c = s.get_char(i);
        push_escaped(out, c);
        proof {
            assert(s@.take(i + 1).drop_last() =~= s@.take(i as int));
            assert(s@.take(i + 1).last() == s@[i as int]);
        }
        i += 1;
    }
    string_push(out, '"');
    proof {
        assert(s@.take(s@.len() as int) =~= s@);
        assert(out@ =~= old(out)@ + quoted_spec(s@));
    }
}

/// The JSON object text of a string map, entries in insertion order.
pub open spec fn map_json_spec(entries: Seq<(Seq<char>, Seq<char>)>) -> Seq<char>
    decreases entries.len(),
{
    if entries.len() == 0 {
        "{}"@
    } else if entries.len() == 1 {
        "{"@ + quoted_spec(entries[0].0) + ":"@ + quoted_spec(entries[0].1) + "}"@
    } else {
        map_json_spec(entries.drop_last()).drop_last() + ","@ + quoted_spec(entries.last().0)
            + ":"@ + quoted_spec(entries.last().1) + "}"@
    }
}

/// Append the JSON object text of a string map to the output.
pub fn append_map_json(out: &mut String, m: &StringMap)
    ensures
        final(out)@ == old(out)@ + map_json_spec(m.entries_spec()),
{
    let n = m.len();
    if n == 0 {
        out.append("{}");
        proof {
            reveal_strlit("{}");
            assert(out@ =~= old(out)@ + map_json_spec(m.entries_spec()));
        }
        return ;
    }
    string_push(out, '{');
    let mut i: usize = 0;
    proof {
        reveal_strlit("{");
        reveal_strlit(":");
        reveal_strlit(",");
        reveal_strlit("}");
        assert("{"@ =~= seq!['{']);
        assert(":"@ =~= seq![':']);
        assert(","@ =~= seq![',']);
        assert("}"@ =~= seq!['}']);
    }
    while i < n
        invariant
            n == m.entries_spec().len(),
            0 < n,
            0 <= i <= n,
            "{"@ =~= seq!['{'],
            ":"@ =~= seq![':'],
            ","@ =~= seq![','],
            "}"@ =~= seq!['}'],
            i == 0 ==> out@ == old(out)@ + seq!['{'],
            i > 0 ==> out@ == old(out)@ + map_json_spec(m.entries_spec().take(i as int)).drop_last(),
        decreases n - i,
    {
        if i > 0 {
            string_push(out, ',');
        }
        let (k, v) = m.entry_at(i);
        append_quoted(out, k.as_str());
        string_push(out, ':');
        append_quoted(out, v.as_str());
        proof {
            let es = m.entries_spec();
            assert(es.take(i + 1).drop_last() =~= es.take(i as int));
            assert(es.take(i + 1).last() == es[i as int]);
            if i == 0 {
                assert(map_json_spec(es.take(1)).drop_last() =~= seq!['{'] + quoted_spec(
                    es[0].0,
                ) + seq![':'] + quoted_spec(es[0].1));
                assert(out@ =~= old(out)@ + map_json_spec(es.take(1)).drop_last());
            } else {
                assert(map_json_spec(es.take(i + 1)) == map_json_spec(
                    es.take(i as int),
                ).drop_last() + ","@ + quoted_spec(es[i as int].0) + ":"@ + quoted_spec(
                    es[i as int].1,
                ) + "}"@);
                assert(map_json_spec(es.take(i + 1)).drop_last() =~= map_json_spec(
                    es.take(i as int),
                ).drop_last() + seq![','] + quoted_spec(es[i as int].0) + seq![':'] + quoted_spec(
                    es[i as int].1,
                ));
                assert(out@ =~= old(out)@ + map_json_spec(es.take(i + 1)).drop_last());
            }
        }
        i += 1;
    }
    string_push(out, '}');
    proof {
        let es = m.entries_spec();
        assert(es.take(n as int) =~= es);
        assert(map_json_spec(es).drop_last() + seq!['}'] =~= map_json_spec(es));
        assert(out@ =~= old(out)@ + map_json_spec(es));
    }
}

} // verus!
