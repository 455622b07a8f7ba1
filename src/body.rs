//! Writing the JSON bodies of POST requests. Members are written in the
//! order given; string values are quoted by serde_json.

use crate::json::Member;
use crate::decode::members_of;
use crate::headers::hex_digit;
use crate::numeric::{int_text, write_i64};
use vstd::prelude::*;

verus! {

/// How serde_json writes one character inside a string literal: `"` and `\`
/// behind a backslash; backspace, tab, line feed, form feed and carriage
/// return as `\b \t \n \f \r`; other characters below U+0020 as
/// `\u00xx` in lowercase hex; everything else as itself.
pub open spec fn escaped_char(c: char) -> Seq<char> {
    let n = c as u32;
    if c == '"' {
        seq!['\\', '"']
    } else if c == '\\' {
        seq!['\\', '\\']
    } else if n == 8 {
        seq!['\\', 'b']
    } else if n == 9 {
        seq!['\\', 't']
    } else if n == 10 {
        seq!['\\', 'n']
    } else if n == 12 {
        seq!['\\', 'f']
    } else if n == 13 {
        seq!['\\', 'r']
    } else if n < 32 {
        seq!['\\', 'u', '0', '0', hex_digit(n as nat / 16), hex_digit(n as nat % 16)]
    } else {
        seq![c]
    }
}

/// The characters of `s`, each escaped.
pub open spec fn escaped(s: Seq<char>) -> Seq<char>
    decreases s.len(),
{
    if s.len() == 0 {
        Seq::empty()
    } else {
        escaped(s.drop_last()) + escaped_char(s.last())
    }
}

/// The JSON string literal for `s`, as serde_json writes it.
pub open spec fn json_string_of(s: Seq<char>) -> Seq<char> {
    seq!['"'] + escaped(s) + seq!['"']
}

/// Relies on `serde_json::to_string` on a `str`: a quote, each character
/// escaped as `escaped_char` says (serde_json's `ESCAPE` table and
/// `write_char_escape`), and a quote. Serialising a `str` into a `String`
/// does not fail.
#[verifier::external_body]
fn quote(s: &str) -> (r: String)
    ensures
        r@ == json_string_of(s@),
{
    serde_json::to_string(s).unwrap_or_default()
}

/// A member `"key":value`, with `value` already JSON text.
pub open spec fn member_json(key: Seq<char>, value: Seq<char>) -> Seq<char> {
    seq!['"'] + key + seq!['"', ':'] + value
}

pub open spec fn join_members(ms: Seq<(Seq<char>, Seq<char>)>) -> Seq<char>
    decreases ms.len(),
{
    if ms.len() == 0 {
        Seq::empty()
    } else if ms.len() == 1 {
        member_json(ms[0].0, ms[0].1)
    } else {
        join_members(ms.drop_last()) + seq![','] + member_json(ms.last().0, ms.last().1)
    }
}

/// The JSON object with the given members, in order, without whitespace.
pub open spec fn object_json(ms: Seq<(Seq<char>, Seq<char>)>) -> Seq<char> {
    seq!['{'] + join_members(ms) + seq!['}']
}

pub open spec fn join_items(items: Seq<Seq<char>>) -> Seq<char>
    decreases items.len(),
{
    if items.len() == 0 {
        Seq::empty()
    } else if items.len() == 1 {
        items[0]
    } else {
        join_items(items.drop_last()) + seq![','] + items.last()
    }
}

/// The JSON array with the given elements, in order, without whitespace.
pub open spec fn array_json(items: Seq<Seq<char>>) -> Seq<char> {
    seq!['['] + join_items(items) + seq![']']
}

/// Writes a JSON object whose member values are already JSON text.
pub fn object_text(ms: &Vec<Member>) -> (r: String)
    ensures
        r@ == object_json(members_of(ms@)),
{
    proof {
        reveal_strlit("{");
        reveal_strlit("}");
        reveal_strlit(",");
        reveal_strlit("\"");
        reveal_strlit("\":");
    }
    let ghost all = members_of(ms@);
    let mut out = String::from_str("{");
    let mut i: usize = 0;
    while i < ms.len()
        invariant
            i <= ms@.len(),
            all == members_of(ms@),
            out@ == seq!['{'] + join_members(all.subrange(0, i as int)),
        decreases ms.len() - i,
    {
        let ghost before = all.subrange(0, i as int);
        let ghost after = all.subrange(0, i + 1);
        assert(after.drop_last() =~= before);
        assert(after.last() == ms@[i as int]@);
        if i == 0 {
            assert(join_members(after) == member_json(after[0].0, after[0].1));
            assert(before.len() == 0);
        } else {
            assert(join_members(after) == join_members(before) + seq![','] + member_json(
                after.last().0,
                after.last().1,
            ));
        }
        proof {
            reveal_strlit(",");
            reveal_strlit("\"");
            reveal_strlit("\":");
        }
        let ghost prev = out@;
        if i > 0 {
            out.append(",");
            assert(out@ =~= prev + seq![',']);
        }
        let ghost mid = out@;
        out.append("\"");
        out.append(ms[i].key.as_str());
        out.append("\":");
        out.append(ms[i].value.as_str());
        assert(out@ =~= mid + member_json(after.last().0, after.last().1));
        proof {
            if i == 0 {
                assert(join_members(before) =~= Seq::<char>::empty());
                assert(mid == prev);
            } else {
                assert(mid =~= prev + seq![',']);
            }
        }
        assert(out@ =~= seq!['{'] + join_members(after));
        i = i + 1;
    }
    out.append("}");
    assert(all.subrange(0, ms@.len() as int) =~= all);
    assert(out@ =~= object_json(all));
    out
}

/// Writes a JSON array whose elements are already JSON text.
pub fn array_text(items: &Vec<String>) -> (r: String)
    ensures
        r@ == array_json(items@.map_values(|t: String| t@)),
{
    proof {
        reveal_strlit("[");
        reveal_strlit("]");
        reveal_strlit(",");
    }
    let ghost all = items@.map_values(|t: String| t@);
    let mut out = String::from_str("[");
    let mut i: usize = 0;
    while i < items.len()
        invariant
            i <= items@.len(),
            all == items@.map_values(|t: String| t@),
            out@ == seq!['['] + join_items(all.subrange(0, i as int)),
        decreases items.len() - i,
    {
        let ghost before = all.subrange(0, i as int);
        let ghost after = all.subrange(0, i + 1);
        assert(after.drop_last() =~= before);
        assert(after.last() == items@[i as int]@);
        if i == 0 {
            assert(join_items(after) == after[0]);
            assert(before.len() == 0);
        } else {
            assert(join_items(after) == join_items(before) + seq![','] + after.last());
        }
        proof {
            reveal_strlit(",");
            reveal_strlit("\"");
            reveal_strlit("\":");
        }
        let ghost prev = out@;
        if i > 0 {
            out.append(",");
            assert(out@ =~= prev + seq![',']);
        }
        out.append(items[i].as_str());
        proof {
            if i == 0 {
                assert(out@ =~= prev + after.last());
                assert(join_items(before) =~= Seq::<char>::empty());
            } else {
                assert(out@ =~= prev + seq![','] + after.last());
            }
        }
        assert(out@ =~= seq!['['] + join_items(after));
        i = i + 1;
    }
    out.append("]");
    assert(all.subrange(0, items@.len() as int) =~= all);
    assert(out@ =~= array_json(all));
    out
}

/// The JSON string literal for `s`.
pub fn json_string(s: &str) -> (r: String)
    ensures
        r@ == json_string_of(s@),
{
    quote(s)
}

/// A member whose value is the JSON string literal for `value`.
pub fn string_member(key: &str, value: &str) -> (r: Member)
    ensures
        r@ == (key@, json_string_of(value@)),
{
    Member { key: key.to_owned(), value: quote(value) }
}

/// A member whose value is an integer written as a JSON number.
pub fn number_member(key: &str, value: i64) -> (r: Member)
    ensures
        r@ == (key@, int_text(value as int)),
{
    let mut t = String::new();
    write_i64(value, &mut t);
    assert(t@ =~= int_text(value as int));
    Member { key: key.to_owned(), value: t }
}

/// A member whose value is an integer written as a JSON string, the way the
/// exchange expects prices.
pub fn numeric_string_member(key: &str, value: i64) -> (r: Member)
    ensures
        r@ == (key@, json_string_of(int_text(value as int))),
{
    let mut t = String::new();
    write_i64(value, &mut t);
    assert(t@ =~= int_text(value as int));
    Member { key: key.to_owned(), value: quote(t.as_str()) }
}

/// A member whose value is already JSON text.
pub fn raw_member(key: &str, value: String) -> (r: Member)
    ensures
        r@ == (key@, value@),
{
    Member { key: key.to_owned(), value }
}

} // verus!
