//! Decoding typed values from JSON text: the `FromJson` trait and the field
//! readers that the payload types are built from.

use crate::json::{
    coerce_decimal, coerce_id, coerce_number, decimal_of_json, find_member, id_of_json,
    int_of_json, member, member_node, member_text, read_array, str_of_json, strict_int_of_json,
    array_of, json_node_of, parse_json, JsonModel, JsonNode, Member,
};
use crate::numeric::parse_i64;
use crate::timestamp::{exchange_time_of, parse_exchange_timestamp, Timestamp};
use vstd::prelude::*;

verus! {

/// A type that can be read from a JSON document.
pub trait FromJson: Sized {
    /// Whether a value of the type can be read from `text`.
    spec fn decodable(text: Seq<char>) -> bool;

    /// Whether `x` is the value read from `text`.
    spec fn decodes(text: Seq<char>, x: Self) -> bool;

    fn from_json(text: &str) -> (r: Option<Self>)
        ensures
            r is Some <==> Self::decodable(text@),
            r matches Some(x) ==> Self::decodes(text@, x),
    ;
}

/// The members of an object, over sequences of characters.
pub open spec fn members_of(ms: Seq<Member>) -> Seq<(Seq<char>, Seq<char>)> {
    ms.map_values(|m: Member| m@)
}

pub open spec fn text_of(s: Option<String>) -> Option<Seq<char>> {
    match s {
        Some(t) => Some(t@),
        None => None,
    }
}

/// The parsed value of member `key`, when present and parsable.
pub open spec fn present(ms: Seq<(Seq<char>, Seq<char>)>, key: Seq<char>) -> Option<JsonModel> {
    match member_node(ms, key) {
        Some(Some(j)) => Some(j),
        _ => None,
    }
}

/// An integer member, sent as a number or as a string.
pub open spec fn int_field(ms: Seq<(Seq<char>, Seq<char>)>, key: Seq<char>) -> Option<i64> {
    match present(ms, key) {
        Some(j) => int_of_json(j),
        None => None,
    }
}

/// A decimal member, sent as a number or as a string, as its text.
pub open spec fn decimal_field(ms: Seq<(Seq<char>, Seq<char>)>, key: Seq<char>) -> Option<Seq<char>> {
    match present(ms, key) {
        Some(j) => decimal_of_json(j),
        None => None,
    }
}

/// An identifier member, sent as a number or as a string, as text.
pub open spec fn id_field(ms: Seq<(Seq<char>, Seq<char>)>, key: Seq<char>) -> Option<Seq<char>> {
    match present(ms, key) {
        Some(j) => id_of_json(j),
        None => None,
    }
}

/// A string member.
pub open spec fn str_field(ms: Seq<(Seq<char>, Seq<char>)>, key: Seq<char>) -> Option<Seq<char>> {
    match present(ms, key) {
        Some(j) => str_of_json(j),
        None => None,
    }
}

/// A string member that falls back to `default` when absent.
pub open spec fn str_field_or(ms: Seq<(Seq<char>, Seq<char>)>, key: Seq<char>, default: Seq<char>) -> Option<
    Seq<char>,
> {
    match member_node(ms, key) {
        None => Some(default),
        Some(Some(j)) => str_of_json(j),
        Some(None) => None,
    }
}

/// A timestamp member in the exchange's layout.
pub open spec fn time_field(ms: Seq<(Seq<char>, Seq<char>)>, key: Seq<char>) -> Option<Timestamp> {
    match str_field(ms, key) {
        Some(s) => exchange_time_of(s),
        None => None,
    }
}

/// A member holding an `i16` written as a JSON number.
pub open spec fn i16_field(ms: Seq<(Seq<char>, Seq<char>)>, key: Seq<char>) -> Option<i16> {
    match present(ms, key) {
        Some(j) => match strict_int_of_json(j) {
            Some(n) => if i16::MIN <= n <= i16::MAX {
                Some(n as i16)
            } else {
                None
            },
            None => None,
        },
        None => None,
    }
}

fn present_node(ms: &Vec<Member>, key: &str) -> (r: Option<JsonNode>)
    ensures
        match r {
            Some(j) => present(members_of(ms@), key@) == Some(j@),
            None => present(members_of(ms@), key@) is None,
        },
{
    match member(ms, key) {
        Some(Some(j)) => Some(j),
        _ => None,
    }
}

pub fn read_int(ms: &Vec<Member>, key: &str) -> (r: Option<i64>)
    ensures
        r == int_field(members_of(ms@), key@),
{
    match present_node(ms, key) {
        Some(j) => match coerce_number(&j) {
            Ok(n) => Some(n),
            Err(_) => None,
        },
        None => None,
    }
}

pub fn read_decimal(ms: &Vec<Member>, key: &str) -> (r: Option<String>)
    ensures
        text_of(r) == decimal_field(members_of(ms@), key@),
{
    match present_node(ms, key) {
        Some(j) => match coerce_decimal(&j) {
            Ok(t) => Some(t),
            Err(_) => None,
        },
        None => None,
    }
}

pub fn read_id(ms: &Vec<Member>, key: &str) -> (r: Option<String>)
    ensures
        text_of(r) == id_field(members_of(ms@), key@),
{
    match present_node(ms, key) {
        Some(j) => coerce_id(&j),
        None => None,
    }
}

pub fn read_str(ms: &Vec<Member>, key: &str) -> (r: Option<String>)
    ensures
        text_of(r) == str_field(members_of(ms@), key@),
{
    match present_node(ms, key) {
        Some(JsonNode::Str(s)) => Some(s),
        _ => None,
    }
}

pub fn read_str_or(ms: &Vec<Member>, key: &str, default: &str) -> (r: Option<String>)
    ensures
        text_of(r) == str_field_or(members_of(ms@), key@, default@),
{
    match member(ms, key) {
        None => Some(default.to_owned()),
        Some(Some(JsonNode::Str(s))) => Some(s),
        Some(_) => None,
    }
}

pub fn read_time(ms: &Vec<Member>, key: &str) -> (r: Option<Timestamp>)
    ensures
        r == time_field(members_of(ms@), key@),
{
    match read_str(ms, key) {
        Some(s) => parse_exchange_timestamp(s.as_str()),
        None => None,
    }
}

pub fn read_i16(ms: &Vec<Member>, key: &str) -> (r: Option<i16>)
    ensures
        r == i16_field(members_of(ms@), key@),
{
    match present_node(ms, key) {
        Some(JsonNode::Number(t)) => match parse_i64(t.as_str()) {
            Some(n) => if -32768 <= n && n <= 32767 {
                Some(n as i16)
            } else {
                None
            },
            None => None,
        },
        _ => None,
    }
}

// ---------------------------------------------------------------------------
// Lists and nested values.

/// Whether every element of `items` can be read as a `T`.
pub open spec fn list_decodable<T: FromJson>(items: Seq<Seq<char>>) -> bool {
    forall|i: int| 0 <= i < items.len() ==> T::decodable(#[trigger] items[i])
}

/// Whether `xs` holds, in order, the values read from `items`.
pub open spec fn list_decodes<T: FromJson>(items: Seq<Seq<char>>, xs: Seq<T>) -> bool {
    &&& xs.len() == items.len()
    &&& forall|i: int| 0 <= i < items.len() ==> T::decodes(#[trigger] items[i], xs[i])
}

/// Reads every element of a JSON array as a `T`.
pub fn read_list<T: FromJson>(text: &str) -> (r: Option<Vec<T>>)
    ensures
        r is Some <==> (array_of(text@) matches Some(items) && list_decodable::<T>(items)),
        r matches Some(xs) ==> (array_of(text@) matches Some(items) && list_decodes::<T>(
            items,
            xs@,
        )),
{
    let items = match read_array(text) {
        Some(items) => items,
        None => return None,
    };
    let ghost model = items@.map_values(|t: String| t@);
    let mut out: Vec<T> = Vec::new();
    let mut i: usize = 0;
    while i < items.len()
        invariant
            i <= items@.len(),
            model == items@.map_values(|t: String| t@),
            array_of(text@) == Some(model),
            out@.len() == i,
            forall|k: int| 0 <= k < i ==> T::decodable(#[trigger] model[k]),
            forall|k: int| 0 <= k < i ==> T::decodes(#[trigger] model[k], out@[k]),
        decreases items.len() - i,
    {
        assert(model[i as int] == items@[i as int]@);
        match T::from_json(items[i].as_str()) {
            Some(x) => out.push(x),
            None => return None,
        }
        i = i + 1;
    }
    Some(out)
}

/// Whether member `key` is present and reads as a `T`.
pub open spec fn field_decodable<T: FromJson>(ms: Seq<(Seq<char>, Seq<char>)>, key: Seq<char>) -> bool {
    match member_text(ms, key) {
        Some(t) => T::decodable(t),
        None => false,
    }
}

/// Whether `x` is the value read from member `key`.
pub open spec fn field_decodes<T: FromJson>(ms: Seq<(Seq<char>, Seq<char>)>, key: Seq<char>, x: T) -> bool {
    match member_text(ms, key) {
        Some(t) => T::decodes(t, x),
        None => false,
    }
}

/// Reads member `key` as a `T`; it must be present.
pub fn read_field<T: FromJson>(ms: &Vec<Member>, key: &str) -> (r: Option<T>)
    ensures
        r is Some <==> field_decodable::<T>(members_of(ms@), key@),
        r matches Some(x) ==> field_decodes::<T>(members_of(ms@), key@, x),
{
    match find_member(ms, key) {
        Some(t) => T::from_json(t.as_str()),
        None => None,
    }
}

/// Whether member `key` is absent or holds an array whose elements read as `T`.
pub open spec fn list_field_decodable<T: FromJson>(ms: Seq<(Seq<char>, Seq<char>)>, key: Seq<char>) -> bool {
    match member_text(ms, key) {
        Some(t) => array_of(t) matches Some(items) && list_decodable::<T>(items),
        None => true,
    }
}

/// Whether `xs` is what member `key` reads as: empty when absent.
pub open spec fn list_field_decodes<T: FromJson>(
    ms: Seq<(Seq<char>, Seq<char>)>,
    key: Seq<char>,
    xs: Seq<T>,
) -> bool {
    match member_text(ms, key) {
        Some(t) => array_of(t) matches Some(items) && list_decodes::<T>(items, xs),
        None => xs.len() == 0,
    }
}

/// Reads member `key` as a list of `T`; an absent member reads as empty.
pub fn read_list_field<T: FromJson>(ms: &Vec<Member>, key: &str) -> (r: Option<Vec<T>>)
    ensures
        r is Some <==> list_field_decodable::<T>(members_of(ms@), key@),
        r matches Some(xs) ==> list_field_decodes::<T>(members_of(ms@), key@, xs@),
{
    match find_member(ms, key) {
        Some(t) => read_list(t.as_str()),
        None => Some(Vec::new()),
    }
}

impl<T: FromJson> FromJson for Vec<T> {
    open spec fn decodable(text: Seq<char>) -> bool {
        array_of(text) matches Some(items) && list_decodable::<T>(items)
    }

    open spec fn decodes(text: Seq<char>, x: Self) -> bool {
        array_of(text) matches Some(items) && list_decodes::<T>(items, x@)
    }

    fn from_json(text: &str) -> (r: Option<Self>) {
        read_list(text)
    }
}

/// Whether `xs` are the identifiers that `items` hold, in order.
pub open spec fn ids_decode(items: Seq<Seq<char>>, xs: Seq<Seq<char>>) -> bool {
    &&& xs.len() == items.len()
    &&& forall|i: int|
        0 <= i < items.len() ==> (json_node_of(#[trigger] items[i]) matches Some(j) && id_of_json(j)
            == Some(xs[i]))
}

/// Whether every element of `items` is an identifier.
pub open spec fn ids_decodable(items: Seq<Seq<char>>) -> bool {
    forall|i: int|
        0 <= i < items.len() ==> (json_node_of(#[trigger] items[i]) matches Some(j) && id_of_json(
            j,
        ) is Some)
}

/// Whether member `key` is absent or an array of identifiers.
pub open spec fn id_list_field_decodable(ms: Seq<(Seq<char>, Seq<char>)>, key: Seq<char>) -> bool {
    match member_text(ms, key) {
        Some(t) => array_of(t) matches Some(items) && ids_decodable(items),
        None => true,
    }
}

/// Whether `xs` are the identifiers in member `key`: none when absent.
pub open spec fn id_list_field_decodes(
    ms: Seq<(Seq<char>, Seq<char>)>,
    key: Seq<char>,
    xs: Seq<Seq<char>>,
) -> bool {
    match member_text(ms, key) {
        Some(t) => array_of(t) matches Some(items) && ids_decode(items, xs),
        None => xs.len() == 0,
    }
}

pub open spec fn texts_of(v: Seq<String>) -> Seq<Seq<char>> {
    v.map_values(|t: String| t@)
}

/// Reads an array of identifiers, each a JSON number or string, as strings.
pub fn read_ids(text: &str) -> (r: Option<Vec<String>>)
    ensures
        r is Some <==> (array_of(text@) matches Some(items) && ids_decodable(items)),
        r matches Some(xs) ==> (array_of(text@) matches Some(items) && ids_decode(
            items,
            texts_of(xs@),
        )),
{
    let items = match read_array(text) {
        Some(items) => items,
        None => return None,
    };
    let ghost model = items@.map_values(|t: String| t@);
    let mut out: Vec<String> = Vec::new();
    let mut i: usize = 0;
    while i < items.len()
        invariant
            i <= items@.len(),
            model == items@.map_values(|t: String| t@),
            array_of(text@) == Some(model),
            out@.len() == i,
            forall|k: int|
                0 <= k < i ==> (json_node_of(#[trigger] model[k]) matches Some(j) && id_of_json(j)
                    == Some(out@[k]@)),
        decreases items.len() - i,
    {
        assert(model[i as int] == items@[i as int]@);
        let id = match parse_json(items[i].as_str()) {
            Some(j) => coerce_id(&j),
            None => None,
        };
        match id {
            Some(x) => out.push(x),
            None => return None,
        }
        i = i + 1;
    }
    assert(ids_decode(model, texts_of(out@)));
    Some(out)
}

/// Reads member `key` as an array of identifiers; an absent member reads as
/// none.
pub fn read_id_list_field(ms: &Vec<Member>, key: &str) -> (r: Option<Vec<String>>)
    ensures
        r is Some <==> id_list_field_decodable(members_of(ms@), key@),
        r matches Some(xs) ==> id_list_field_decodes(members_of(ms@), key@, texts_of(xs@)),
{
    match find_member(ms, key) {
        Some(t) => read_ids(t.as_str()),
        None => Some(Vec::new()),
    }
}

} // verus!
