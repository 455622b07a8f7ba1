//! Reading JSON one node at a time, and coercing the exchange's loosely typed
//! values (numbers sent as strings, identifiers sent as numbers).

use crate::numeric::{i64_of_text, is_decimal, is_decimal_text, parse_i64};
use serde_json::Value;
use vstd::prelude::*;

verus! {

/// One member of a JSON object: its key and the JSON text of its value.
pub struct Member {
    pub key: String,
    pub value: String,
}

/// One parsed JSON node. Elements of arrays and values of objects are kept as
/// their own JSON text, to be read when needed.
pub enum JsonNode {
    Null,
    Bool(bool),
    /// The number's text, as the parser writes it.
    Number(String),
    Str(String),
    Array(Vec<String>),
    Object(Vec<Member>),
}

/// What a [`JsonNode`] holds, over sequences of characters.
pub enum JsonModel {
    Null,
    Bool(bool),
    Number(Seq<char>),
    Str(Seq<char>),
    Array(Seq<Seq<char>>),
    Object(Seq<(Seq<char>, Seq<char>)>),
}

impl View for Member {
    type V = (Seq<char>, Seq<char>);

    open spec fn view(&self) -> (Seq<char>, Seq<char>) {
        (self.key@, self.value@)
    }
}

impl View for JsonNode {
    type V = JsonModel;

    open spec fn view(&self) -> JsonModel {
        match self {
            JsonNode::Null => JsonModel::Null,
            JsonNode::Bool(b) => JsonModel::Bool(*b),
            JsonNode::Number(t) => JsonModel::Number(t@),
            JsonNode::Str(s) => JsonModel::Str(s@),
            JsonNode::Array(items) => JsonModel::Array(items@.map_values(|t: String| t@)),
            JsonNode::Object(members) => JsonModel::Object(members@.map_values(|m: Member| m@)),
        }
    }
}

pub open spec fn node_view(n: Option<JsonNode>) -> Option<JsonModel> {
    match n {
        Some(j) => Some(j@),
        None => None,
    }
}

/// The node that a JSON document parses to, if it parses.
pub uninterp spec fn json_node_of(text: Seq<char>) -> Option<JsonModel>;

/// Relies on `serde_json::from_str` to parse one JSON document into a
/// `serde_json::Value`, and on the `Display` of `Value` and `Number` for the
/// text of each element, member value and number. The result depends on the
/// text alone.
#[verifier::external_body]
fn parse_node(text: &str) -> (r: Option<JsonNode>)
    ensures
        node_view(r) == json_node_of(text@),
{
    match serde_json::from_str::<Value>(text) {
        Ok(Value::Null) => Some(JsonNode::Null),
        Ok(Value::Bool(b)) => Some(JsonNode::Bool(b)),
        Ok(Value::Number(n)) => Some(JsonNode::Number(n.to_string())),
        Ok(Value::String(s)) => Some(JsonNode::Str(s)),
        Ok(Value::Array(a)) => Some(JsonNode::Array(a.iter().map(|v| v.to_string()).collect())),
        Ok(Value::Object(m)) => Some(JsonNode::Object(
            m.into_iter().map(|(key, v)| Member { key, value: v.to_string() }).collect(),
        )),
        Err(_) => None,
    }
}

/// Parses a JSON document into its top node.
pub fn parse_json(text: &str) -> (r: Option<JsonNode>)
    ensures
        node_view(r) == json_node_of(text@),
{
    parse_node(text)
}

/// The members of the object that `text` holds, if it holds an object.
pub open spec fn object_of(text: Seq<char>) -> Option<Seq<(Seq<char>, Seq<char>)>> {
    match json_node_of(text) {
        Some(JsonModel::Object(ms)) => Some(ms),
        _ => None,
    }
}

/// The elements of the array that `text` holds, if it holds an array.
pub open spec fn array_of(text: Seq<char>) -> Option<Seq<Seq<char>>> {
    match json_node_of(text) {
        Some(JsonModel::Array(items)) => Some(items),
        _ => None,
    }
}

/// The text of the first member of `ms` named `key`.
pub open spec fn member_text(ms: Seq<(Seq<char>, Seq<char>)>, key: Seq<char>) -> Option<Seq<char>>
    decreases ms.len(),
{
    if ms.len() == 0 {
        None
    } else if ms[0].0 == key {
        Some(ms[0].1)
    } else {
        member_text(ms.drop_first(), key)
    }
}

/// The parsed value of the member of `ms` named `key`: `None` when the member
/// is absent, `Some(None)` when its text does not parse.
pub open spec fn member_node(ms: Seq<(Seq<char>, Seq<char>)>, key: Seq<char>) -> Option<Option<JsonModel>> {
    match member_text(ms, key) {
        Some(t) => Some(json_node_of(t)),
        None => None,
    }
}

/// Reads the object that `text` holds.
pub fn read_object(text: &str) -> (r: Option<Vec<Member>>)
    ensures
        match r {
            Some(ms) => object_of(text@) == Some(ms@.map_values(|m: Member| m@)),
            None => object_of(text@) is None,
        },
{
    match parse_node(text) {
        Some(JsonNode::Object(ms)) => Some(ms),
        _ => None,
    }
}

/// Reads the array that `text` holds.
pub fn read_array(text: &str) -> (r: Option<Vec<String>>)
    ensures
        match r {
            Some(items) => array_of(text@) == Some(items@.map_values(|t: String| t@)),
            None => array_of(text@) is None,
        },
{
    match parse_node(text) {
        Some(JsonNode::Array(items)) => Some(items),
        _ => None,
    }
}

/// Looks up the member named `key` and returns the text of its value.
pub fn find_member<'a>(ms: &'a Vec<Member>, key: &str) -> (r: Option<&'a String>)
    ensures
        match r {
            Some(t) => member_text(ms@.map_values(|m: Member| m@), key@) == Some(t@),
            None => member_text(ms@.map_values(|m: Member| m@), key@) is None,
        },
{
    let ghost all = ms@.map_values(|m: Member| m@);
    let mut i: usize = 0;
    assert(all.subrange(0, all.len() as int) =~= all);
    while i < ms.len()
        invariant
            i <= ms@.len(),
            all == ms@.map_values(|m: Member| m@),
            member_text(all, key@) == member_text(all.subrange(i as int, all.len() as int), key@),
        decreases ms.len() - i,
    {
        let ghost rest = all.subrange(i as int, all.len() as int);
        assert(rest.drop_first() =~= all.subrange(i + 1, all.len() as int));
        assert(rest[0] == ms@[i as int]@);
        if ms[i].key.eq(&key.to_owned()) {
            return Some(&ms[i].value);
        }
        i = i + 1;
    }
    None
}

/// Reads the member named `key`: `None` when absent, `Some(None)` when its
/// text does not parse.
pub fn member(ms: &Vec<Member>, key: &str) -> (r: Option<Option<JsonNode>>)
    ensures
        match r {
            Some(n) => member_node(ms@.map_values(|m: Member| m@), key@) == Some(node_view(n)),
            None => member_node(ms@.map_values(|m: Member| m@), key@) is None,
        },
{
    match find_member(ms, key) {
        Some(t) => Some(parse_node(t.as_str())),
        None => None,
    }
}

// ---------------------------------------------------------------------------
// Coercion of values.

/// Why a value could not be read as a number.
pub enum CoerceError {
    /// The value is neither a JSON string nor a JSON number.
    WrongType,
    /// The value's text does not spell a number of the target type.
    NotANumber,
}

/// The text of a value that stands for a number: a string or a number literal.
pub open spec fn number_text(j: JsonModel) -> Option<Seq<char>> {
    match j {
        JsonModel::Number(t) => Some(t),
        JsonModel::Str(s) => Some(s),
        _ => None,
    }
}

/// The `i64` that a JSON string or JSON number stands for.
pub open spec fn int_of_json(j: JsonModel) -> Option<i64> {
    match number_text(j) {
        Some(t) => i64_of_text(t),
        None => None,
    }
}

/// The decimal text that a JSON string or JSON number stands for.
pub open spec fn decimal_of_json(j: JsonModel) -> Option<Seq<char>> {
    match number_text(j) {
        Some(t) => if is_decimal_text(t) {
            Some(t)
        } else {
            None
        },
        None => None,
    }
}

/// An identifier sent either as a JSON string or as a JSON number, as text.
pub open spec fn id_of_json(j: JsonModel) -> Option<Seq<char>> {
    number_text(j)
}

/// The contents of a JSON string.
pub open spec fn str_of_json(j: JsonModel) -> Option<Seq<char>> {
    match j {
        JsonModel::Str(s) => Some(s),
        _ => None,
    }
}

/// An `i64` written as a JSON number literal (not as a string).
pub open spec fn strict_int_of_json(j: JsonModel) -> Option<i64> {
    match j {
        JsonModel::Number(t) => i64_of_text(t),
        _ => None,
    }
}

/// Reads a numeric field that the exchange sends either as a JSON number or
/// as a string holding the number.
pub fn coerce_number(j: &JsonNode) -> (r: Result<i64, CoerceError>)
    ensures
        match r {
            Ok(n) => int_of_json(j@) == Some(n),
            Err(CoerceError::WrongType) => number_text(j@) is None,
            Err(CoerceError::NotANumber) => number_text(j@) is Some && int_of_json(j@) is None,
        },
{
    let t = match j {
        JsonNode::Number(t) => t,
        JsonNode::Str(s) => s,
        _ => return Err(CoerceError::WrongType),
    };
    match parse_i64(t.as_str()) {
        Some(n) => Ok(n),
        None => Err(CoerceError::NotANumber),
    }
}

/// Reads a decimal field (a quantity or a rate) that the exchange sends either
/// as a JSON number or as a string, keeping its decimal text.
pub fn coerce_decimal(j: &JsonNode) -> (r: Result<String, CoerceError>)
    ensures
        match r {
            Ok(t) => decimal_of_json(j@) == Some(t@),
            Err(CoerceError::WrongType) => number_text(j@) is None,
            Err(CoerceError::NotANumber) => number_text(j@) is Some && decimal_of_json(j@) is None,
        },
{
    let t = match j {
        JsonNode::Number(t) => t,
        JsonNode::Str(s) => s,
        _ => return Err(CoerceError::WrongType),
    };
    if is_decimal(t.as_str()) {
        Ok(t.clone())
    } else {
        Err(CoerceError::NotANumber)
    }
}

/// Reads an identifier that the exchange sends either as a JSON number or as a
/// string, always as a string.
pub fn coerce_id(j: &JsonNode) -> (r: Option<String>)
    ensures
        match r {
            Some(t) => id_of_json(j@) == Some(t@),
            None => id_of_json(j@) is None,
        },
{
    match j {
        JsonNode::Number(t) => Some(t.clone()),
        JsonNode::Str(s) => Some(s.clone()),
        _ => None,
    }
}

/// A numeric field reads the same whether the exchange sends it as a JSON
/// number or as a string of the same text (`"1"` and `1` both read as one),
/// and so does an identifier.
pub proof fn lemma_number_encodings_agree(t: Seq<char>)
    ensures
        int_of_json(JsonModel::Number(t)) == int_of_json(JsonModel::Str(t)),
        decimal_of_json(JsonModel::Number(t)) == decimal_of_json(JsonModel::Str(t)),
        id_of_json(JsonModel::Number(t)) == id_of_json(JsonModel::Str(t)),
{
}

/// A string that does not spell an `i64` is refused as a number: it never
/// reads as zero or as any other value.
pub proof fn lemma_non_numeric_refused(s: Seq<char>)
    requires
        i64_of_text(s) is None,
    ensures
        int_of_json(JsonModel::Str(s)) is None,
        int_of_json(JsonModel::Number(s)) is None,
{
}

} // verus!
