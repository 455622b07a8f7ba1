//! Cancelling every order that matches a filter.

use crate::body::{array_json, array_text, json_string, json_string_of, object_json, object_text, raw_member, string_member};
use crate::decode::{id_list_field_decodable, id_list_field_decodes, members_of, read_id_list_field, texts_of, FromJson};
use crate::end_point::PRIVATE_ENDPOINT;
use crate::headers::{post_headers, MAX_SIGNED_LEN};
use crate::json::{object_of, read_object, Member};
use crate::request::{signed_post, Credentials, PostRequest};
use crate::response::{envelope_fields, read_envelope, Error, RestResponse};
use crate::settle_type::SettleType;
use crate::side::Side;
use crate::symbol::Symbol;
use crate::timestamp::Timestamp;
use vstd::prelude::*;

verus! {

pub const CANCEL_BULK_ORDERS_API_PATH: &'static str = "/v1/cancelBulkOrder";

/// The bulk-cancel response: the identifiers of the orders cancelled, none
/// when `data` is left out.
pub struct CancelBulkOrder {
    pub status: i16,
    pub responsetime: Timestamp,
    pub data: Vec<String>,
}

impl FromJson for CancelBulkOrder {
    open spec fn decodable(text: Seq<char>) -> bool {
        object_of(text) matches Some(ms) && envelope_fields(ms) is Some && id_list_field_decodable(
            ms,
            "data"@,
        )
    }

    open spec fn decodes(text: Seq<char>, x: Self) -> bool {
        object_of(text) matches Some(ms) && envelope_fields(ms) == Some((x.status, x.responsetime))
            && id_list_field_decodes(ms, "data"@, texts_of(x.data@))
    }

    fn from_json(text: &str) -> (r: Option<Self>) {
        let ms = read_object(text)?;
        let (status, responsetime) = read_envelope(&ms)?;
        let data = read_id_list_field(&ms, "data")?;
        Some(CancelBulkOrder { status, responsetime, data })
    }
}

impl RestResponse<CancelBulkOrder> {
    /// The identifiers of the orders cancelled.
    pub fn order_ids(&self) -> (r: &Vec<String>)
        ensures
            r@ == self.body.data@,
    {
        &self.body.data
    }
}

pub open spec fn bool_json(b: bool) -> Seq<char> {
    if b {
        "true"@
    } else {
        "false"@
    }
}

/// The members of a bulk cancel; side and settle type only when given.
pub open spec fn bulk_members(
    symbols: Seq<&Symbol>,
    side: Option<&Side>,
    settle_type: Option<&SettleType>,
    desc: bool,
) -> Seq<(Seq<char>, Seq<char>)> {
    let settle = match settle_type {
        Some(st) => seq![("settleType"@, json_string_of(st.wire()))],
        None => Seq::empty(),
    };
    let side_member = match side {
        Some(s) => seq![("side"@, json_string_of(s.wire()))],
        None => Seq::empty(),
    };
    seq![("desc"@, bool_json(desc))] + settle + side_member + seq![
        ("symbols"@, array_json(symbols.map_values(|s: &Symbol| json_string_of(s.wire())))),
    ]
}

/// The JSON body that cancels the orders on `symbols`, filtered by side and
/// settle type when given; `desc` cancels the newest first.
pub fn build_parameters(
    symbols: &[&Symbol],
    side: Option<&Side>,
    settle_type: Option<&SettleType>,
    desc: bool,
) -> (r: String)
    ensures
        r@ == object_json(bulk_members(symbols@, side, settle_type, desc)),
{
    let mut names: Vec<String> = Vec::new();
    let mut i: usize = 0;
    while i < symbols.len()
        invariant
            i <= symbols@.len(),
            names@.len() == i,
            forall|j: int|
                0 <= j < i ==> #[trigger] names@[j]@ == json_string_of(symbols@[j].wire()),
        decreases symbols.len() - i,
    {
        names.push(json_string(symbols[i].to_string()));
        i = i + 1;
    }
    assert(names@.map_values(|t: String| t@) =~= symbols@.map_values(
        |s: &Symbol| json_string_of(s.wire()),
    ));
    proof {
        reveal_strlit("true");
        reveal_strlit("false");
    }
    let mut ms: Vec<Member> = Vec::new();
    ms.push(raw_member("desc", if desc { "true".to_owned() } else { "false".to_owned() }));
    match settle_type {
        Some(st) => ms.push(string_member("settleType", st.to_string())),
        None => {},
    }
    match side {
        Some(s) => ms.push(string_member("side", s.to_string())),
        None => {},
    }
    ms.push(raw_member("symbols", array_text(&names)));
    assert(members_of(ms@) =~= bulk_members(symbols@, side, settle_type, desc));
    object_text(&ms)
}

/// The request that cancels orders in bulk, signed at `timestamp`.
pub fn cancel_bulk_order_request(
    credentials: &Credentials,
    symbols: &[&Symbol],
    side: Option<&Side>,
    settle_type: Option<&SettleType>,
    desc: bool,
    timestamp: i64,
) -> (r: Result<PostRequest, Error>)
    requires
        credentials.api_secret@.len() < MAX_SIGNED_LEN,
    ensures
        ({
            let b = object_json(bulk_members(symbols@, side, settle_type, desc));
            if CANCEL_BULK_ORDERS_API_PATH@.len() + b.len() < MAX_SIGNED_LEN {
                r matches Ok(req) && req.url@ == PRIVATE_ENDPOINT@ + CANCEL_BULK_ORDERS_API_PATH@
                    && req.body@ == b && req.headers@ == post_headers(
                    credentials.api_key@,
                    credentials.api_secret@,
                    CANCEL_BULK_ORDERS_API_PATH@,
                    b,
                    timestamp,
                )
            } else {
                r matches Err(Error::SerializationError)
            }
        }),
{
    let body = build_parameters(symbols, side, settle_type, desc);
    signed_post(credentials, CANCEL_BULK_ORDERS_API_PATH, body, timestamp)
}

} // verus!
