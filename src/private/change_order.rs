//! Changing an order's price.

use crate::body::{json_string_of, numeric_string_member, object_json, object_text, string_member};
use crate::decode::{members_of, FromJson};
use crate::end_point::PRIVATE_ENDPOINT;
use crate::headers::{post_headers, MAX_SIGNED_LEN};
use crate::json::{object_of, read_object, Member};
use crate::numeric::int_text;
use crate::request::{signed_post, Credentials, PostRequest};
use crate::response::{envelope_fields, read_envelope, Error};
use crate::timestamp::Timestamp;
use vstd::prelude::*;

verus! {

pub const CHANGE_ORDER_API_PATH: &'static str = "/v1/changeOrder";

/// The response to a change: status and time only.
pub struct ChangeOrder {
    pub status: i16,
    pub responsetime: Timestamp,
}

impl FromJson for ChangeOrder {
    open spec fn decodable(text: Seq<char>) -> bool {
        object_of(text) matches Some(ms) && envelope_fields(ms) is Some
    }

    open spec fn decodes(text: Seq<char>, x: Self) -> bool {
        object_of(text) matches Some(ms) && envelope_fields(ms) == Some((x.status, x.responsetime))
    }

    fn from_json(text: &str) -> (r: Option<Self>) {
        let ms = read_object(text)?;
        let (status, responsetime) = read_envelope(&ms)?;
        Some(ChangeOrder { status, responsetime })
    }
}

/// The members of a change: prices as strings, the loss-cut price only when
/// given.
pub open spec fn change_members(order_id: Seq<char>, price: i64, losscut_price: Option<i64>) -> Seq<(Seq<char>, Seq<char>)> {
    let losscut = match losscut_price {
        Some(lp) => seq![("losscutPrice"@, json_string_of(int_text(lp as int)))],
        None => Seq::empty(),
    };
    losscut + seq![("orderId"@, json_string_of(order_id)), ("price"@, json_string_of(int_text(price as int)))]
}

/// The JSON body that changes order `order_id` to `price`, and its loss-cut
/// price when given.
pub fn build_parameters(order_id: &str, price: i64, losscut_price: Option<i64>) -> (r: String)
    ensures
        r@ == object_json(change_members(order_id@, price, losscut_price)),
{
    let mut ms: Vec<Member> = Vec::new();
    match losscut_price {
        Some(lp) => ms.push(numeric_string_member("losscutPrice", lp)),
        None => {},
    }
    ms.push(string_member("orderId", order_id));
    ms.push(numeric_string_member("price", price));
    assert(members_of(ms@) =~= change_members(order_id@, price, losscut_price));
    object_text(&ms)
}

/// The request that changes an order, signed at `timestamp`.
pub fn change_order_request(
    credentials: &Credentials,
    order_id: &str,
    price: i64,
    losscut_price: Option<i64>,
    timestamp: i64,
) -> (r: Result<PostRequest, Error>)
    requires
        credentials.api_secret@.len() < MAX_SIGNED_LEN,
    ensures
        if CHANGE_ORDER_API_PATH@.len() + object_json(change_members(order_id@, price, losscut_price)).len() < MAX_SIGNED_LEN {
            r matches Ok(req) && req.url@ == PRIVATE_ENDPOINT@ + CHANGE_ORDER_API_PATH@ && req.body@ == object_json(change_members(order_id@, price, losscut_price))
                && req.headers@ == post_headers(
                credentials.api_key@,
                credentials.api_secret@,
                CHANGE_ORDER_API_PATH@,
                object_json(change_members(order_id@, price, losscut_price)),
                timestamp,
            )
        } else {
            r matches Err(Error::SerializationError)
        },
{
    let body = build_parameters(order_id, price, losscut_price);
    signed_post(credentials, CHANGE_ORDER_API_PATH, body, timestamp)
}

} // verus!
