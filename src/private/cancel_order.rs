//! Cancelling one order.

use crate::body::{number_member, object_json, object_text};
use crate::decode::{members_of, FromJson};
use crate::end_point::PRIVATE_ENDPOINT;
use crate::headers::{post_headers, MAX_SIGNED_LEN};
use crate::json::{object_of, read_object, Member};
use crate::numeric::int_text;
use crate::request::{i32_of_text, id_to_num, signed_post, Credentials, PostRequest};
use crate::response::{envelope_fields, read_envelope, Error};
use crate::timestamp::Timestamp;
use vstd::prelude::*;

verus! {

pub const CANCEL_ORDER_API_PATH: &'static str = "/v1/cancelOrder";

/// The response to a cancellation: status and time only.
pub struct CancelOrder {
    pub status: i16,
    pub responsetime: Timestamp,
}

impl FromJson for CancelOrder {
    open spec fn decodable(text: Seq<char>) -> bool {
        object_of(text) matches Some(ms) && envelope_fields(ms) is Some
    }

    open spec fn decodes(text: Seq<char>, x: Self) -> bool {
        object_of(text) matches Some(ms) && envelope_fields(ms) == Some((x.status, x.responsetime))
    }

    fn from_json(text: &str) -> (r: Option<Self>) {
        let ms = read_object(text)?;
        let (status, responsetime) = read_envelope(&ms)?;
        Some(CancelOrder { status, responsetime })
    }
}

/// The body of a cancellation: `{"orderId":N}`.
pub open spec fn cancel_body(order: i32) -> Seq<char> {
    object_json(seq![("orderId"@, int_text(order as int))])
}

/// The JSON body that cancels order `order_id`; `IdToNumberError` when the
/// identifier is not a number.
pub fn build_parameters(order_id: &str) -> (r: Result<String, Error>)
    ensures
        match i32_of_text(order_id@) {
            Some(n) => r matches Ok(b) && b@ == cancel_body(n),
            None => r matches Err(Error::IdToNumberError(s)) && s@ == order_id@,
        },
{
    let n = id_to_num(order_id)?;
    let mut ms: Vec<Member> = Vec::new();
    ms.push(number_member("orderId", n as i64));
    assert(members_of(ms@) =~= seq![("orderId"@, int_text(n as int))]);
    Ok(object_text(&ms))
}

/// The request that cancels order `order_id`, signed at `timestamp`.
pub fn cancel_order_request(credentials: &Credentials, order_id: &str, timestamp: i64) -> (r: Result<PostRequest, Error>)
    requires
        credentials.api_secret@.len() < MAX_SIGNED_LEN,
    ensures
        i32_of_text(order_id@) is None ==> (r matches Err(Error::IdToNumberError(s)) && s@ == order_id@),
        i32_of_text(order_id@) matches Some(n) ==> (if CANCEL_ORDER_API_PATH@.len() + cancel_body(n).len() < MAX_SIGNED_LEN {
            r matches Ok(req) && req.url@ == PRIVATE_ENDPOINT@ + CANCEL_ORDER_API_PATH@ && req.body@ == cancel_body(n)
                && req.headers@ == post_headers(
                credentials.api_key@,
                credentials.api_secret@,
                CANCEL_ORDER_API_PATH@,
                cancel_body(n),
                timestamp,
            )
        } else {
            r matches Err(Error::SerializationError)
        }),
{
    let body = build_parameters(order_id)?;
    signed_post(credentials, CANCEL_ORDER_API_PATH, body, timestamp)
}

} // verus!
