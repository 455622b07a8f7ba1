//! Changing a position's loss-cut price.

use crate::body::{json_string_of, numeric_string_member, object_json, object_text, string_member};
use crate::decode::{members_of, FromJson};
use crate::end_point::PRIVATE_ENDPOINT;
use crate::headers::{post_headers, MAX_SIGNED_LEN};
use crate::json::{object_of, read_object, Member};
use crate::numeric::int_text;
use crate::request::{signed_post, Credentials, PostRequest};
use crate::response::{envelope_fields, read_envelope, Error};
use crate::timestamp::Timestamp;
use vstd::prelude::*;

verus! {

pub const CHANGE_LOSSCUT_PRICE_API_PATH: &'static str = "/v1/changeLosscutPrice";

/// The response to a loss-cut change: status and time only.
pub struct ChangeLosscutPrice {
    pub status: i16,
    pub responsetime: Timestamp,
}

impl FromJson for ChangeLosscutPrice {
    open spec fn decodable(text: Seq<char>) -> bool {
        object_of(text) matches Some(ms) && envelope_fields(ms) is Some
    }

    open spec fn decodes(text: Seq<char>, x: Self) -> bool {
        object_of(text) matches Some(ms) && envelope_fields(ms) == Some((x.status, x.responsetime))
    }

    fn from_json(text: &str) -> (r: Option<Self>) {
        let ms = read_object(text)?;
        let (status, responsetime) = read_envelope(&ms)?;
        Some(ChangeLosscutPrice { status, responsetime })
    }
}

/// The members of a loss-cut change.
pub open spec fn losscut_members(position_id: Seq<char>, losscut_price: i64) -> Seq<(Seq<char>, Seq<char>)> {
    seq![("losscutPrice"@, json_string_of(int_text(losscut_price as int))), ("positionId"@, json_string_of(position_id))]
}

/// The JSON body that sets the loss-cut price of position `position_id`.
pub fn build_parameters(position_id: &str, losscut_price: i64) -> (r: String)
    ensures
        r@ == object_json(losscut_members(position_id@, losscut_price)),
{
    let mut ms: Vec<Member> = Vec::new();
    ms.push(numeric_string_member("losscutPrice", losscut_price));
    ms.push(string_member("positionId", position_id));
    assert(members_of(ms@) =~= losscut_members(position_id@, losscut_price));
    object_text(&ms)
}

/// The request that changes a loss-cut price, signed at `timestamp`.
pub fn change_losscut_price_request(
    credentials: &Credentials,
    position_id: &str,
    losscut_price: i64,
    timestamp: i64,
) -> (r: Result<PostRequest, Error>)
    requires
        credentials.api_secret@.len() < MAX_SIGNED_LEN,
    ensures
        if CHANGE_LOSSCUT_PRICE_API_PATH@.len() + object_json(losscut_members(position_id@, losscut_price)).len() < MAX_SIGNED_LEN {
            r matches Ok(req) && req.url@ == PRIVATE_ENDPOINT@ + CHANGE_LOSSCUT_PRICE_API_PATH@ && req.body@ == object_json(losscut_members(position_id@, losscut_price))
                && req.headers@ == post_headers(
                credentials.api_key@,
                credentials.api_secret@,
                CHANGE_LOSSCUT_PRICE_API_PATH@,
                object_json(losscut_members(position_id@, losscut_price)),
                timestamp,
            )
        } else {
            r matches Err(Error::SerializationError)
        },
{
    let body = build_parameters(position_id, losscut_price);
    signed_post(credentials, CHANGE_LOSSCUT_PRICE_API_PATH, body, timestamp)
}

} // verus!
