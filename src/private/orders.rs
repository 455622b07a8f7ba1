//! Orders by identifier.

use crate::decode::{list_field_decodable, list_field_decodes, read_list_field, field_decodable, field_decodes, read_field, FromJson};
use crate::dto::Order;
use crate::end_point::PRIVATE_ENDPOINT;
use crate::headers::{get_headers, MAX_SIGNED_LEN};
use crate::json::{object_of, read_object};
use crate::request::{comma_joined, join_ids, single_query, private_get, Credentials, GetRequest};
use crate::response::{envelope_fields, read_envelope, RestResponse};
use crate::timestamp::Timestamp;
use vstd::prelude::*;

verus! {

pub const ORDERS_API_PATH: &'static str = "/v1/orders";

/// The `data` member. The exchange sends `{}` when there are no entries;
/// then the list is empty.
pub struct Data {
    pub list: Vec<Order>,
}

impl FromJson for Data {
    open spec fn decodable(text: Seq<char>) -> bool {
        object_of(text) matches Some(ms) && list_field_decodable::<Order>(ms, "list"@)
    }

    open spec fn decodes(text: Seq<char>, x: Self) -> bool {
        object_of(text) matches Some(ms) && list_field_decodes::<Order>(ms, "list"@, x.list@)
    }

    fn from_json(text: &str) -> (r: Option<Self>) {
        let ms = read_object(text)?;
        let list = read_list_field::<Order>(&ms, "list")?;
        Some(Data { list })
    }
}

/// The response.
pub struct Orders {
    pub status: i16,
    pub responsetime: Timestamp,
    pub data: Data,
}

impl FromJson for Orders {
    open spec fn decodable(text: Seq<char>) -> bool {
        object_of(text) matches Some(ms) && envelope_fields(ms) is Some && field_decodable::<Data>(
            ms,
            "data"@,
        )
    }

    open spec fn decodes(text: Seq<char>, x: Self) -> bool {
        object_of(text) matches Some(ms) && envelope_fields(ms) == Some((x.status, x.responsetime))
            && field_decodes::<Data>(ms, "data"@, x.data)
    }

    fn from_json(text: &str) -> (r: Option<Self>) {
        let ms = read_object(text)?;
        let (status, responsetime) = read_envelope(&ms)?;
        let data = read_field::<Data>(&ms, "data")?;
        Some(Orders { status, responsetime, data })
    }
}

impl RestResponse<Orders> {
    /// The entries.
    pub fn orders(&self) -> (r: &Vec<Order>)
        ensures
            r@ == self.body.data.list@,
    {
        &self.body.data.list
    }
}

/// The request for the orders with the given identifiers (at most ten),
/// signed at `timestamp`.
pub fn orders_request(credentials: &Credentials, order_ids: &Vec<String>, timestamp: i64) -> (r: GetRequest)
    requires
        credentials.api_secret@.len() < MAX_SIGNED_LEN,
    ensures
        r.url@ == PRIVATE_ENDPOINT@ + ORDERS_API_PATH@ + "?orderId="@ + comma_joined(
            order_ids@.map_values(|t: String| t@),
        ),
        r.headers@ == get_headers(
            credentials.api_key@,
            credentials.api_secret@,
            ORDERS_API_PATH@,
            timestamp,
        ),
{
    proof {
        reveal_strlit("/v1/orders");
        reveal_strlit("?orderId=");
        reveal_strlit("?");
        reveal_strlit("orderId");
        reveal_strlit("=");
    }
    let ids = join_ids(order_ids);
    let q = single_query("orderId", ids.as_str());
    assert(q@ =~= "?orderId="@ + ids@);
    private_get(credentials, ORDERS_API_PATH, q.as_str(), timestamp)
}

} // verus!
