//! Executions of an order.

use crate::decode::{list_field_decodable, list_field_decodes, read_list_field, field_decodable, field_decodes, read_field, FromJson};
use crate::dto::Execution;
use crate::end_point::PRIVATE_ENDPOINT;
use crate::headers::{get_headers, MAX_SIGNED_LEN};
use crate::json::{object_of, read_object};
use crate::request::{single_query, private_get, Credentials, GetRequest};
use crate::response::{envelope_fields, read_envelope, RestResponse};
use crate::timestamp::Timestamp;
use vstd::prelude::*;

verus! {

pub const EXECUTIONS_API_PATH: &'static str = "/v1/executions";

/// The `data` member. The exchange sends `{}` when there are no entries;
/// then the list is empty.
pub struct Data {
    pub list: Vec<Execution>,
}

impl FromJson for Data {
    open spec fn decodable(text: Seq<char>) -> bool {
        object_of(text) matches Some(ms) && list_field_decodable::<Execution>(ms, "list"@)
    }

    open spec fn decodes(text: Seq<char>, x: Self) -> bool {
        object_of(text) matches Some(ms) && list_field_decodes::<Execution>(ms, "list"@, x.list@)
    }

    fn from_json(text: &str) -> (r: Option<Self>) {
        let ms = read_object(text)?;
        let list = read_list_field::<Execution>(&ms, "list")?;
        Some(Data { list })
    }
}

/// The response.
pub struct Executions {
    pub status: i16,
    pub responsetime: Timestamp,
    pub data: Data,
}

impl FromJson for Executions {
    open spec fn decodable(text: Seq<char>) -> bool {
        object_of(text) matches Some(ms) && envelope_fields(ms) is Some && field_decodable::<Data>(
            ms,
            "data"@,
        )
    }

    open spec fn decodes(text: Seq<char>, x: Self) -> bool {
        object_of(text) matches Some(ms) && envelope_fields(ms) == Some((x.status, x.responsetime))
            && field_decodes::<Data>(ms, "data"@, x.data)
    }

    fn from_json(text: &str) -> (r: Option<Self>) {
        let ms = read_object(text)?;
        let (status, responsetime) = read_envelope(&ms)?;
        let data = read_field::<Data>(&ms, "data")?;
        Some(Executions { status, responsetime, data })
    }
}

impl RestResponse<Executions> {
    /// The entries.
    pub fn executions(&self) -> (r: &Vec<Execution>)
        ensures
            r@ == self.body.data.list@,
    {
        &self.body.data.list
    }
}

/// The request for the executions of order `order_id`, signed at `timestamp`.
pub fn executions_with_order_id_request(credentials: &Credentials, order_id: &str, timestamp: i64) -> (r: GetRequest)
    requires
        credentials.api_secret@.len() < MAX_SIGNED_LEN,
    ensures
        r.url@ == PRIVATE_ENDPOINT@ + EXECUTIONS_API_PATH@ + "?"@ + "orderId"@ + "="@ + order_id@,
        r.headers@ == get_headers(
            credentials.api_key@,
            credentials.api_secret@,
            EXECUTIONS_API_PATH@,
            timestamp,
        ),
{
    proof {
        reveal_strlit("/v1/executions");
    }
    let q = single_query("orderId", order_id);
    private_get(credentials, EXECUTIONS_API_PATH, q.as_str(), timestamp)
}

/// The request for execution `execution_id`, signed at `timestamp`.
pub fn executions_with_execution_id_request(credentials: &Credentials, execution_id: &str, timestamp: i64) -> (r: GetRequest)
    requires
        credentials.api_secret@.len() < MAX_SIGNED_LEN,
    ensures
        r.url@ == PRIVATE_ENDPOINT@ + EXECUTIONS_API_PATH@ + "?"@ + "executionId"@ + "="@ + execution_id@,
        r.headers@ == get_headers(
            credentials.api_key@,
            credentials.api_secret@,
            EXECUTIONS_API_PATH@,
            timestamp,
        ),
{
    proof {
        reveal_strlit("/v1/executions");
    }
    let q = single_query("executionId", execution_id);
    private_get(credentials, EXECUTIONS_API_PATH, q.as_str(), timestamp)
}

} // verus!
