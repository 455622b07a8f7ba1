//! Position summary.

use crate::decode::{list_field_decodable, list_field_decodes, read_list_field, field_decodable, field_decodes, read_field, FromJson};
use crate::dto::Summary;
use crate::end_point::PRIVATE_ENDPOINT;
use crate::headers::{get_headers, MAX_SIGNED_LEN};
use crate::json::{object_of, read_object};
use crate::request::{symbol_query, symbol_query_text, private_get, Credentials, GetRequest};
use crate::response::{envelope_fields, read_envelope, RestResponse};
use crate::symbol::Symbol;
use crate::timestamp::Timestamp;
use vstd::prelude::*;

verus! {

pub const POSITION_SUMMARY_API_PATH: &'static str = "/v1/positionSummary";

/// The `data` member. The exchange sends `{}` when there are no entries;
/// then the list is empty.
pub struct Data {
    pub list: Vec<Summary>,
}

impl FromJson for Data {
    open spec fn decodable(text: Seq<char>) -> bool {
        object_of(text) matches Some(ms) && list_field_decodable::<Summary>(ms, "list"@)
    }

    open spec fn decodes(text: Seq<char>, x: Self) -> bool {
        object_of(text) matches Some(ms) && list_field_decodes::<Summary>(ms, "list"@, x.list@)
    }

    fn from_json(text: &str) -> (r: Option<Self>) {
        let ms = read_object(text)?;
        let list = read_list_field::<Summary>(&ms, "list")?;
        Some(Data { list })
    }
}

/// The response.
pub struct PositionSummary {
    pub status: i16,
    pub responsetime: Timestamp,
    pub data: Data,
}

impl FromJson for PositionSummary {
    open spec fn decodable(text: Seq<char>) -> bool {
        object_of(text) matches Some(ms) && envelope_fields(ms) is Some && field_decodable::<Data>(
            ms,
            "data"@,
        )
    }

    open spec fn decodes(text: Seq<char>, x: Self) -> bool {
        object_of(text) matches Some(ms) && envelope_fields(ms) == Some((x.status, x.responsetime))
            && field_decodes::<Data>(ms, "data"@, x.data)
    }

    fn from_json(text: &str) -> (r: Option<Self>) {
        let ms = read_object(text)?;
        let (status, responsetime) = read_envelope(&ms)?;
        let data = read_field::<Data>(&ms, "data")?;
        Some(PositionSummary { status, responsetime, data })
    }
}

impl RestResponse<PositionSummary> {
    /// The entries.
    pub fn position_summaries(&self) -> (r: &Vec<Summary>)
        ensures
            r@ == self.body.data.list@,
    {
        &self.body.data.list
    }
}

/// The request for the position summary of `symbol`, signed at `timestamp`.
pub fn position_summary_request(credentials: &Credentials, symbol: &Symbol, timestamp: i64) -> (r: GetRequest)
    requires
        credentials.api_secret@.len() < MAX_SIGNED_LEN,
    ensures
        r.url@ == PRIVATE_ENDPOINT@ + POSITION_SUMMARY_API_PATH@ + symbol_query_text(*symbol),
        r.headers@ == get_headers(
            credentials.api_key@,
            credentials.api_secret@,
            POSITION_SUMMARY_API_PATH@,
            timestamp,
        ),
{
    proof {
        reveal_strlit("/v1/positionSummary");
    }
    let q = symbol_query(symbol);
    private_get(credentials, POSITION_SUMMARY_API_PATH, q.as_str(), timestamp)
}

} // verus!
