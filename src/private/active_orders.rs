//! Active orders.

use crate::decode::{list_field_decodable, list_field_decodes, read_list_field, field_decodable, field_decodes, read_field, FromJson};
use crate::dto::{no_pagination, pagination_field_decodable, pagination_field_decodes, read_pagination, Pagination, Order};
use crate::end_point::PRIVATE_ENDPOINT;
use crate::headers::{get_headers, MAX_SIGNED_LEN};
use crate::json::{member_text, object_of, read_object};
use crate::request::{page_query, page_query_text, private_get, Credentials, GetRequest};
use crate::response::{envelope_fields, read_envelope, RestResponse};
use crate::symbol::Symbol;
use crate::timestamp::Timestamp;
use vstd::prelude::*;

verus! {

pub const ACTIVE_ORDERS_API_PATH: &'static str = "/v1/activeOrders";

/// The `data` member: one page of entries. The exchange sends `{}` when
/// there are none; then the list is empty and the pagination is page 0,
/// count 0.
pub struct Data {
    pub pagination: Pagination,
    pub list: Vec<Order>,
}

impl FromJson for Data {
    open spec fn decodable(text: Seq<char>) -> bool {
        object_of(text) matches Some(ms) && pagination_field_decodable(ms) && list_field_decodable::<
            Order,
        >(ms, "list"@)
    }

    open spec fn decodes(text: Seq<char>, x: Self) -> bool {
        object_of(text) matches Some(ms) && pagination_field_decodes(ms, x.pagination)
            && list_field_decodes::<Order>(ms, "list"@, x.list@)
    }

    fn from_json(text: &str) -> (r: Option<Self>) {
        let ms = read_object(text)?;
        let pagination = read_pagination(&ms)?;
        let list = read_list_field::<Order>(&ms, "list")?;
        Some(Data { pagination, list })
    }
}

/// The response.
pub struct ActiveOrders {
    pub status: i16,
    pub responsetime: Timestamp,
    pub data: Data,
}

impl FromJson for ActiveOrders {
    open spec fn decodable(text: Seq<char>) -> bool {
        object_of(text) matches Some(ms) && envelope_fields(ms) is Some && field_decodable::<Data>(
            ms,
            "data"@,
        )
    }

    open spec fn decodes(text: Seq<char>, x: Self) -> bool {
        object_of(text) matches Some(ms) && envelope_fields(ms) == Some((x.status, x.responsetime))
            && field_decodes::<Data>(ms, "data"@, x.data)
    }

    fn from_json(text: &str) -> (r: Option<Self>) {
        let ms = read_object(text)?;
        let (status, responsetime) = read_envelope(&ms)?;
        let data = read_field::<Data>(&ms, "data")?;
        Some(ActiveOrders { status, responsetime, data })
    }
}

impl RestResponse<ActiveOrders> {
    /// The entries of the page.
    pub fn active_orders(&self) -> (r: &Vec<Order>)
        ensures
            r@ == self.body.data.list@,
    {
        &self.body.data.list
    }

    /// The page returned; 0 when there were no entries.
    pub fn current_page(&self) -> (r: i64)
        ensures
            r == self.body.data.pagination.current_page,
    {
        self.body.data.pagination.current_page
    }

    /// The number of entries per page; 0 when there were no entries.
    pub fn count(&self) -> (r: i64)
        ensures
            r == self.body.data.pagination.count,
    {
        self.body.data.pagination.count
    }
}

/// The request for page `page` of `symbol`, `count` entries per page,
/// signed at `timestamp`.
pub fn active_orders_request(credentials: &Credentials, symbol: &Symbol, page: i32, count: i32, timestamp: i64) -> (r: GetRequest)
    requires
        credentials.api_secret@.len() < MAX_SIGNED_LEN,
    ensures
        r.url@ == PRIVATE_ENDPOINT@ + ACTIVE_ORDERS_API_PATH@ + page_query_text(*symbol, page, count),
        r.headers@ == get_headers(
            credentials.api_key@,
            credentials.api_secret@,
            ACTIVE_ORDERS_API_PATH@,
            timestamp,
        ),
{
    proof {
        reveal_strlit("/v1/activeOrders");
    }
    let q = page_query(symbol, page, count);
    private_get(credentials, ACTIVE_ORDERS_API_PATH, q.as_str(), timestamp)
}

/// When the exchange sends `"data": {}` because there are no active orders,
/// the data still reads: an empty list and page 0, count 0.
pub proof fn lemma_empty_data_reads_as_no_orders(text: Seq<char>)
    requires
        object_of(text) == Some(Seq::<(Seq<char>, Seq<char>)>::empty()),
    ensures
        Data::decodable(text),
        forall|x: Data| Data::decodes(text, x) <==> x.list@.len() == 0 && x.pagination == no_pagination(),
{
}

/// When the exchange sends `"data": {}` because there are no entries, the
/// response still reads: whatever it reads as has an empty list and page 0,
/// count 0.
pub proof fn lemma_empty_data_reads_as_empty_page(text: Seq<char>, ms: Seq<(Seq<char>, Seq<char>)>, data: Seq<char>)
    requires
        object_of(text) == Some(ms),
        envelope_fields(ms) is Some,
        member_text(ms, "data"@) == Some(data),
        object_of(data) == Some(Seq::<(Seq<char>, Seq<char>)>::empty()),
    ensures
        ActiveOrders::decodable(text),
        forall|x: ActiveOrders| ActiveOrders::decodes(text, x) ==> x.data.list@.len() == 0 && x.data.pagination
            == no_pagination(),
{
}

} // verus!
