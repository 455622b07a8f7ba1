//! Public trade history.

use crate::decode::{
    field_decodable, field_decodes, list_field_decodable, list_field_decodes, read_field,
    read_list_field, FromJson,
};
use crate::dto::{
    no_pagination, pagination_field_decodable, pagination_field_decodes, read_pagination,
    Pagination, Trade, DEFAULT_COUNT, DEFAULT_PAGE,
};
use crate::end_point::PUBLIC_ENDPOINT;
use crate::json::{member_text, object_of, read_object};
use crate::request::{page_query, page_query_text, public_get, GetRequest};
use crate::response::{envelope_fields, read_envelope, RestResponse};
use crate::symbol::Symbol;
use crate::timestamp::Timestamp;
use vstd::prelude::*;

verus! {

pub const TRADES_API_PATH: &'static str = "/v1/trades";

/// The `data` member of the trade history: one page of trades. When the
/// exchange sends `{}` because there are none, the list is empty and the
/// pagination is page 0, count 0.
pub struct Data {
    pub list: Vec<Trade>,
    pub pagination: Pagination,
}

impl FromJson for Data {
    open spec fn decodable(text: Seq<char>) -> bool {
        object_of(text) matches Some(ms) && list_field_decodable::<Trade>(ms, "list"@)
            && pagination_field_decodable(ms)
    }

    open spec fn decodes(text: Seq<char>, x: Self) -> bool {
        object_of(text) matches Some(ms) && list_field_decodes::<Trade>(ms, "list"@, x.list@)
            && pagination_field_decodes(ms, x.pagination)
    }

    fn from_json(text: &str) -> (r: Option<Self>) {
        let ms = read_object(text)?;
        let list = read_list_field::<Trade>(&ms, "list")?;
        let pagination = read_pagination(&ms)?;
        Some(Data { list, pagination })
    }
}

/// The trade history response.
pub struct Trades {
    pub status: i16,
    pub responsetime: Timestamp,
    pub data: Data,
}

impl FromJson for Trades {
    open spec fn decodable(text: Seq<char>) -> bool {
        object_of(text) matches Some(ms) && envelope_fields(ms) is Some && field_decodable::<Data>(
            ms,
            "data"@,
        )
    }

    open spec fn decodes(text: Seq<char>, x: Self) -> bool {
        object_of(text) matches Some(ms) && envelope_fields(ms) == Some((x.status, x.responsetime))
            && field_decodes::<Data>(ms, "data"@, x.data)
    }

    fn from_json(text: &str) -> (r: Option<Self>) {
        let ms = read_object(text)?;
        let (status, responsetime) = read_envelope(&ms)?;
        let data = read_field::<Data>(&ms, "data")?;
        Some(Trades { status, responsetime, data })
    }
}

impl RestResponse<Trades> {
    /// The trades of the page.
    pub fn trades(&self) -> (r: &Vec<Trade>)
        ensures
            r@ == self.body.data.list@,
    {
        &self.body.data.list
    }

    /// The page returned.
    pub fn page(&self) -> (r: i64)
        ensures
            r == self.body.data.pagination.current_page,
    {
        self.body.data.pagination.current_page
    }

    /// The number of entries per page.
    pub fn count(&self) -> (r: i64)
        ensures
            r == self.body.data.pagination.count,
    {
        self.body.data.pagination.count
    }
}

/// The request for page `page` of the trade history of `symbol`, `count`
/// trades per page.
pub fn trades_request_with_options(symbol: &Symbol, page: i32, count: i32) -> (r: GetRequest)
    ensures
        r.url@ == PUBLIC_ENDPOINT@ + TRADES_API_PATH@ + page_query_text(*symbol, page, count),
        r.headers@.len() == 0,
{
    let q = page_query(symbol, page, count);
    public_get(TRADES_API_PATH, q.as_str())
}

/// The request for the first page of the trade history, at the largest page
/// size.
pub fn trades_request(symbol: &Symbol) -> (r: GetRequest)
    ensures
        r.url@ == PUBLIC_ENDPOINT@ + TRADES_API_PATH@ + page_query_text(
            *symbol,
            DEFAULT_PAGE,
            DEFAULT_COUNT,
        ),
        r.headers@.len() == 0,
{
    trades_request_with_options(symbol, DEFAULT_PAGE, DEFAULT_COUNT)
}

/// When the exchange sends `"data": {}` because there are no entries, the
/// response still reads: whatever it reads as has an empty list and page 0,
/// count 0.
pub proof fn lemma_empty_data_reads_as_empty_page(text: Seq<char>, ms: Seq<(Seq<char>, Seq<char>)>, data: Seq<char>)
    requires
        object_of(text) == Some(ms),
        envelope_fields(ms) is Some,
        member_text(ms, "data"@) == Some(data),
        object_of(data) == Some(Seq::<(Seq<char>, Seq<char>)>::empty()),
    ensures
        Trades::decodable(text),
        forall|x: Trades| Trades::decodes(text, x) ==> x.data.list@.len() == 0 && x.data.pagination
            == no_pagination(),
{
}

} // verus!
