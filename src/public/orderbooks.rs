//! Order book.

use crate::decode::{
    decimal_field, field_decodable, field_decodes, int_field, read_decimal, read_field, read_int,
    read_str, str_field, FromJson,
};
use crate::end_point::PUBLIC_ENDPOINT;
use crate::json::{object_of, read_object};
use crate::request::{public_get, symbol_query, symbol_query_text, GetRequest};
use crate::response::{envelope_fields, read_envelope, RestResponse};
use crate::symbol::Symbol;
use crate::timestamp::Timestamp;
use vstd::prelude::*;

verus! {

pub const ORDERBOOKS_API_PATH: &'static str = "/v1/orderbooks";

/// A price level of the book.
pub struct PriceAndSize {
    pub price: i64,
    /// Quantity at this price, as decimal text.
    pub size: String,
}

impl FromJson for PriceAndSize {
    open spec fn decodable(text: Seq<char>) -> bool {
        object_of(text) matches Some(ms) && int_field(ms, "price"@) is Some && decimal_field(
            ms,
            "size"@,
        ) is Some
    }

    open spec fn decodes(text: Seq<char>, x: Self) -> bool {
        object_of(text) matches Some(ms) && int_field(ms, "price"@) == Some(x.price)
            && decimal_field(ms, "size"@) == Some(x.size@)
    }

    fn from_json(text: &str) -> (r: Option<Self>) {
        let ms = read_object(text)?;
        let price = read_int(&ms, "price")?;
        let size = read_decimal(&ms, "size")?;
        Some(PriceAndSize { price, size })
    }
}

/// The `data` member of the order book response.
pub struct Data {
    pub asks: Vec<PriceAndSize>,
    pub bids: Vec<PriceAndSize>,
    pub symbol: String,
}

impl FromJson for Data {
    open spec fn decodable(text: Seq<char>) -> bool {
        object_of(text) matches Some(ms) && field_decodable::<Vec<PriceAndSize>>(ms, "asks"@)
            && field_decodable::<Vec<PriceAndSize>>(ms, "bids"@) && str_field(ms, "symbol"@) is Some
    }

    open spec fn decodes(text: Seq<char>, x: Self) -> bool {
        object_of(text) matches Some(ms) && field_decodes::<Vec<PriceAndSize>>(ms, "asks"@, x.asks)
            && field_decodes::<Vec<PriceAndSize>>(ms, "bids"@, x.bids) && str_field(ms, "symbol"@)
            == Some(x.symbol@)
    }

    fn from_json(text: &str) -> (r: Option<Self>) {
        let ms = read_object(text)?;
        let asks = read_field::<Vec<PriceAndSize>>(&ms, "asks")?;
        let bids = read_field::<Vec<PriceAndSize>>(&ms, "bids")?;
        let symbol = read_str(&ms, "symbol")?;
        Some(Data { asks, bids, symbol })
    }
}

/// The order book response.
pub struct Orderbooks {
    pub status: i16,
    pub responsetime: Timestamp,
    pub data: Data,
}

impl FromJson for Orderbooks {
    open spec fn decodable(text: Seq<char>) -> bool {
        object_of(text) matches Some(ms) && envelope_fields(ms) is Some && field_decodable::<Data>(
            ms,
            "data"@,
        )
    }

    open spec fn decodes(text: Seq<char>, x: Self) -> bool {
        object_of(text) matches Some(ms) && envelope_fields(ms) == Some((x.status, x.responsetime))
            && field_decodes::<Data>(ms, "data"@, x.data)
    }

    fn from_json(text: &str) -> (r: Option<Self>) {
        let ms = read_object(text)?;
        let (status, responsetime) = read_envelope(&ms)?;
        let data = read_field::<Data>(&ms, "data")?;
        Some(Orderbooks { status, responsetime, data })
    }
}

impl RestResponse<Orderbooks> {
    /// The sell side of the book.
    pub fn asks(&self) -> (r: &Vec<PriceAndSize>)
        ensures
            r@ == self.body.data.asks@,
    {
        &self.body.data.asks
    }

    /// The buy side of the book.
    pub fn bids(&self) -> (r: &Vec<PriceAndSize>)
        ensures
            r@ == self.body.data.bids@,
    {
        &self.body.data.bids
    }

    /// The symbol of the book.
    pub fn symbol(&self) -> (r: &String)
        ensures
            r@ == self.body.data.symbol@,
    {
        &self.body.data.symbol
    }
}

/// The request for the order book of `symbol`.
pub fn orderbooks_request(symbol: &Symbol) -> (r: GetRequest)
    ensures
        r.url@ == PUBLIC_ENDPOINT@ + ORDERBOOKS_API_PATH@ + symbol_query_text(*symbol),
        r.headers@.len() == 0,
{
    let q = symbol_query(symbol);
    public_get(ORDERBOOKS_API_PATH, q.as_str())
}

} // verus!
