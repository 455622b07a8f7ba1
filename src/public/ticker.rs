//! Latest rates.

use crate::decode::{
    decimal_field, field_decodable, field_decodes, int_field, read_decimal, read_field, read_int,
    read_str, read_time, str_field, time_field, FromJson,
};
use crate::end_point::PUBLIC_ENDPOINT;
use crate::json::{object_of, read_object};
use crate::request::{public_get, symbol_query, symbol_query_text, GetRequest};
use crate::response::{envelope_fields, read_envelope, Error, RestResponse};
use crate::symbol::Symbol;
use crate::timestamp::Timestamp;
use vstd::prelude::*;

verus! {

pub const TICKER_API_PATH: &'static str = "/v1/ticker";

/// The latest rates of one symbol.
pub struct Data {
    pub ask: i64,
    pub bid: i64,
    pub high: i64,
    pub last: i64,
    pub low: i64,
    pub symbol: String,
    pub timestamp: Timestamp,
    /// Volume over 24 hours, as decimal text.
    pub volume: String,
}

impl FromJson for Data {
    open spec fn decodable(text: Seq<char>) -> bool {
        object_of(text) matches Some(ms) && {
            &&& int_field(ms, "ask"@) is Some
            &&& int_field(ms, "bid"@) is Some
            &&& int_field(ms, "high"@) is Some
            &&& int_field(ms, "last"@) is Some
            &&& int_field(ms, "low"@) is Some
            &&& str_field(ms, "symbol"@) is Some
            &&& time_field(ms, "timestamp"@) is Some
            &&& decimal_field(ms, "volume"@) is Some
        }
    }

    open spec fn decodes(text: Seq<char>, x: Self) -> bool {
        object_of(text) matches Some(ms) && {
            &&& int_field(ms, "ask"@) == Some(x.ask)
            &&& int_field(ms, "bid"@) == Some(x.bid)
            &&& int_field(ms, "high"@) == Some(x.high)
            &&& int_field(ms, "last"@) == Some(x.last)
            &&& int_field(ms, "low"@) == Some(x.low)
            &&& str_field(ms, "symbol"@) == Some(x.symbol@)
            &&& time_field(ms, "timestamp"@) == Some(x.timestamp)
            &&& decimal_field(ms, "volume"@) == Some(x.volume@)
        }
    }

    fn from_json(text: &str) -> (r: Option<Self>) {
        let ms = read_object(text)?;
        let ask = read_int(&ms, "ask")?;
        let bid = read_int(&ms, "bid")?;
        let high = read_int(&ms, "high")?;
        let last = read_int(&ms, "last")?;
        let low = read_int(&ms, "low")?;
        let symbol = read_str(&ms, "symbol")?;
        let timestamp = read_time(&ms, "timestamp")?;
        let volume = read_decimal(&ms, "volume")?;
        Some(Data { ask, bid, high, last, low, symbol, timestamp, volume })
    }
}

/// The ticker response: one entry per symbol asked for.
pub struct Ticker {
    pub status: i16,
    pub responsetime: Timestamp,
    pub data: Vec<Data>,
}

impl FromJson for Ticker {
    open spec fn decodable(text: Seq<char>) -> bool {
        object_of(text) matches Some(ms) && envelope_fields(ms) is Some && field_decodable::<
            Vec<Data>,
        >(ms, "data"@)
    }

    open spec fn decodes(text: Seq<char>, x: Self) -> bool {
        object_of(text) matches Some(ms) && envelope_fields(ms) == Some((x.status, x.responsetime))
            && field_decodes::<Vec<Data>>(ms, "data"@, x.data)
    }

    fn from_json(text: &str) -> (r: Option<Self>) {
        let ms = read_object(text)?;
        let (status, responsetime) = read_envelope(&ms)?;
        let data = read_field::<Vec<Data>>(&ms, "data")?;
        Some(Ticker { status, responsetime, data })
    }
}

impl RestResponse<Ticker> {
    /// The first entry, or `EmptyResponseError` when there is none.
    pub fn first(&self) -> (r: Result<&Data, Error>)
        ensures
            self.body.data@.len() == 0 ==> r matches Err(Error::EmptyResponseError),
            self.body.data@.len() > 0 ==> (r matches Ok(d) && *d == self.body.data@[0]),
    {
        if self.body.data.len() == 0 {
            Err(Error::EmptyResponseError)
        } else {
            Ok(&self.body.data[0])
        }
    }

    /// Best ask of the first entry.
    pub fn ask(&self) -> (r: Result<i64, Error>)
        ensures
            self.body.data@.len() == 0 ==> r matches Err(Error::EmptyResponseError),
            self.body.data@.len() > 0 ==> r == Ok::<i64, Error>(self.body.data@[0].ask),
    {
        let d = self.first()?;
        Ok(d.ask)
    }

    /// Best bid of the first entry.
    pub fn bid(&self) -> (r: Result<i64, Error>)
        ensures
            self.body.data@.len() == 0 ==> r matches Err(Error::EmptyResponseError),
            self.body.data@.len() > 0 ==> r == Ok::<i64, Error>(self.body.data@[0].bid),
    {
        let d = self.first()?;
        Ok(d.bid)
    }

    /// Highest price of the first entry.
    pub fn high(&self) -> (r: Result<i64, Error>)
        ensures
            self.body.data@.len() == 0 ==> r matches Err(Error::EmptyResponseError),
            self.body.data@.len() > 0 ==> r == Ok::<i64, Error>(self.body.data@[0].high),
    {
        let d = self.first()?;
        Ok(d.high)
    }

    /// Last price of the first entry.
    pub fn last(&self) -> (r: Result<i64, Error>)
        ensures
            self.body.data@.len() == 0 ==> r matches Err(Error::EmptyResponseError),
            self.body.data@.len() > 0 ==> r == Ok::<i64, Error>(self.body.data@[0].last),
    {
        let d = self.first()?;
        Ok(d.last)
    }

    /// Lowest price of the first entry.
    pub fn low(&self) -> (r: Result<i64, Error>)
        ensures
            self.body.data@.len() == 0 ==> r matches Err(Error::EmptyResponseError),
            self.body.data@.len() > 0 ==> r == Ok::<i64, Error>(self.body.data@[0].low),
    {
        let d = self.first()?;
        Ok(d.low)
    }

    /// Symbol of the first entry.
    pub fn symbol(&self) -> (r: Result<&String, Error>)
        ensures
            self.body.data@.len() == 0 ==> r matches Err(Error::EmptyResponseError),
            self.body.data@.len() > 0 ==> (r matches Ok(s) && s@ == self.body.data@[0].symbol@),
    {
        let d = self.first()?;
        Ok(&d.symbol)
    }

    /// Time of the first entry.
    pub fn timestamp(&self) -> (r: Result<Timestamp, Error>)
        ensures
            self.body.data@.len() == 0 ==> r matches Err(Error::EmptyResponseError),
            self.body.data@.len() > 0 ==> r == Ok::<Timestamp, Error>(self.body.data@[0].timestamp),
    {
        let d = self.first()?;
        Ok(d.timestamp)
    }

    /// 24-hour volume of the first entry, as decimal text.
    pub fn volume(&self) -> (r: Result<&String, Error>)
        ensures
            self.body.data@.len() == 0 ==> r matches Err(Error::EmptyResponseError),
            self.body.data@.len() > 0 ==> (r matches Ok(s) && s@ == self.body.data@[0].volume@),
    {
        let d = self.first()?;
        Ok(&d.volume)
    }
}

/// The request for the latest rates of `symbol`.
pub fn ticker_request(symbol: &Symbol) -> (r: GetRequest)
    ensures
        r.url@ == PUBLIC_ENDPOINT@ + TICKER_API_PATH@ + symbol_query_text(*symbol),
        r.headers@.len() == 0,
{
    let q = symbol_query(symbol);
    public_get(TICKER_API_PATH, q.as_str())
}

} // verus!
