//! Asset balances.

use crate::decode::{
    decimal_field, list_field_decodable, list_field_decodes, read_decimal, read_list_field,
    read_str, str_field, FromJson,
};
use crate::end_point::PRIVATE_ENDPOINT;
use crate::headers::{get_headers, MAX_SIGNED_LEN};
use crate::json::{object_of, read_object};
use crate::request::{private_get, Credentials, GetRequest};
use crate::response::{envelope_fields, read_envelope, RestResponse};
use crate::timestamp::Timestamp;
use vstd::prelude::*;

verus! {

pub const ASSETS_API_PATH: &'static str = "/v1/account/assets";

/// The balance of one asset. Amounts are decimal text.
pub struct Data {
    pub amount: String,
    /// Balance less pending withdrawals.
    pub available: String,
    /// Rate to yen.
    pub conversion_rate: String,
    pub symbol: String,
}

impl FromJson for Data {
    open spec fn decodable(text: Seq<char>) -> bool {
        object_of(text) matches Some(ms) && {
            &&& decimal_field(ms, "amount"@) is Some
            &&& decimal_field(ms, "available"@) is Some
            &&& decimal_field(ms, "conversionRate"@) is Some
            &&& str_field(ms, "symbol"@) is Some
        }
    }

    open spec fn decodes(text: Seq<char>, x: Self) -> bool {
        object_of(text) matches Some(ms) && {
            &&& decimal_field(ms, "amount"@) == Some(x.amount@)
            &&& decimal_field(ms, "available"@) == Some(x.available@)
            &&& decimal_field(ms, "conversionRate"@) == Some(x.conversion_rate@)
            &&& str_field(ms, "symbol"@) == Some(x.symbol@)
        }
    }

    fn from_json(text: &str) -> (r: Option<Self>) {
        let ms = read_object(text)?;
        let amount = read_decimal(&ms, "amount")?;
        let available = read_decimal(&ms, "available")?;
        let conversion_rate = read_decimal(&ms, "conversionRate")?;
        let symbol = read_str(&ms, "symbol")?;
        Some(Data { amount, available, conversion_rate, symbol })
    }
}

/// The asset balances response; no balances when `data` is left out.
pub struct Assets {
    pub status: i16,
    pub responsetime: Timestamp,
    pub data: Vec<Data>,
}

impl FromJson for Assets {
    open spec fn decodable(text: Seq<char>) -> bool {
        object_of(text) matches Some(ms) && envelope_fields(ms) is Some && list_field_decodable::<
            Data,
        >(ms, "data"@)
    }

    open spec fn decodes(text: Seq<char>, x: Self) -> bool {
        object_of(text) matches Some(ms) && envelope_fields(ms) == Some((x.status, x.responsetime))
            && list_field_decodes::<Data>(ms, "data"@, x.data@)
    }

    fn from_json(text: &str) -> (r: Option<Self>) {
        let ms = read_object(text)?;
        let (status, responsetime) = read_envelope(&ms)?;
        let data = read_list_field::<Data>(&ms, "data")?;
        Some(Assets { status, responsetime, data })
    }
}

impl RestResponse<Assets> {
    /// The balances.
    pub fn assets(&self) -> (r: &Vec<Data>)
        ensures
            r@ == self.body.data@,
    {
        &self.body.data
    }
}

/// The request for the asset balances, signed at `timestamp`.
pub fn assets_request(credentials: &Credentials, timestamp: i64) -> (r: GetRequest)
    requires
        credentials.api_secret@.len() < MAX_SIGNED_LEN,
    ensures
        r.url@ == PRIVATE_ENDPOINT@ + ASSETS_API_PATH@,
        r.headers@ == get_headers(
            credentials.api_key@,
            credentials.api_secret@,
            ASSETS_API_PATH@,
            timestamp,
        ),
{
    proof {
        reveal_strlit("");
        reveal_strlit("/v1/account/assets");
    }
    let r = private_get(credentials, ASSETS_API_PATH, "", timestamp);
    assert(r.url@ =~= PRIVATE_ENDPOINT@ + ASSETS_API_PATH@);
    r
}

} // verus!
