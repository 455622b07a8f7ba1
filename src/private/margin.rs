//! Margin.

use crate::decode::{field_decodable, field_decodes, int_field, read_field, read_int, FromJson};
use crate::end_point::PRIVATE_ENDPOINT;
use crate::headers::{get_headers, MAX_SIGNED_LEN};
use crate::json::{object_of, read_object};
use crate::request::{private_get, Credentials, GetRequest};
use crate::response::{envelope_fields, read_envelope, RestResponse};
use crate::timestamp::Timestamp;
use vstd::prelude::*;

verus! {

pub const MARGIN_API_PATH: &'static str = "/v1/account/margin";

/// The `data` member of the margin response, in yen.
pub struct Data {
    pub actual_profit_loss: i64,
    pub available_amount: i64,
    pub margin: i64,
    pub profit_loss: i64,
}

impl FromJson for Data {
    open spec fn decodable(text: Seq<char>) -> bool {
        object_of(text) matches Some(ms) && {
            &&& int_field(ms, "actualProfitLoss"@) is Some
            &&& int_field(ms, "availableAmount"@) is Some
            &&& int_field(ms, "margin"@) is Some
            &&& int_field(ms, "profitLoss"@) is Some
        }
    }

    open spec fn decodes(text: Seq<char>, x: Self) -> bool {
        object_of(text) matches Some(ms) && {
            &&& int_field(ms, "actualProfitLoss"@) == Some(x.actual_profit_loss)
            &&& int_field(ms, "availableAmount"@) == Some(x.available_amount)
            &&& int_field(ms, "margin"@) == Some(x.margin)
            &&& int_field(ms, "profitLoss"@) == Some(x.profit_loss)
        }
    }

    fn from_json(text: &str) -> (r: Option<Self>) {
        let ms = read_object(text)?;
        let actual_profit_loss = read_int(&ms, "actualProfitLoss")?;
        let available_amount = read_int(&ms, "availableAmount")?;
        let margin = read_int(&ms, "margin")?;
        let profit_loss = read_int(&ms, "profitLoss")?;
        Some(Data { actual_profit_loss, available_amount, margin, profit_loss })
    }
}

/// The margin response.
pub struct Margin {
    pub status: i16,
    pub responsetime: Timestamp,
    pub data: Data,
}

impl FromJson for Margin {
    open spec fn decodable(text: Seq<char>) -> bool {
        object_of(text) matches Some(ms) && envelope_fields(ms) is Some && field_decodable::<Data>(
            ms,
            "data"@,
        )
    }

    open spec fn decodes(text: Seq<char>, x: Self) -> bool {
        object_of(text) matches Some(ms) && envelope_fields(ms) == Some((x.status, x.responsetime))
            && field_decodes::<Data>(ms, "data"@, x.data)
    }

    fn from_json(text: &str) -> (r: Option<Self>) {
        let ms = read_object(text)?;
        let (status, responsetime) = read_envelope(&ms)?;
        let data = read_field::<Data>(&ms, "data")?;
        Some(Margin { status, responsetime, data })
    }
}

impl RestResponse<Margin> {
    /// Total valuation.
    pub fn actual_profit_loss(&self) -> (r: i64)
        ensures
            r == self.body.data.actual_profit_loss,
    {
        self.body.data.actual_profit_loss
    }

    /// Amount available for trading.
    pub fn availabel_amount(&self) -> (r: i64)
        ensures
            r == self.body.data.available_amount,
    {
        self.body.data.available_amount
    }

    /// Margin in use.
    pub fn margin(&self) -> (r: i64)
        ensures
            r == self.body.data.margin,
    {
        self.body.data.margin
    }

    /// Unrealised profit or loss.
    pub fn profit_loss(&self) -> (r: i64)
        ensures
            r == self.body.data.profit_loss,
    {
        self.body.data.profit_loss
    }
}

/// The request for the margin, signed at `timestamp`.
pub fn margin_request(credentials: &Credentials, timestamp: i64) -> (r: GetRequest)
    requires
        credentials.api_secret@.len() < MAX_SIGNED_LEN,
    ensures
        r.url@ == PRIVATE_ENDPOINT@ + MARGIN_API_PATH@,
        r.headers@ == get_headers(
            credentials.api_key@,
            credentials.api_secret@,
            MARGIN_API_PATH@,
            timestamp,
        ),
{
    proof {
        reveal_strlit("");
        reveal_strlit("/v1/account/margin");
    }
    let r = private_get(credentials, MARGIN_API_PATH, "", timestamp);
    assert(r.url@ =~= PRIVATE_ENDPOINT@ + MARGIN_API_PATH@);
    r
}

} // verus!
