//! Placing an order.

use crate::body::{json_string_of, number_member, numeric_string_member, object_json, object_text, string_member};
use crate::decode::{members_of, read_str, str_field, FromJson};
use crate::end_point::PRIVATE_ENDPOINT;
use crate::execution_type::ExecutionType;
use crate::headers::{post_headers, MAX_SIGNED_LEN};
use crate::json::{object_of, read_object, Member};
use crate::numeric::int_text;
use crate::request::{signed_post, Credentials, PostRequest};
use crate::response::{envelope_fields, read_envelope, Error, RestResponse};
use crate::side::Side;
use crate::symbol::Symbol;
use crate::time_in_force::{tif_to_string, TimeInForce};
use crate::timestamp::Timestamp;
use vstd::prelude::*;

verus! {

pub const ORDER_API_PATH: &'static str = "/v1/order";

/// The response to an order: the new order's identifier.
pub struct Order {
    pub status: i16,
    pub responsetime: Timestamp,
    pub data: String,
}

impl FromJson for Order {
    open spec fn decodable(text: Seq<char>) -> bool {
        object_of(text) matches Some(ms) && envelope_fields(ms) is Some && str_field(ms, "data"@) is Some
    }

    open spec fn decodes(text: Seq<char>, x: Self) -> bool {
        object_of(text) matches Some(ms) && envelope_fields(ms) == Some((x.status, x.responsetime))
            && str_field(ms, "data"@) == Some(x.data@)
    }

    fn from_json(text: &str) -> (r: Option<Self>) {
        let ms = read_object(text)?;
        let (status, responsetime) = read_envelope(&ms)?;
        let data = read_str(&ms, "data")?;
        Some(Order { status, responsetime, data })
    }
}

impl RestResponse<Order> {
    /// The new order's identifier.
    pub fn order_id(&self) -> (r: &str)
        ensures
            r@ == self.body.data@,
    {
        self.body.data.as_str()
    }
}

/// The members of a market order's body.
pub open spec fn market_members(
    execution_type: ExecutionType,
    symbol: Symbol,
    side: Side,
    size: Seq<char>,
    time_in_force: TimeInForce,
) -> Seq<(Seq<char>, Seq<char>)> {
    seq![
        ("executionType"@, json_string_of(execution_type.wire())),
        ("side"@, json_string_of(side.wire())),
        ("size"@, json_string_of(size)),
        ("symbol"@, json_string_of(symbol.wire())),
        ("timeInForce"@, json_string_of(time_in_force.wire())),
    ]
}

/// The members of a limit or stop order's body. The loss-cut price, when
/// given, is a JSON number; the price is a string.
pub open spec fn limit_or_stop_members(
    execution_type: ExecutionType,
    symbol: Symbol,
    side: Side,
    size: Seq<char>,
    time_in_force: TimeInForce,
    price: i64,
    losscut_price: Option<i64>,
) -> Seq<(Seq<char>, Seq<char>)> {
    let losscut = match losscut_price {
        Some(lp) => seq![("losscutPrice"@, int_text(lp as int))],
        None => Seq::empty(),
    };
    seq![("executionType"@, json_string_of(execution_type.wire()))] + losscut + seq![
        ("price"@, json_string_of(int_text(price as int))),
        ("side"@, json_string_of(side.wire())),
        ("size"@, json_string_of(size)),
        ("symbol"@, json_string_of(symbol.wire())),
        ("timeInForce"@, json_string_of(time_in_force.wire())),
    ]
}

/// The body of an order, or the rule it breaks: a market order takes no
/// price, a limit or stop order needs one. A market order ignores the
/// loss-cut price.
pub open spec fn order_body(
    execution_type: ExecutionType,
    symbol: Symbol,
    side: Side,
    size: Seq<char>,
    time_in_force: TimeInForce,
    price: Option<i64>,
    losscut_price: Option<i64>,
) -> Result<Seq<char>, Error> {
    match (execution_type, price) {
        (ExecutionType::Market, None) => Ok(
            object_json(market_members(execution_type, symbol, side, size, time_in_force)),
        ),
        (ExecutionType::Market, Some(_)) => Err(Error::PriceNotAllowedError),
        (_, Some(p)) => Ok(
            object_json(
                limit_or_stop_members(execution_type, symbol, side, size, time_in_force, p, losscut_price),
            ),
        ),
        (_, None) => Err(Error::PriceNotSpecifiedError),
    }
}

/// Whether `r` is the outcome that `expected` describes.
pub open spec fn body_outcome(r: Result<String, Error>, expected: Result<Seq<char>, Error>) -> bool {
    match expected {
        Ok(b) => r matches Ok(t) && t@ == b,
        Err(Error::PriceNotAllowedError) => r matches Err(Error::PriceNotAllowedError),
        Err(Error::PriceNotSpecifiedError) => r matches Err(Error::PriceNotSpecifiedError),
        Err(_) => false,
    }
}

fn build_market_parameters(
    execution_type: &ExecutionType,
    symbol: &Symbol,
    side: &Side,
    size: &str,
    time_in_force: &TimeInForce,
) -> (r: String)
    ensures
        r@ == object_json(market_members(*execution_type, *symbol, *side, size@, *time_in_force)),
{
    let mut ms: Vec<Member> = Vec::new();
    ms.push(string_member("executionType", execution_type.to_string()));
    ms.push(string_member("side", side.to_string()));
    ms.push(string_member("size", size));
    ms.push(string_member("symbol", symbol.to_string()));
    ms.push(string_member("timeInForce", tif_to_string(time_in_force)));
    assert(members_of(ms@) =~= market_members(*execution_type, *symbol, *side, size@, *time_in_force));
    object_text(&ms)
}

fn build_limit_or_stop_parameters(
    execution_type: &ExecutionType,
    symbol: &Symbol,
    side: &Side,
    size: &str,
    time_in_force: &TimeInForce,
    price: i64,
    losscut_price: Option<i64>,
) -> (r: String)
    ensures
        r@ == object_json(
            limit_or_stop_members(*execution_type, *symbol, *side, size@, *time_in_force, price, losscut_price),
        ),
{
    let mut ms: Vec<Member> = Vec::new();
    ms.push(string_member("executionType", execution_type.to_string()));
    match losscut_price {
        Some(lp) => ms.push(number_member("losscutPrice", lp)),
        None => {},
    }
    ms.push(numeric_string_member("price", price));
    ms.push(string_member("side", side.to_string()));
    ms.push(string_member("size", size));
    ms.push(string_member("symbol", symbol.to_string()));
    ms.push(string_member("timeInForce", tif_to_string(time_in_force)));
    assert(members_of(ms@) =~= limit_or_stop_members(
        *execution_type,
        *symbol,
        *side,
        size@,
        *time_in_force,
        price,
        losscut_price,
    ));
    object_text(&ms)
}

/// The JSON body of an order; `size` is the quantity as decimal text.
pub fn build_parameters(
    execution_type: &ExecutionType,
    symbol: &Symbol,
    side: &Side,
    size: &str,
    time_in_force: &TimeInForce,
    price: Option<i64>,
    losscut_price: Option<i64>,
) -> (r: Result<String, Error>)
    ensures
        body_outcome(
            r,
            order_body(*execution_type, *symbol, *side, size@, *time_in_force, price, losscut_price),
        ),
{
    match execution_type {
        ExecutionType::Market => match price {
            None => Ok(build_market_parameters(execution_type, symbol, side, size, time_in_force)),
            Some(_) => Err(Error::PriceNotAllowedError),
        },
        _ => match price {
            Some(p) => Ok(
                build_limit_or_stop_parameters(
                    execution_type,
                    symbol,
                    side,
                    size,
                    time_in_force,
                    p,
                    losscut_price,
                ),
            ),
            None => Err(Error::PriceNotSpecifiedError),
        },
    }
}

/// The request that places an order, signed at `timestamp`.
pub fn order_request(
    credentials: &Credentials,
    execution_type: &ExecutionType,
    symbol: &Symbol,
    side: &Side,
    size: &str,
    time_in_force: &TimeInForce,
    price: Option<i64>,
    losscut_price: Option<i64>,
    timestamp: i64,
) -> (r: Result<PostRequest, Error>)
    requires
        credentials.api_secret@.len() < MAX_SIGNED_LEN,
    ensures
        match order_body(*execution_type, *symbol, *side, size@, *time_in_force, price, losscut_price) {
            Ok(b) => if ORDER_API_PATH@.len() + b.len() < MAX_SIGNED_LEN {
                r matches Ok(req) && req.url@ == PRIVATE_ENDPOINT@ + ORDER_API_PATH@ && req.body@ == b
                    && req.headers@ == post_headers(
                    credentials.api_key@,
                    credentials.api_secret@,
                    ORDER_API_PATH@,
                    b,
                    timestamp,
                )
            } else {
                r matches Err(Error::SerializationError)
            },
            Err(Error::PriceNotAllowedError) => r matches Err(Error::PriceNotAllowedError),
            Err(_) => r matches Err(Error::PriceNotSpecifiedError),
        },
{
    let body = build_parameters(execution_type, symbol, side, size, time_in_force, price, losscut_price)?;
    signed_post(credentials, ORDER_API_PATH, body, timestamp)
}

} // verus!
