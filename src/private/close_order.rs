//! Closing a position with an order.

use crate::body::{
    array_json, array_text, json_string_of, number_member, numeric_string_member, object_json,
    object_text, raw_member, string_member,
};
use crate::decode::{members_of, read_str, str_field, FromJson};
use crate::end_point::PRIVATE_ENDPOINT;
use crate::execution_type::ExecutionType;
use crate::headers::{post_headers, MAX_SIGNED_LEN};
use crate::json::{object_of, read_object, Member};
use crate::numeric::int_text;
use crate::request::{i32_of_text, id_to_num, signed_post, Credentials, PostRequest};
use crate::response::{envelope_fields, read_envelope, Error, RestResponse};
use crate::side::Side;
use crate::symbol::Symbol;
use crate::time_in_force::{tif_to_string, TimeInForce};
use crate::timestamp::Timestamp;
use vstd::prelude::*;

verus! {

pub const CLOSE_ORDER_API_PATH: &'static str = "/v1/closeOrder";

/// The response to a closing order: the new order's identifier.
pub struct CloseOrder {
    pub status: i16,
    pub responsetime: Timestamp,
    pub data: String,
}

impl FromJson for CloseOrder {
    open spec fn decodable(text: Seq<char>) -> bool {
        object_of(text) matches Some(ms) && envelope_fields(ms) is Some && str_field(ms, "data"@) is Some
    }

    open spec fn decodes(text: Seq<char>, x: Self) -> bool {
        object_of(text) matches Some(ms) && envelope_fields(ms) == Some((x.status, x.responsetime))
            && str_field(ms, "data"@) == Some(x.data@)
    }

    fn from_json(text: &str) -> (r: Option<Self>) {
        let ms = read_object(text)?;
        let (status, responsetime) = read_envelope(&ms)?;
        let data = read_str(&ms, "data")?;
        Some(CloseOrder { status, responsetime, data })
    }
}

impl RestResponse<CloseOrder> {
    /// The new order's identifier.
    pub fn order_id(&self) -> (r: &str)
        ensures
            r@ == self.body.data@,
    {
        self.body.data.as_str()
    }
}

/// `[{"positionId":ID,"size":"SIZE"}]`: the position to close and how much.
pub open spec fn settle_position_json(position: i32, size: Seq<char>) -> Seq<char> {
    array_json(seq![object_json(seq![("positionId"@, int_text(position as int)), ("size"@, json_string_of(size))])])
}

/// The members of a closing order's body; `price` is given for limit and
/// stop orders only.
pub open spec fn close_members(
    execution_type: ExecutionType,
    symbol: Symbol,
    side: Side,
    size: Seq<char>,
    price: Option<i64>,
    position: i32,
    time_in_force: TimeInForce,
) -> Seq<(Seq<char>, Seq<char>)> {
    let price_member = match price {
        Some(p) => seq![("price"@, json_string_of(int_text(p as int)))],
        None => Seq::empty(),
    };
    seq![("executionType"@, json_string_of(execution_type.wire()))] + price_member + seq![
        ("settlePosition"@, settle_position_json(position, size)),
        ("side"@, json_string_of(side.wire())),
        ("symbol"@, json_string_of(symbol.wire())),
        ("timeInForce"@, json_string_of(time_in_force.wire())),
    ]
}

/// Whether the price agrees with the execution type: given exactly for limit
/// and stop orders.
pub open spec fn price_fits(execution_type: ExecutionType, price: Option<i64>) -> bool {
    (execution_type == ExecutionType::Market) == (price is None)
}

/// The JSON body of a closing order. A market order takes no price
/// (`PriceNotAllowedError`), a limit or stop order needs one
/// (`PriceNotSpecifiedError`), and the position identifier must be a number
/// (`IdToNumberError`).
pub fn build_parameters(
    execution_type: &ExecutionType,
    symbol: &Symbol,
    side: &Side,
    size: &str,
    price: Option<i64>,
    position_id: &str,
    time_in_force: &TimeInForce,
) -> (r: Result<String, Error>)
    ensures
        *execution_type == ExecutionType::Market && price is Some ==> (r matches Err(
            Error::PriceNotAllowedError,
        )),
        *execution_type != ExecutionType::Market && price is None ==> (r matches Err(
            Error::PriceNotSpecifiedError,
        )),
        price_fits(*execution_type, price) && i32_of_text(position_id@) is None ==> (r matches Err(
            Error::IdToNumberError(s),
        ) && s@ == position_id@),
        price_fits(*execution_type, price) && i32_of_text(position_id@) is Some ==> (r matches Ok(b)
            && b@ == object_json(
            close_members(
                *execution_type,
                *symbol,
                *side,
                size@,
                price,
                i32_of_text(position_id@).unwrap(),
                *time_in_force,
            ),
        )),
{
    match (execution_type, price) {
        (ExecutionType::Market, Some(_)) => return Err(Error::PriceNotAllowedError),
        (ExecutionType::Limit, None) | (ExecutionType::Stop, None) => return Err(
            Error::PriceNotSpecifiedError,
        ),
        _ => {},
    }
    let position = id_to_num(position_id)?;
    let mut settle: Vec<Member> = Vec::new();
    settle.push(number_member("positionId", position as i64));
    settle.push(string_member("size", size));
    let mut positions: Vec<String> = Vec::new();
    positions.push(object_text(&settle));
    assert(positions@.map_values(|t: String| t@) =~= seq![object_json(members_of(settle@))]);
    assert(members_of(settle@) =~= seq![("positionId"@, int_text(position as int)), ("size"@, json_string_of(size@))]);
    let mut ms: Vec<Member> = Vec::new();
    ms.push(string_member("executionType", execution_type.to_string()));
    match price {
        Some(p) => ms.push(numeric_string_member("price", p)),
        None => {},
    }
    ms.push(raw_member("settlePosition", array_text(&positions)));
    ms.push(string_member("side", side.to_string()));
    ms.push(string_member("symbol", symbol.to_string()));
    ms.push(string_member("timeInForce", tif_to_string(time_in_force)));
    assert(members_of(ms@) =~= close_members(
        *execution_type,
        *symbol,
        *side,
        size@,
        price,
        position,
        *time_in_force,
    ));
    Ok(object_text(&ms))
}

/// The request that places a closing order, signed at `timestamp`; fails as
/// [`build_parameters`] does, or with `SerializationError` when the body is
/// too long to sign.
pub fn close_order_request(
    credentials: &Credentials,
    execution_type: &ExecutionType,
    symbol: &Symbol,
    side: &Side,
    size: &str,
    price: Option<i64>,
    position_id: &str,
    time_in_force: &TimeInForce,
    timestamp: i64,
) -> (r: Result<PostRequest, Error>)
    requires
        credentials.api_secret@.len() < MAX_SIGNED_LEN,
    ensures
        *execution_type == ExecutionType::Market && price is Some ==> (r matches Err(
            Error::PriceNotAllowedError,
        )),
        *execution_type != ExecutionType::Market && price is None ==> (r matches Err(
            Error::PriceNotSpecifiedError,
        )),
        price_fits(*execution_type, price) && i32_of_text(position_id@) is None ==> (r matches Err(
            Error::IdToNumberError(s),
        ) && s@ == position_id@),
        price_fits(*execution_type, price) && i32_of_text(position_id@) is Some ==> ({
            let b = object_json(
                close_members(
                    *execution_type,
                    *symbol,
                    *side,
                    size@,
                    price,
                    i32_of_text(position_id@).unwrap(),
                    *time_in_force,
                ),
            );
            if CLOSE_ORDER_API_PATH@.len() + b.len() < MAX_SIGNED_LEN {
                r matches Ok(req) && req.url@ == PRIVATE_ENDPOINT@ + CLOSE_ORDER_API_PATH@ && req.body@
                    == b && req.headers@ == post_headers(
                    credentials.api_key@,
                    credentials.api_secret@,
                    CLOSE_ORDER_API_PATH@,
                    b,
                    timestamp,
                )
            } else {
                r matches Err(Error::SerializationError)
            }
        }),
{
    let body = build_parameters(execution_type, symbol, side, size, price, position_id, time_in_force)?;
    signed_post(credentials, CLOSE_ORDER_API_PATH, body, timestamp)
}

} // verus!
