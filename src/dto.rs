//! Records shared by several endpoints, and the values that stand in for
//! members the exchange leaves out.

use crate::decode::{
    decimal_field, id_field, int_field, members_of, read_decimal, read_id, read_int, read_str,
    read_str_or, read_time, str_field, str_field_or, time_field, FromJson,
};
use crate::json::{find_member, member_node, member_text, object_of, read_object, JsonModel, Member};
use crate::numeric::i64_of_text;
use crate::timestamp::Timestamp;
use vstd::prelude::*;

verus! {

/// An order.
pub struct Order {
    pub root_order_id: String,
    pub order_id: String,
    pub symbol: String,
    /// "BUY" or "SELL".
    pub side: String,
    /// "NORMAL" or "LOSSCUT".
    pub order_type: String,
    /// "MARKET", "LIMIT" or "STOP".
    pub execution_type: String,
    /// "OPEN" or "CLOSE".
    pub settle_type: String,
    /// Ordered quantity, as decimal text.
    pub size: String,
    /// Executed quantity, as decimal text.
    pub executed_size: String,
    /// Order price; 0 for market orders.
    pub price: i64,
    /// Loss-cut price; 0 when none is set.
    pub losscut_price: i64,
    pub status: String,
    /// Why the order was cancelled; "NONE" when the exchange sends nothing.
    pub cancel_type: String,
    pub time_in_force: String,
    pub timestamp: Timestamp,
}

impl FromJson for Order {
    open spec fn decodable(text: Seq<char>) -> bool {
        object_of(text) matches Some(ms) && {
            &&& id_field(ms, "rootOrderId"@) is Some
            &&& id_field(ms, "orderId"@) is Some
            &&& str_field(ms, "symbol"@) is Some
            &&& str_field(ms, "side"@) is Some
            &&& str_field(ms, "orderType"@) is Some
            &&& str_field(ms, "executionType"@) is Some
            &&& str_field(ms, "settleType"@) is Some
            &&& decimal_field(ms, "size"@) is Some
            &&& decimal_field(ms, "executedSize"@) is Some
            &&& int_field(ms, "price"@) is Some
            &&& int_field(ms, "losscutPrice"@) is Some
            &&& str_field(ms, "status"@) is Some
            &&& str_field_or(ms, "cancelType"@, "NONE"@) is Some
            &&& str_field(ms, "timeInForce"@) is Some
            &&& time_field(ms, "timestamp"@) is Some
        }
    }

    open spec fn decodes(text: Seq<char>, x: Self) -> bool {
        object_of(text) matches Some(ms) && {
            &&& id_field(ms, "rootOrderId"@) == Some(x.root_order_id@)
            &&& id_field(ms, "orderId"@) == Some(x.order_id@)
            &&& str_field(ms, "symbol"@) == Some(x.symbol@)
            &&& str_field(ms, "side"@) == Some(x.side@)
            &&& str_field(ms, "orderType"@) == Some(x.order_type@)
            &&& str_field(ms, "executionType"@) == Some(x.execution_type@)
            &&& str_field(ms, "settleType"@) == Some(x.settle_type@)
            &&& decimal_field(ms, "size"@) == Some(x.size@)
            &&& decimal_field(ms, "executedSize"@) == Some(x.executed_size@)
            &&& int_field(ms, "price"@) == Some(x.price)
            &&& int_field(ms, "losscutPrice"@) == Some(x.losscut_price)
            &&& str_field(ms, "status"@) == Some(x.status@)
            &&& str_field_or(ms, "cancelType"@, "NONE"@) == Some(x.cancel_type@)
            &&& str_field(ms, "timeInForce"@) == Some(x.time_in_force@)
            &&& time_field(ms, "timestamp"@) == Some(x.timestamp)
        }
    }

    fn from_json(text: &str) -> (r: Option<Self>) {
        let ms = read_object(text)?;
        let root_order_id = read_id(&ms, "rootOrderId")?;
        let order_id = read_id(&ms, "orderId")?;
        let symbol = read_str(&ms, "symbol")?;
        let side = read_str(&ms, "side")?;
        let order_type = read_str(&ms, "orderType")?;
        let execution_type = read_str(&ms, "executionType")?;
        let settle_type = read_str(&ms, "settleType")?;
        let size = read_decimal(&ms, "size")?;
        let executed_size = read_decimal(&ms, "executedSize")?;
        let price = read_int(&ms, "price")?;
        let losscut_price = read_int(&ms, "losscutPrice")?;
        let status = read_str(&ms, "status")?;
        let cancel_type = read_str_or(&ms, "cancelType", NONE)?;
        let time_in_force = read_str(&ms, "timeInForce")?;
        let timestamp = read_time(&ms, "timestamp")?;
        Some(Order {
            root_order_id,
            order_id,
            symbol,
            side,
            order_type,
            execution_type,
            settle_type,
            size,
            executed_size,
            price,
            losscut_price,
            status,
            cancel_type,
            time_in_force,
            timestamp,
        })
    }
}

/// One trade of the public trade history.
pub struct Trade {
    pub price: i64,
    pub side: String,
    /// Traded quantity, as decimal text.
    pub size: String,
    pub timestamp: Timestamp,
}

impl FromJson for Trade {
    open spec fn decodable(text: Seq<char>) -> bool {
        object_of(text) matches Some(ms) && {
            &&& int_field(ms, "price"@) is Some
            &&& str_field(ms, "side"@) is Some
            &&& decimal_field(ms, "size"@) is Some
            &&& time_field(ms, "timestamp"@) is Some
        }
    }

    open spec fn decodes(text: Seq<char>, x: Self) -> bool {
        object_of(text) matches Some(ms) && {
            &&& int_field(ms, "price"@) == Some(x.price)
            &&& str_field(ms, "side"@) == Some(x.side@)
            &&& decimal_field(ms, "size"@) == Some(x.size@)
            &&& time_field(ms, "timestamp"@) == Some(x.timestamp)
        }
    }

    fn from_json(text: &str) -> (r: Option<Self>) {
        let ms = read_object(text)?;
        let price = read_int(&ms, "price")?;
        let side = read_str(&ms, "side")?;
        let size = read_decimal(&ms, "size")?;
        let timestamp = read_time(&ms, "timestamp")?;
        Some(Trade { price, side, size, timestamp })
    }
}

/// One execution (fill) of an order.
pub struct Execution {
    pub execution_id: String,
    pub order_id: String,
    pub symbol: String,
    pub side: String,
    pub settle_type: String,
    /// Executed quantity, as decimal text.
    pub size: String,
    pub price: i64,
    pub loss_gain: i64,
    pub fee: i64,
    pub timestamp: Timestamp,
}

impl FromJson for Execution {
    open spec fn decodable(text: Seq<char>) -> bool {
        object_of(text) matches Some(ms) && {
            &&& id_field(ms, "executionId"@) is Some
            &&& id_field(ms, "orderId"@) is Some
            &&& str_field(ms, "symbol"@) is Some
            &&& str_field(ms, "side"@) is Some
            &&& str_field(ms, "settleType"@) is Some
            &&& decimal_field(ms, "size"@) is Some
            &&& int_field(ms, "price"@) is Some
            &&& int_field(ms, "lossGain"@) is Some
            &&& int_field(ms, "fee"@) is Some
            &&& time_field(ms, "timestamp"@) is Some
        }
    }

    open spec fn decodes(text: Seq<char>, x: Self) -> bool {
        object_of(text) matches Some(ms) && {
            &&& id_field(ms, "executionId"@) == Some(x.execution_id@)
            &&& id_field(ms, "orderId"@) == Some(x.order_id@)
            &&& str_field(ms, "symbol"@) == Some(x.symbol@)
            &&& str_field(ms, "side"@) == Some(x.side@)
            &&& str_field(ms, "settleType"@) == Some(x.settle_type@)
            &&& decimal_field(ms, "size"@) == Some(x.size@)
            &&& int_field(ms, "price"@) == Some(x.price)
            &&& int_field(ms, "lossGain"@) == Some(x.loss_gain)
            &&& int_field(ms, "fee"@) == Some(x.fee)
            &&& time_field(ms, "timestamp"@) == Some(x.timestamp)
        }
    }

    fn from_json(text: &str) -> (r: Option<Self>) {
        let ms = read_object(text)?;
        let execution_id = read_id(&ms, "executionId")?;
        let order_id = read_id(&ms, "orderId")?;
        let symbol = read_str(&ms, "symbol")?;
        let side = read_str(&ms, "side")?;
        let settle_type = read_str(&ms, "settleType")?;
        let size = read_decimal(&ms, "size")?;
        let price = read_int(&ms, "price")?;
        let loss_gain = read_int(&ms, "lossGain")?;
        let fee = read_int(&ms, "fee")?;
        let timestamp = read_time(&ms, "timestamp")?;
        Some(Execution {
            execution_id,
            order_id,
            symbol,
            side,
            settle_type,
            size,
            price,
            loss_gain,
            fee,
            timestamp,
        })
    }
}

/// One open position.
pub struct Position {
    pub position_id: String,
    pub symbol: String,
    pub side: String,
    /// Position quantity, as decimal text.
    pub size: String,
    /// Quantity with a pending closing order, as decimal text.
    pub orderd_size: String,
    pub price: i64,
    pub loss_gain: i64,
    /// Leverage, as decimal text.
    pub leverage: String,
    pub losscut_price: i64,
    pub timestamp: Timestamp,
}

impl FromJson for Position {
    open spec fn decodable(text: Seq<char>) -> bool {
        object_of(text) matches Some(ms) && {
            &&& id_field(ms, "positionId"@) is Some
            &&& str_field(ms, "symbol"@) is Some
            &&& str_field(ms, "side"@) is Some
            &&& decimal_field(ms, "size"@) is Some
            &&& decimal_field(ms, "orderdSize"@) is Some
            &&& int_field(ms, "price"@) is Some
            &&& int_field(ms, "lossGain"@) is Some
            &&& decimal_field(ms, "leverage"@) is Some
            &&& int_field(ms, "losscutPrice"@) is Some
            &&& time_field(ms, "timestamp"@) is Some
        }
    }

    open spec fn decodes(text: Seq<char>, x: Self) -> bool {
        object_of(text) matches Some(ms) && {
            &&& id_field(ms, "positionId"@) == Some(x.position_id@)
            &&& str_field(ms, "symbol"@) == Some(x.symbol@)
            &&& str_field(ms, "side"@) == Some(x.side@)
            &&& decimal_field(ms, "size"@) == Some(x.size@)
            &&& decimal_field(ms, "orderdSize"@) == Some(x.orderd_size@)
            &&& int_field(ms, "price"@) == Some(x.price)
            &&& int_field(ms, "lossGain"@) == Some(x.loss_gain)
            &&& decimal_field(ms, "leverage"@) == Some(x.leverage@)
            &&& int_field(ms, "losscutPrice"@) == Some(x.losscut_price)
            &&& time_field(ms, "timestamp"@) == Some(x.timestamp)
        }
    }

    fn from_json(text: &str) -> (r: Option<Self>) {
        let ms = read_object(text)?;
        let position_id = read_id(&ms, "positionId")?;
        let symbol = read_str(&ms, "symbol")?;
        let side = read_str(&ms, "side")?;
        let size = read_decimal(&ms, "size")?;
        let orderd_size = read_decimal(&ms, "orderdSize")?;
        let price = read_int(&ms, "price")?;
        let loss_gain = read_int(&ms, "lossGain")?;
        let leverage = read_decimal(&ms, "leverage")?;
        let losscut_price = read_int(&ms, "losscutPrice")?;
        let timestamp = read_time(&ms, "timestamp")?;
        Some(Position {
            position_id,
            symbol,
            side,
            size,
            orderd_size,
            price,
            loss_gain,
            leverage,
            losscut_price,
            timestamp,
        })
    }
}

/// The summary of the positions held on one symbol and side.
pub struct Summary {
    /// Average opening rate, as decimal text.
    pub average_position_rate: String,
    pub position_loss_gain: i64,
    pub side: String,
    /// Quantity with pending orders, as decimal text.
    pub sum_order_quantity: String,
    /// Quantity held, as decimal text.
    pub sum_position_quantity: String,
    pub symbol: String,
}

impl FromJson for Summary {
    open spec fn decodable(text: Seq<char>) -> bool {
        object_of(text) matches Some(ms) && {
            &&& decimal_field(ms, "averagePositionRate"@) is Some
            &&& int_field(ms, "positionLossGain"@) is Some
            &&& str_field(ms, "side"@) is Some
            &&& decimal_field(ms, "sumOrderQuantity"@) is Some
            &&& decimal_field(ms, "sumPositionQuantity"@) is Some
            &&& str_field(ms, "symbol"@) is Some
        }
    }

    open spec fn decodes(text: Seq<char>, x: Self) -> bool {
        object_of(text) matches Some(ms) && {
            &&& decimal_field(ms, "averagePositionRate"@) == Some(x.average_position_rate@)
            &&& int_field(ms, "positionLossGain"@) == Some(x.position_loss_gain)
            &&& str_field(ms, "side"@) == Some(x.side@)
            &&& decimal_field(ms, "sumOrderQuantity"@) == Some(x.sum_order_quantity@)
            &&& decimal_field(ms, "sumPositionQuantity"@) == Some(x.sum_position_quantity@)
            &&& str_field(ms, "symbol"@) == Some(x.symbol@)
        }
    }

    fn from_json(text: &str) -> (r: Option<Self>) {
        let ms = read_object(text)?;
        let average_position_rate = read_decimal(&ms, "averagePositionRate")?;
        let position_loss_gain = read_int(&ms, "positionLossGain")?;
        let side = read_str(&ms, "side")?;
        let sum_order_quantity = read_decimal(&ms, "sumOrderQuantity")?;
        let sum_position_quantity = read_decimal(&ms, "sumPositionQuantity")?;
        let symbol = read_str(&ms, "symbol")?;
        Some(Summary {
            average_position_rate,
            position_loss_gain,
            side,
            sum_order_quantity,
            sum_position_quantity,
            symbol,
        })
    }
}

/// An order that a multi-cancel could not cancel, and why.
pub struct CancelFailedOrder {
    pub message_code: String,
    pub message_string: String,
    pub order_id: String,
}

impl FromJson for CancelFailedOrder {
    open spec fn decodable(text: Seq<char>) -> bool {
        object_of(text) matches Some(ms) && {
            &&& str_field(ms, "message_code"@) is Some
            &&& str_field(ms, "message_string"@) is Some
            &&& id_field(ms, "orderId"@) is Some
        }
    }

    open spec fn decodes(text: Seq<char>, x: Self) -> bool {
        object_of(text) matches Some(ms) && {
            &&& str_field(ms, "message_code"@) == Some(x.message_code@)
            &&& str_field(ms, "message_string"@) == Some(x.message_string@)
            &&& id_field(ms, "orderId"@) == Some(x.order_id@)
        }
    }

    fn from_json(text: &str) -> (r: Option<Self>) {
        let ms = read_object(text)?;
        let message_code = read_str(&ms, "message_code")?;
        let message_string = read_str(&ms, "message_string")?;
        let order_id = read_id(&ms, "orderId")?;
        Some(CancelFailedOrder { message_code, message_string, order_id })
    }
}

/// Which page of a list was returned, and how many entries it holds.
#[derive(Clone, Copy, Debug, PartialEq, Eq, Structural)]
pub struct Pagination {
    pub current_page: i64,
    pub count: i64,
}

impl FromJson for Pagination {
    open spec fn decodable(text: Seq<char>) -> bool {
        object_of(text) matches Some(ms) && int_field(ms, "currentPage"@) is Some && int_field(
            ms,
            "count"@,
        ) is Some
    }

    open spec fn decodes(text: Seq<char>, x: Self) -> bool {
        object_of(text) matches Some(ms) && int_field(ms, "currentPage"@) == Some(x.current_page)
            && int_field(ms, "count"@) == Some(x.count)
    }

    fn from_json(text: &str) -> (r: Option<Self>) {
        let ms = read_object(text)?;
        let current_page = read_int(&ms, "currentPage")?;
        let count = read_int(&ms, "count")?;
        Some(Pagination { current_page, count })
    }
}

/// The page asked for when the caller names none.
pub const DEFAULT_PAGE: i32 = 1;

/// The page size asked for when the caller names none (the largest allowed).
pub const DEFAULT_COUNT: i32 = 100;

/// What a string member the exchange leaves out reads as.
pub const NONE: &'static str = "NONE";

/// What a string member the exchange leaves out reads as.
pub fn get_string_default_value() -> (r: String)
    ensures
        r@ == NONE@,
{
    NONE.to_owned()
}

/// What a list member the exchange leaves out reads as: an empty list.
pub fn get_vector_default_value<T>() -> (r: Vec<T>)
    ensures
        r@.len() == 0,
{
    Vec::new()
}

/// The pagination that stands in when the exchange sends none: page 0,
/// count 0.
pub open spec fn no_pagination() -> Pagination {
    Pagination { current_page: 0, count: 0 }
}

/// What a pagination member the exchange leaves out reads as: page 0, count 0.
pub fn get_pagination_default_value() -> (r: Pagination)
    ensures
        r == no_pagination(),
{
    Pagination { current_page: 0, count: 0 }
}

/// Whether member `pagination` is absent or reads as a [`Pagination`].
pub open spec fn pagination_field_decodable(ms: Seq<(Seq<char>, Seq<char>)>) -> bool {
    match member_text(ms, "pagination"@) {
        Some(t) => Pagination::decodable(t),
        None => true,
    }
}

/// Whether `p` is what member `pagination` reads as: page 0 and count 0 when
/// absent.
pub open spec fn pagination_field_decodes(ms: Seq<(Seq<char>, Seq<char>)>, p: Pagination) -> bool {
    match member_text(ms, "pagination"@) {
        Some(t) => Pagination::decodes(t, p),
        None => p == no_pagination(),
    }
}

/// Reads member `pagination`; an absent one reads as page 0, count 0.
pub fn read_pagination(ms: &Vec<Member>) -> (r: Option<Pagination>)
    ensures
        r is Some <==> pagination_field_decodable(members_of(ms@)),
        r matches Some(p) ==> pagination_field_decodes(members_of(ms@), p),
{
    match find_member(ms, "pagination") {
        Some(t) => Pagination::from_json(t.as_str()),
        None => Some(get_pagination_default_value()),
    }
}

/// A count sent as a string that is not a number makes the pagination
/// unreadable: it is refused, not read as zero.
pub proof fn lemma_bad_count_refused(text: Seq<char>, ms: Seq<(Seq<char>, Seq<char>)>, s: Seq<char>)
    requires
        object_of(text) == Some(ms),
        member_node(ms, "count"@) == Some(Some(JsonModel::Str(s))),
        i64_of_text(s) is None,
    ensures
        !Pagination::decodable(text),
{
}

} // verus!
