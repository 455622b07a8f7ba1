use gmo_coin_rs::execution_type::ExecutionType;
use gmo_coin_rs::private::active_orders::{active_orders_request, ActiveOrders};
use gmo_coin_rs::private::assets::{assets_request, Assets};
use gmo_coin_rs::private::cancel_bulk_order::{cancel_bulk_order_request, CancelBulkOrder};
use gmo_coin_rs::private::cancel_order::{cancel_order_request, CancelOrder};
use gmo_coin_rs::private::cancel_orders::{cancel_orders_request, CancelOrders};
use gmo_coin_rs::private::change_losscut_price::{change_losscut_price_request, ChangeLosscutPrice};
use gmo_coin_rs::private::change_order::{change_order_request, ChangeOrder};
use gmo_coin_rs::private::close_order::{close_order_request, CloseOrder};
use gmo_coin_rs::private::executions::{
    executions_with_execution_id_request, executions_with_order_id_request, Executions,
};
use gmo_coin_rs::private::latest_executions::{latest_executions_request, LatestExecutions};
use gmo_coin_rs::private::margin::{margin_request, Margin};
use gmo_coin_rs::private::open_positions::{open_positions_request, OpenPositions};
use gmo_coin_rs::private::order::{order_request, Order};
use gmo_coin_rs::private::orders::{orders_request, Orders};
use gmo_coin_rs::private::position_summary::{position_summary_request, PositionSummary};
use gmo_coin_rs::request::Credentials;
use gmo_coin_rs::response::{decode, RawResponse};
use gmo_coin_rs::settle_type::SettleType;
use gmo_coin_rs::side::Side;
use gmo_coin_rs::symbol::Symbol;
use gmo_coin_rs::time_in_force::TimeInForce;

const NOW: i64 = 1553000000000;

fn credentials() -> Credentials {
    Credentials { api_key: "KEY".to_string(), api_secret: "SECRET".to_string() }
}

fn raw(body: &str) -> RawResponse {
    RawResponse { http_status_code: 200, body_text: body.to_string() }
}

const EMPTY_DATA_RESPONSE: &str = r#"
{
    "status": 0,
    "data":{},
    "responsetime":"2020-11-15T06:32:13.747Z"
}
"#;

const ACTIVE_ORDERS_SAMPLE: &str = r#"
{
    "status": 0,
    "data": {
      "pagination": {
        "currentPage": 1,
        "count": 30
      },
      "list": [
        {
          "rootOrderId": 123456789,
          "orderId": 123456789,
          "symbol": "BTC",
          "side": "BUY",
          "orderType": "NORMAL",
          "executionType": "LIMIT",
          "settleType": "OPEN",
          "size": "1",
          "executedSize": "0",
          "price": "840000",
          "losscutPrice": "0",
          "status": "ORDERED",
          "timeInForce": "FAS",
          "timestamp": "2019-03-19T01:07:24.217Z"
        }
      ]
    },
    "responsetime": "2019-03-19T01:07:24.217Z"
}
"#;

#[test]
fn test_active_orders() {
    let req = active_orders_request(&credentials(), &Symbol::Bch, 1, 100, NOW);
    assert_eq!(req.url, "https://api.coin.z.com/private/v1/activeOrders?symbol=BCH&page=1&count=100");
    let resp = decode::<ActiveOrders>(&raw(ACTIVE_ORDERS_SAMPLE)).unwrap();
    assert_eq!(resp.http_status_code, 200);
    assert_eq!(resp.body.status, 0);
    assert_eq!(resp.body.responsetime.to_rfc3339_millis(), "2019-03-19T01:07:24.217Z");
    assert_eq!(resp.active_orders().len(), 1);
    assert_eq!(resp.current_page(), 1);
    assert_eq!(resp.count(), 30);
    let o = &resp.active_orders()[0];
    assert_eq!(o.order_id, "123456789");
    assert_eq!(o.price, 840000);
    assert_eq!(o.cancel_type, "NONE");
}

#[test]
fn test_active_orders_when_empty_response() {
    let req = active_orders_request(&credentials(), &Symbol::BtcJpy, 1, 100, NOW);
    assert_eq!(req.url, "https://api.coin.z.com/private/v1/activeOrders?symbol=BTC_JPY&page=1&count=100");
    let resp = decode::<ActiveOrders>(&raw(EMPTY_DATA_RESPONSE)).unwrap();
    assert_eq!(resp.http_status_code, 200);
    assert_eq!(resp.body.status, 0);
    assert_eq!(resp.body.responsetime.to_rfc3339_millis(), "2020-11-15T06:32:13.747Z");
    assert_eq!(resp.active_orders().len(), 0);
    assert_eq!(resp.current_page(), 0);
    assert_eq!(resp.count(), 0);
}

const ASSETS_SAMPLE: &str = r#"
{
    "status": 0,
    "data": [
      {
        "amount": "993982448",
        "available": "993982448",
        "conversionRate": "1",
        "symbol": "JPY"
      },
      {
        "amount": "4.0002",
        "available": "4.0002",
        "conversionRate": "859614",
        "symbol": "BTC"
      }
    ],
    "responsetime": "2019-03-19T02:15:06.055Z"
}
      "#;

#[test]
fn test_assets() {
    let req = assets_request(&credentials(), NOW);
    assert_eq!(req.url, "https://api.coin.z.com/private/v1/account/assets");
    let resp = decode::<Assets>(&raw(ASSETS_SAMPLE)).unwrap();
    assert_eq!(resp.http_status_code, 200);
    assert_eq!(resp.body.status, 0);
    assert_eq!(resp.body.responsetime.to_rfc3339_millis(), "2019-03-19T02:15:06.055Z");
    assert_eq!(resp.assets().len(), 2);
    assert_eq!(resp.assets()[1].amount, "4.0002");
}

#[test]
fn test_assets_when_empty_response() {
    let body = r#"
    {
        "status": 0,
        "data": [],
        "responsetime":"2020-11-15T06:32:13.747Z"
    }
    "#;
    let resp = decode::<Assets>(&raw(body)).unwrap();
    assert_eq!(resp.http_status_code, 200);
    assert_eq!(resp.body.status, 0);
    assert_eq!(resp.body.responsetime.to_rfc3339_millis(), "2020-11-15T06:32:13.747Z");
    assert_eq!(resp.assets().len(), 0);
}

#[test]
fn cancel_bulk_order_test_cancel_orders() {
    let req = cancel_bulk_order_request(
        &credentials(),
        &vec![&Symbol::Btc, &Symbol::EthJpy],
        Some(&Side::Sell),
        None,
        false,
        NOW,
    )
    .unwrap();
    assert_eq!(req.body, r#"{"desc":false,"side":"SELL","symbols":["BTC","ETH_JPY"]}"#);
    let body = r#"
    {
        "status": 0,
        "data": [637000,637002],
        "responsetime": "2019-03-19T01:07:24.557Z"
    }
    "#;
    let resp = decode::<CancelBulkOrder>(&raw(body)).unwrap();
    assert_eq!(resp.http_status_code, 200);
    assert_eq!(resp.body.status, 0);
    assert_eq!(resp.body.responsetime.to_rfc3339_millis(), "2019-03-19T01:07:24.557Z");
    assert_eq!(resp.order_ids().len(), 2);
    assert_eq!(resp.order_ids()[1], "637002");
}

#[test]
fn cancel_bulk_order_with_every_filter() {
    let req = cancel_bulk_order_request(
        &credentials(),
        &vec![&Symbol::BtcJpy],
        Some(&Side::Buy),
        Some(&SettleType::Close),
        true,
        NOW,
    )
    .unwrap();
    assert_eq!(req.body, r#"{"desc":true,"settleType":"CLOSE","side":"BUY","symbols":["BTC_JPY"]}"#);
    assert_eq!(req.url, "https://api.coin.z.com/private/v1/cancelBulkOrder");
}

#[test]
fn test_cancel_order() {
    let req = cancel_order_request(&credentials(), "200", NOW).unwrap();
    assert_eq!(req.body, r#"{"orderId":200}"#);
    let body = r#"
    {
        "status": 0,
        "responsetime": "2019-03-19T02:15:06.108Z"
    }
    "#;
    let resp = decode::<CancelOrder>(&raw(body)).unwrap();
    assert_eq!(resp.http_status_code, 200);
    assert_eq!(resp.body.status, 0);
    assert_eq!(resp.body.responsetime.to_rfc3339_millis(), "2019-03-19T02:15:06.108Z");
}

const CANCEL_ORDERS_SAMPLE: &str = r#"
{
    "status": 0,
    "data": {
        "failed": [
          {
            "message_code": "ERR-5122",
            "message_string": "The request is invalid due to the status of the specified order.",
            "orderId": 1
          },
          {
            "message_code": "ERR-5122",
            "message_string": "The request is invalid due to the status of the specified order.",
            "orderId": 2
          }
        ],
        "success": [3,4]
    },
    "responsetime": "2019-03-19T01:07:24.557Z"
}
"#;

#[test]
fn cancel_orders_test_cancel_orders() {
    let req = cancel_orders_request(&credentials(), &vec!["1", "2", "3", "4"], NOW).unwrap();
    assert_eq!(req.body, r#"{"orderIds":[1,2,3,4]}"#);
    let resp = decode::<CancelOrders>(&raw(CANCEL_ORDERS_SAMPLE)).unwrap();
    assert_eq!(resp.http_status_code, 200);
    assert_eq!(resp.body.status, 0);
    assert_eq!(resp.body.responsetime.to_rfc3339_millis(), "2019-03-19T01:07:24.557Z");
    assert_eq!(resp.failed().len(), 2);
    assert_eq!(resp.success().len(), 2);
}

#[test]
fn multi_cancel_splits_success_and_failure() {
    let resp = decode::<CancelOrders>(&raw(CANCEL_ORDERS_SAMPLE)).unwrap();
    assert_eq!(resp.success(), &vec!["3".to_string(), "4".to_string()]);
    let failed = resp.failed();
    assert_eq!(failed[0].order_id, "1");
    assert_eq!(failed[1].order_id, "2");
    for f in failed {
        assert_eq!(f.message_code, "ERR-5122");
        assert_eq!(f.message_string, "The request is invalid due to the status of the specified order.");
    }
}

#[test]
fn multi_cancel_with_lists_left_out() {
    let body = r#"{"status":0,"data":{},"responsetime":"2019-03-19T01:07:24.557Z"}"#;
    let resp = decode::<CancelOrders>(&raw(body)).unwrap();
    assert!(resp.failed().is_empty());
    assert!(resp.success().is_empty());
}

#[test]
fn change_losscut_price_test_change_order() {
    let req = change_losscut_price_request(&credentials(), "200", 100, NOW).unwrap();
    assert_eq!(req.body, r#"{"losscutPrice":"100","positionId":"200"}"#);
    let body = r#"
    {
        "status": 0,
        "responsetime": "2019-03-19T01:07:24.557Z"
    }
    "#;
    let resp = decode::<ChangeLosscutPrice>(&raw(body)).unwrap();
    assert_eq!(resp.http_status_code, 200);
    assert_eq!(resp.body.status, 0);
    assert_eq!(resp.body.responsetime.to_rfc3339_millis(), "2019-03-19T01:07:24.557Z");
}

#[test]
fn change_order_test_change_order() {
    let req = change_order_request(&credentials(), "orderid", 100, None, NOW).unwrap();
    assert_eq!(req.body, r#"{"orderId":"orderid","price":"100"}"#);
    let body = r#"
    {
        "status": 0,
        "responsetime": "2019-03-19T02:15:06.108Z"
    }
    "#;
    let resp = decode::<ChangeOrder>(&raw(body)).unwrap();
    assert_eq!(resp.http_status_code, 200);
    assert_eq!(resp.body.status, 0);
    assert_eq!(resp.body.responsetime.to_rfc3339_millis(), "2019-03-19T02:15:06.108Z");
}

const ORDER_ID_RESPONSE: &str = r#"
{
    "status": 0,
    "data": "637000",
    "responsetime": "2019-03-19T01:07:24.557Z"
}
"#;

#[test]
fn close_order_test_market_order() {
    let req = close_order_request(
        &credentials(),
        &ExecutionType::Market,
        &Symbol::BtcJpy,
        &Side::Buy,
        "0.1",
        None,
        "110",
        &TimeInForce::Fak,
        NOW,
    )
    .unwrap();
    assert_eq!(
        req.body,
        r#"{"executionType":"MARKET","settlePosition":[{"positionId":110,"size":"0.1"}],"side":"BUY","symbol":"BTC_JPY","timeInForce":"FAK"}"#
    );
    let resp = decode::<CloseOrder>(&raw(ORDER_ID_RESPONSE)).unwrap();
    assert_eq!(resp.http_status_code, 200);
    assert_eq!(resp.body.status, 0);
    assert_eq!(resp.body.responsetime.to_rfc3339_millis(), "2019-03-19T01:07:24.557Z");
    assert_eq!(resp.order_id(), "637000");
}

const EXECUTIONS_SAMPLE: &str = r#"
{
    "status": 0,
    "data": {
      "list": [
        {
          "executionId": 72123911,
          "orderId": 123456789,
          "symbol": "BTC",
          "side": "BUY",
          "settleType": "OPEN",
          "size": "0.7361",
          "price": "877404",
          "lossGain": "0",
          "fee": "323",
          "timestamp": "2019-03-19T02:15:06.081Z"
        }
      ]
    },
    "responsetime": "2019-03-19T02:15:06.081Z"
}
      "#;

#[test]
fn executions_should_return_ok_when_http_client_returns_correct_response() {
    let req = executions_with_execution_id_request(&credentials(), "execid", NOW);
    assert_eq!(req.url, "https://api.coin.z.com/private/v1/executions?executionId=execid");
    let resp = decode::<Executions>(&raw(EXECUTIONS_SAMPLE)).unwrap();
    assert_eq!(resp.http_status_code, 200);
    assert_eq!(resp.body.status, 0);
    assert_eq!(resp.body.responsetime.to_rfc3339_millis(), "2019-03-19T02:15:06.081Z");
    assert_eq!(resp.executions().len(), 1);
    assert_eq!(resp.executions()[0].execution_id, "72123911");
    assert_eq!(resp.executions()[0].fee, 323);
}

#[test]
fn executions_should_not_return_err_when_http_client_returns_empty_response() {
    let req = executions_with_order_id_request(&credentials(), "orderid", NOW);
    assert_eq!(req.url, "https://api.coin.z.com/private/v1/executions?orderId=orderid");
    let resp = decode::<Executions>(&raw(EMPTY_DATA_RESPONSE)).unwrap();
    assert_eq!(resp.http_status_code, 200);
    assert_eq!(resp.body.status, 0);
    assert_eq!(resp.body.responsetime.to_rfc3339_millis(), "2020-11-15T06:32:13.747Z");
    assert_eq!(resp.executions().len(), 0);
}

const LATEST_EXECUTIONS_SAMPLE: &str = r#"
{
    "status": 0,
    "data": {
      "pagination": {
        "currentPage": 1,
        "count": 30
      },
      "list": [
        {
          "executionId": 72123911,
          "orderId": 123456789,
          "symbol": "BTC",
          "side": "BUY",
          "settleType": "OPEN",
          "size": "0.7361",
          "price": "877404",
          "lossGain": "0",
          "fee": "323",
          "timestamp": "2019-03-19T02:15:06.086Z"
        }
      ]
    },
    "responsetime": "2019-03-19T02:15:06.086Z"
}
"#;

#[test]
fn test_latest_executions() {
    let req = latest_executions_request(&credentials(), &Symbol::Btc, 1, 100, NOW);
    assert_eq!(req.url, "https://api.coin.z.com/private/v1/latestExecutions?symbol=BTC&page=1&count=100");
    let resp = decode::<LatestExecutions>(&raw(LATEST_EXECUTIONS_SAMPLE)).unwrap();
    assert_eq!(resp.http_status_code, 200);
    assert_eq!(resp.body.status, 0);
    assert_eq!(resp.body.responsetime.to_rfc3339_millis(), "2019-03-19T02:15:06.086Z");
    assert_eq!(resp.latest_executions().len(), 1);
    assert_eq!(resp.current_page(), 1);
    assert_eq!(resp.count(), 30);
}

#[test]
fn test_latest_executions_when_empty_response() {
    let resp = decode::<LatestExecutions>(&raw(EMPTY_DATA_RESPONSE)).unwrap();
    assert_eq!(resp.http_status_code, 200);
    assert_eq!(resp.body.status, 0);
    assert_eq!(resp.body.responsetime.to_rfc3339_millis(), "2020-11-15T06:32:13.747Z");
    assert_eq!(resp.latest_executions().len(), 0);
    assert_eq!(resp.current_page(), 0);
    assert_eq!(resp.count(), 0);
}

#[test]
fn test_margin() {
    let req = margin_request(&credentials(), NOW);
    assert_eq!(req.url, "https://api.coin.z.com/private/v1/account/margin");
    assert_eq!(req.headers.entries.len(), 3);
    let body = r#"
    {
        "status": 0,
        "data": {
          "actualProfitLoss": "5204923",
          "availableAmount": "5189523",
          "margin": "7298",
          "profitLoss": "8019"
        },
        "responsetime": "2019-03-19T02:15:06.051Z"
    }
    "#;
    let resp = decode::<Margin>(&raw(body)).unwrap();
    assert_eq!(resp.http_status_code, 200);
    assert_eq!(resp.body.status, 0);
    assert_eq!(resp.body.responsetime.to_rfc3339_millis(), "2019-03-19T02:15:06.051Z");
    assert_eq!(resp.actual_profit_loss(), 5204923);
    assert_eq!(resp.availabel_amount(), 5189523);
    assert_eq!(resp.margin(), 7298);
    assert_eq!(resp.profit_loss(), 8019);
}

const OPEN_POSITIONS_SAMPLE: &str = r#"
{
    "status": 0,
    "data": {
      "pagination": {
        "currentPage": 1,
        "count": 30
      },
      "list": [
        {
          "positionId": 1234567,
          "symbol": "BTC_JPY",
          "side": "BUY",
          "size": "0.22",
          "orderdSize": "0",
          "price": "876045",
          "lossGain": "14",
          "leverage": "4",
          "losscutPrice": "766540",
          "timestamp": "2019-03-19T02:15:06.094Z"
        }
      ]
    },
    "responsetime": "2019-03-19T02:15:06.095Z"
  }
"#;

#[test]
fn open_positions_should_return_ok_when_http_client_returns_correct_response() {
    let req = open_positions_request(&credentials(), &Symbol::Bch, 1, 100, NOW);
    assert_eq!(req.url, "https://api.coin.z.com/private/v1/openPositions?symbol=BCH&page=1&count=100");
    let resp = decode::<OpenPositions>(&raw(OPEN_POSITIONS_SAMPLE)).unwrap();
    assert_eq!(resp.http_status_code, 200);
    assert_eq!(resp.body.status, 0);
    assert_eq!(resp.body.responsetime.to_rfc3339_millis(), "2019-03-19T02:15:06.095Z");
    assert_eq!(resp.open_positions().len(), 1);
    assert_eq!(resp.current_page(), 1);
    assert_eq!(resp.count(), 30);
    assert_eq!(resp.open_positions()[0].position_id, "1234567");
}

#[test]
fn open_positions_should_not_return_err_when_http_client_returns_empty_response() {
    let resp = decode::<OpenPositions>(&raw(EMPTY_DATA_RESPONSE)).unwrap();
    assert_eq!(resp.http_status_code, 200);
    assert_eq!(resp.body.status, 0);
    assert_eq!(resp.body.responsetime.to_rfc3339_millis(), "2020-11-15T06:32:13.747Z");
    assert_eq!(resp.open_positions().len(), 0);
    assert_eq!(resp.current_page(), 0);
    assert_eq!(resp.count(), 0);
}

const ORDER_SAMPLE_RESPONSE: &str = r#"
{
    "status": 0,
    "data": "637000",
    "responsetime": "2019-03-19T02:15:06.108Z"
}
"#;

#[test]
fn order_test_market_order() {
    let req = order_request(
        &credentials(),
        &ExecutionType::Market,
        &Symbol::BtcJpy,
        &Side::Buy,
        "0.1",
        &TimeInForce::Fak,
        None,
        None,
        NOW,
    )
    .unwrap();
    assert_eq!(
        req.body,
        r#"{"executionType":"MARKET","side":"BUY","size":"0.1","symbol":"BTC_JPY","timeInForce":"FAK"}"#
    );
    assert_eq!(req.url, "https://api.coin.z.com/private/v1/order");
    let resp = decode::<Order>(&raw(ORDER_SAMPLE_RESPONSE)).unwrap();
    assert_eq!(resp.http_status_code, 200);
    assert_eq!(resp.body.status, 0);
    assert_eq!(resp.body.responsetime.to_rfc3339_millis(), "2019-03-19T02:15:06.108Z");
    assert_eq!(resp.order_id(), "637000");
}

#[test]
fn test_limit_order() {
    let req = order_request(
        &credentials(),
        &ExecutionType::Limit,
        &Symbol::BtcJpy,
        &Side::Buy,
        "0.1",
        &TimeInForce::Fas,
        Some(100),
        Some(100),
        NOW,
    )
    .unwrap();
    assert_eq!(
        req.body,
        r#"{"executionType":"LIMIT","losscutPrice":100,"price":"100","side":"BUY","size":"0.1","symbol":"BTC_JPY","timeInForce":"FAS"}"#
    );
    let resp = decode::<Order>(&raw(ORDER_SAMPLE_RESPONSE)).unwrap();
    assert_eq!(resp.http_status_code, 200);
    assert_eq!(resp.body.status, 0);
    assert_eq!(resp.body.responsetime.to_rfc3339_millis(), "2019-03-19T02:15:06.108Z");
    assert_eq!(resp.order_id(), "637000");
}

#[test]
fn test_stop_order() {
    let req = order_request(
        &credentials(),
        &ExecutionType::Stop,
        &Symbol::BtcJpy,
        &Side::Buy,
        "0.1",
        &TimeInForce::Fas,
        Some(100),
        None,
        NOW,
    )
    .unwrap();
    assert_eq!(
        req.body,
        r#"{"executionType":"STOP","price":"100","side":"BUY","size":"0.1","symbol":"BTC_JPY","timeInForce":"FAS"}"#
    );
    let resp = decode::<Order>(&raw(ORDER_SAMPLE_RESPONSE)).unwrap();
    assert_eq!(resp.http_status_code, 200);
    assert_eq!(resp.body.status, 0);
    assert_eq!(resp.body.responsetime.to_rfc3339_millis(), "2019-03-19T02:15:06.108Z");
    assert_eq!(resp.order_id(), "637000");
}

const ORDERS_SAMPLE: &str = r#"
{
    "status": 0,
    "data": {
      "list": [
        {
          "orderId": "223456789",
          "rootOrderId": "223456789",
          "symbol": "BTC_JPY",
          "side": "BUY",
          "orderType": "NORMAL",
          "executionType": "LIMIT",
          "settleType": "OPEN",
          "size": "0.02",
          "executedSize": "0.02",
          "price": "1430001",
          "losscutPrice": "0",
          "status": "EXECUTED",
          "timeInForce": "FAS",
          "timestamp": "2020-10-14T20:18:59.343Z"
        },
        {
          "rootOrderId": 123456789,
          "orderId": 123456789,
          "symbol": "BTC",
          "side": "BUY",
          "orderType": "NORMAL",
          "executionType": "LIMIT",
          "settleType": "OPEN",
          "size": "1",
          "executedSize": "0",
          "price": "900000",
          "losscutPrice": "0",
          "status": "CANCELED",
          "cancelType": "USER",
          "timeInForce": "FAS",
          "timestamp": "2019-03-19T02:15:06.059Z"
        }
      ]
    },
    "responsetime": "2019-03-19T02:15:06.059Z"
}
      "#;

#[test]
fn test_orders() {
    let req = orders_request(&credentials(), &Vec::<String>::new(), NOW);
    assert_eq!(req.url, "https://api.coin.z.com/private/v1/orders?orderId=");
    let resp = decode::<Orders>(&raw(ORDERS_SAMPLE)).unwrap();
    assert_eq!(resp.http_status_code, 200);
    assert_eq!(resp.body.status, 0);
    assert_eq!(resp.body.responsetime.to_rfc3339_millis(), "2019-03-19T02:15:06.059Z");
    assert_eq!(resp.orders().len(), 2);
    assert_eq!(resp.orders()[0].order_id, "223456789");
    assert_eq!(resp.orders()[1].order_id, "123456789");
    assert_eq!(resp.orders()[0].cancel_type, "NONE");
    assert_eq!(resp.orders()[1].cancel_type, "USER");
}

#[test]
fn test_orders_when_empty_response() {
    let resp = decode::<Orders>(&raw(EMPTY_DATA_RESPONSE)).unwrap();
    assert_eq!(resp.http_status_code, 200);
    assert_eq!(resp.body.status, 0);
    assert_eq!(resp.body.responsetime.to_rfc3339_millis(), "2020-11-15T06:32:13.747Z");
    assert_eq!(resp.orders().len(), 0);
}

#[test]
fn orders_query_joins_identifiers() {
    let ids = vec!["1".to_string(), "22".to_string(), "333".to_string()];
    let req = orders_request(&credentials(), &ids, NOW);
    assert_eq!(req.url, "https://api.coin.z.com/private/v1/orders?orderId=1,22,333");
}

const POSITION_SUMMARY_SAMPLE: &str = r#"
{
    "status": 0,
    "data": {
      "list": [
        {
          "averagePositionRate": "715656",
          "positionLossGain": "250675",
          "side": "BUY",
          "sumOrderQuantity": "2",
          "sumPositionQuantity": "11.6999",
          "symbol": "BTC_JPY"
        }
      ]
    },
    "responsetime": "2019-03-19T02:15:06.102Z"
}
"#;

#[test]
fn test_position_summary() {
    let req = position_summary_request(&credentials(), &Symbol::BtcJpy, NOW);
    assert_eq!(req.url, "https://api.coin.z.com/private/v1/positionSummary?symbol=BTC_JPY");
    let resp = decode::<PositionSummary>(&raw(POSITION_SUMMARY_SAMPLE)).unwrap();
    assert_eq!(resp.http_status_code, 200);
    assert_eq!(resp.body.status, 0);
    assert_eq!(resp.body.responsetime.to_rfc3339_millis(), "2019-03-19T02:15:06.102Z");
    assert_eq!(resp.position_summaries().len(), 1);
}

#[test]
fn test_position_summary_when_empty_response() {
    let resp = decode::<PositionSummary>(&raw(EMPTY_DATA_RESPONSE)).unwrap();
    assert_eq!(resp.http_status_code, 200);
    assert_eq!(resp.body.status, 0);
    assert_eq!(resp.body.responsetime.to_rfc3339_millis(), "2020-11-15T06:32:13.747Z");
    assert_eq!(resp.position_summaries().len(), 0);
}
