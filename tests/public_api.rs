use gmo_coin_rs::public::orderbooks::{orderbooks_request, Orderbooks};
use gmo_coin_rs::public::status::{status_request, Status};
use gmo_coin_rs::public::ticker::{ticker_request, Ticker};
use gmo_coin_rs::public::trades::{trades_request, trades_request_with_options, Trades};
use gmo_coin_rs::response::{decode, Error, RawResponse};
use gmo_coin_rs::symbol::Symbol;

fn raw(body: &str) -> RawResponse {
    RawResponse { http_status_code: 200, body_text: body.to_string() }
}

const STATUS_RESPONSE_SAMPLE: &str = r#"{
    "status": 0,
    "data": {
      "status": "OPEN"
    },
    "responsetime": "2019-03-19T02:15:06.001Z"
  }"#;

#[test]
fn test_status() {
    let resp = decode::<Status>(&raw(STATUS_RESPONSE_SAMPLE)).unwrap();
    assert_eq!(resp.http_status_code, 200);
    assert_eq!(resp.body.status, 0);
    assert_eq!(resp.body.responsetime.to_rfc3339_millis(), "2019-03-19T02:15:06.001Z");
    assert_eq!(resp.status(), "OPEN");
    assert_eq!(resp.is_open(), true);
    assert_eq!(resp.is_pre_open(), false);
    assert_eq!(resp.is_maintenance(), false);
}

#[test]
fn status_maintenance_is_only_maintenance() {
    let body = r#"{"status":0,"data":{"status":"MAINTENANCE"},"responsetime":"2019-03-19T02:15:06.001Z"}"#;
    let resp = decode::<Status>(&raw(body)).unwrap();
    assert!(resp.is_maintenance());
    assert!(!resp.is_open());
    assert!(!resp.is_pre_open());
}

#[test]
fn test_status_when_body_cannot_be_parsed() {
    let resp = decode::<Status>(&raw("json parse dekinaiyo"));
    assert!(resp.is_err());
}

#[test]
fn body_that_is_not_json_is_a_deserialization_error() {
    assert!(matches!(decode::<Status>(&raw("not json")), Err(Error::SerdeJsonError)));
    assert!(matches!(decode::<Status>(&raw("")), Err(Error::SerdeJsonError)));
    assert!(matches!(decode::<Status>(&raw(r#"{"status":0,"data":{"#)), Err(Error::SerdeJsonError)));
}

#[test]
fn error_envelope_is_an_api_error() {
    let body = r#"{"status":5,"messages":[{"message_code":"ERR-5122","message_string":"The request is invalid due to the status of the specified order."}],"responsetime":"2019-03-19T02:15:06.001Z"}"#;
    match decode::<Status>(&raw(body)) {
        Err(Error::APIError(e)) => {
            assert_eq!(e.status, 5);
            assert_eq!(e.messages.len(), 1);
            assert_eq!(e.messages[0].message_code, "ERR-5122");
            assert_eq!(
                e.messages[0].message_string,
                "The request is invalid due to the status of the specified order."
            );
        }
        _ => panic!("expected an API error"),
    }
}

const TICKER_RESPONSE_SAMPLE: &str = r#"{
    "status": 0,
    "data": [
      {
        "ask": "750760",
        "bid": "750600",
        "high": "762302",
        "last": "756662",
        "low": "704874",
        "symbol": "BTC",
        "timestamp": "2018-03-30T12:34:56.789Z",
        "volume": "194785.8484"
      }
    ],
    "responsetime": "2019-03-19T02:15:06.014Z"
  }"#;

#[test]
fn ticker_should_return_ok_when_http_client_returns_correct_response() {
    let resp = decode::<Ticker>(&raw(TICKER_RESPONSE_SAMPLE)).unwrap();
    assert_eq!(resp.http_status_code, 200);
    assert_eq!(resp.body.status, 0);
    assert_eq!(resp.body.responsetime.to_rfc3339_millis(), "2019-03-19T02:15:06.014Z");
    assert_eq!(resp.ask().unwrap(), 750760);
    assert_eq!(resp.bid().unwrap(), 750600);
    assert_eq!(resp.high().unwrap(), 762302);
    assert_eq!(resp.last().unwrap(), 756662);
    assert_eq!(resp.low().unwrap(), 704874);
    assert_eq!(resp.symbol().unwrap(), "BTC");
    assert_eq!(resp.timestamp().unwrap().to_rfc3339_millis(), "2018-03-30T12:34:56.789Z");
    assert_eq!(resp.volume().unwrap().parse::<f64>().unwrap(), 194785.8484);
}

#[test]
fn ticker_without_entries_is_an_empty_response_error() {
    let body = r#"{"status":0,"data":[],"responsetime":"2019-03-19T02:15:06.014Z"}"#;
    let resp = decode::<Ticker>(&raw(body)).unwrap();
    assert!(matches!(resp.ask(), Err(Error::EmptyResponseError)));
    assert!(matches!(resp.symbol(), Err(Error::EmptyResponseError)));
}

const TRADES_RESPONSE_SAMPLE: &str = r#"
      {
        "status": 0,
        "data": {
          "pagination": {
            "currentPage": 1,
            "count": 30
          },
          "list": [
            {
              "price": "750760",
              "side": "BUY",
              "size": "0.1",
              "timestamp": "2018-03-30T12:34:56.789Z"
            },
            {
                "price": "750760",
                "side": "BUY",
                "size": "0.1",
                "timestamp": "2018-03-30T12:34:56.789Z"
            }
          ]
        },
        "responsetime": "2019-03-28T09:28:07.980Z"
      }
      "#;

#[test]
fn trades_should_return_ok_when_http_client_returns_correct_response() {
    let resp = decode::<Trades>(&raw(TRADES_RESPONSE_SAMPLE)).unwrap();
    assert_eq!(resp.http_status_code, 200);
    assert_eq!(resp.body.status, 0);
    assert_eq!(resp.body.responsetime.to_rfc3339_millis(), "2019-03-28T09:28:07.980Z");
    assert_eq!(resp.count(), 30);
    assert_eq!(resp.page(), 1);
    let trades = resp.trades();
    assert_eq!(trades.len(), 2);
    assert_eq!(trades[0].price, 750760);
    assert_eq!(trades[0].size, "0.1");
}

#[test]
fn trades_with_empty_data_is_an_empty_page() {
    let body = r#"{"status":0,"data":{},"responsetime":"2020-11-15T06:32:13.747Z"}"#;
    let resp = decode::<Trades>(&raw(body)).unwrap();
    assert_eq!(resp.http_status_code, 200);
    assert_eq!(resp.page(), 0);
    assert_eq!(resp.count(), 0);
    assert_eq!(resp.trades().len(), 0);
}

const ORDERBOOKS_RESPONSE_SAMPLE: &str = r#"{
        "status": 0,
        "data": {
          "asks": [
            {
              "price": "455659",
              "size": "0.1"
            },
            {
                "price": "455659",
                "size": "0.1"
            }
          ],
          "bids": [
            {
              "price": "455659",
              "size": "0.1"
            }
          ],
          "symbol": "BTC"
        },
        "responsetime": "2019-03-19T02:15:06.026Z"
      }"#;

#[test]
fn orderbooks_should_return_ok_when_http_client_returns_correct_response() {
    let resp = decode::<Orderbooks>(&raw(ORDERBOOKS_RESPONSE_SAMPLE)).unwrap();
    assert_eq!(resp.http_status_code, 200);
    assert_eq!(resp.body.status, 0);
    assert_eq!(resp.body.responsetime.to_rfc3339_millis(), "2019-03-19T02:15:06.026Z");
    assert_eq!(resp.symbol(), "BTC");
    let asks = resp.asks();
    assert_eq!(asks.len(), 2);
    let bids = resp.bids();
    assert_eq!(bids.len(), 1);
}

#[test]
fn public_request_urls() {
    let r = status_request();
    assert_eq!(r.url, "https://api.coin.z.com/public/v1/status");
    assert!(r.headers.entries.is_empty());
    assert_eq!(ticker_request(&Symbol::Btc).url, "https://api.coin.z.com/public/v1/ticker?symbol=BTC");
    assert_eq!(
        orderbooks_request(&Symbol::EthJpy).url,
        "https://api.coin.z.com/public/v1/orderbooks?symbol=ETH_JPY"
    );
    assert_eq!(
        trades_request(&Symbol::Btc).url,
        "https://api.coin.z.com/public/v1/trades?symbol=BTC&page=1&count=100"
    );
    assert_eq!(
        trades_request_with_options(&Symbol::Ltc, 3, 20).url,
        "https://api.coin.z.com/public/v1/trades?symbol=LTC&page=3&count=20"
    );
}
