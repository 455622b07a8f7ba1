use gmo_coin_rs::body::json_string;
use gmo_coin_rs::dto::{get_pagination_default_value, get_string_default_value, get_vector_default_value};
use gmo_coin_rs::execution_type::ExecutionType;
use gmo_coin_rs::private::active_orders::ActiveOrders;
use gmo_coin_rs::private::cancel_orders::cancel_orders_request;
use gmo_coin_rs::private::close_order::close_order_request;
use gmo_coin_rs::private::order::{build_parameters, order_request};
use gmo_coin_rs::request::{id_to_num, Credentials};
use gmo_coin_rs::response::{decode, Error, RawResponse};
use gmo_coin_rs::settle_type::SettleType;
use gmo_coin_rs::side::Side;
use gmo_coin_rs::symbol::Symbol;
use gmo_coin_rs::time_in_force::{tif_to_string, TimeInForce};

fn credentials() -> Credentials {
    Credentials { api_key: "KEY".to_string(), api_secret: "SECRET".to_string() }
}

#[test]
fn limit_or_stop_without_price_is_refused() {
    let r = build_parameters(&ExecutionType::Limit, &Symbol::Btc, &Side::Buy, "1", &TimeInForce::Fas, None, None);
    assert!(matches!(r, Err(Error::PriceNotSpecifiedError)));
    let r = order_request(&credentials(), &ExecutionType::Stop, &Symbol::Btc, &Side::Sell, "1", &TimeInForce::Fak, None, None, 0);
    assert!(matches!(r, Err(Error::PriceNotSpecifiedError)));
}

#[test]
fn market_order_with_price_is_refused() {
    let r = build_parameters(&ExecutionType::Market, &Symbol::Btc, &Side::Buy, "1", &TimeInForce::Fak, Some(100), None);
    assert!(matches!(r, Err(Error::PriceNotAllowedError)));
    let r = close_order_request(&credentials(), &ExecutionType::Market, &Symbol::Btc, &Side::Buy, "1", Some(5), "110", &TimeInForce::Fak, 0);
    assert!(matches!(r, Err(Error::PriceNotAllowedError)));
}

#[test]
fn identifiers_that_are_not_numbers_are_refused() {
    assert_eq!(id_to_num("110").ok(), Some(110));
    assert_eq!(id_to_num("-7").ok(), Some(-7));
    match id_to_num("abc") {
        Err(Error::IdToNumberError(s)) => assert_eq!(s, "abc"),
        _ => panic!("expected IdToNumberError"),
    }
    assert!(matches!(id_to_num("2147483648"), Err(Error::IdToNumberError(_))));
    match cancel_orders_request(&credentials(), &vec!["1", "x", "y"], 0) {
        Err(Error::IdToNumberError(s)) => assert_eq!(s, "x"),
        _ => panic!("expected IdToNumberError"),
    }
    let r = close_order_request(&credentials(), &ExecutionType::Limit, &Symbol::Btc, &Side::Buy, "1", Some(5), "pos", &TimeInForce::Fas, 0);
    assert!(matches!(r, Err(Error::IdToNumberError(_))));
}

#[test]
fn close_limit_order_body() {
    let r = close_order_request(&credentials(), &ExecutionType::Limit, &Symbol::EthJpy, &Side::Sell, "0.5", Some(300000), "42", &TimeInForce::Fas, 0).unwrap();
    assert_eq!(
        r.body,
        r#"{"executionType":"LIMIT","price":"300000","settlePosition":[{"positionId":42,"size":"0.5"}],"side":"SELL","symbol":"ETH_JPY","timeInForce":"FAS"}"#
    );
}

#[test]
fn strings_in_bodies_are_escaped() {
    let r = build_parameters(&ExecutionType::Market, &Symbol::Btc, &Side::Buy, "1\"2", &TimeInForce::Sok, None, None).unwrap();
    assert_eq!(r, r#"{"executionType":"MARKET","side":"BUY","size":"1\"2","symbol":"BTC","timeInForce":"SOK"}"#);
}

#[test]
fn control_characters_are_escaped() {
    assert_eq!(json_string("a\nb"), r#""a\nb""#);
    assert_eq!(json_string("\u{1}"), r#""\u0001""#);
    assert_eq!(json_string("\u{1f}\t\r"), r#""\u001f\t\r""#);
    assert_eq!(json_string("é\\"), r#""é\\""#);
}

#[test]
fn wire_names() {
    assert_eq!(Side::Sell.to_string(), "SELL");
    assert_eq!(SettleType::Open.to_string(), "OPEN");
    assert_eq!(ExecutionType::Stop.to_string(), "STOP");
    assert_eq!(tif_to_string(&TimeInForce::Fok), "FOK");
    assert_eq!(Symbol::XprJpy.to_string(), "XRP_JPY");
}

#[test]
fn defaults_for_left_out_members() {
    assert_eq!(get_string_default_value(), "NONE");
    assert!(get_vector_default_value::<i32>().is_empty());
    let p = get_pagination_default_value();
    assert_eq!((p.current_page, p.count), (0, 0));
}

#[test]
fn bad_count_in_pagination_is_refused() {
    let body = r#"{"status":0,"data":{"pagination":{"currentPage":1,"count":"many"},"list":[]},"responsetime":"2019-03-19T01:07:24.217Z"}"#;
    let raw = RawResponse { http_status_code: 200, body_text: body.to_string() };
    assert!(matches!(decode::<ActiveOrders>(&raw), Err(Error::SerdeJsonError)));
}

#[test]
fn status_code_is_kept() {
    let body = r#"{"status":0,"data":{},"responsetime":"2019-03-19T01:07:24.217Z"}"#;
    let raw = RawResponse { http_status_code: 201, body_text: body.to_string() };
    assert_eq!(decode::<ActiveOrders>(&raw).unwrap().http_status_code, 201);
}
