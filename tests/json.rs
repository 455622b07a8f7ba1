use gmo_coin_rs::decode::{read_decimal, read_int, read_time};
use gmo_coin_rs::json::{coerce_decimal, coerce_id, coerce_number, parse_json, read_object, CoerceError, JsonNode};
use gmo_coin_rs::numeric::{i64_text, is_decimal, parse_i64};
use gmo_coin_rs::timestamp::parse_exchange_timestamp;

#[test]
fn test_str_to_numbers() {
    let json_str = r#"{"i": "100", "f": "-10.55"}"#;
    let ms = read_object(json_str).unwrap();
    let i = read_int(&ms, "i").unwrap();
    let f = read_decimal(&ms, "f").unwrap();
    assert_eq!(i, 100);
    assert_eq!(f.parse::<f64>().unwrap(), -10.55);
}

#[test]
fn test_str_to_datetime() {
    let json_str = r#"{"d": "2019-03-19T02:15:06.001Z"}"#;
    let ms = read_object(json_str).unwrap();
    let d = read_time(&ms, "d").unwrap();
    assert_eq!(d.year, 2019);
    assert_eq!(d.month, 3);
    assert_eq!(d.day, 19);
    assert_eq!(d.hour, 2);
    assert_eq!(d.minute, 15);
    assert_eq!(d.second, 6);
    assert_eq!(d.millisecond, 1);
}

#[test]
fn number_and_string_encodings_read_the_same() {
    let as_string = parse_json(r#""1""#).unwrap();
    let as_number = parse_json("1").unwrap();
    assert_eq!(coerce_number(&as_string).ok(), Some(1));
    assert_eq!(coerce_number(&as_number).ok(), Some(1));
    let big_string = parse_json(r#""-9223372036854775808""#).unwrap();
    let big_number = parse_json("-9223372036854775808").unwrap();
    assert_eq!(coerce_number(&big_string).ok(), Some(i64::MIN));
    assert_eq!(coerce_number(&big_number).ok(), Some(i64::MIN));
    let dec_string = parse_json(r#""0.7361""#).unwrap();
    let dec_number = parse_json("0.7361").unwrap();
    assert_eq!(coerce_decimal(&dec_string).ok(), coerce_decimal(&dec_number).ok());
    assert_eq!(coerce_decimal(&dec_number).ok().as_deref(), Some("0.7361"));
}

#[test]
fn non_numeric_strings_are_refused() {
    for bad in [r#""abc""#, r#""""#, r#""12x""#, r#""-""#, r#""1.5""#, r#""9223372036854775808""#] {
        let j = parse_json(bad).unwrap();
        assert!(matches!(coerce_number(&j), Err(CoerceError::NotANumber)), "{}", bad);
    }
    let j = parse_json("1.5").unwrap();
    assert!(matches!(coerce_number(&j), Err(CoerceError::NotANumber)));
    for wrong in ["true", "null", "[1]", r#"{"a":1}"#] {
        let j = parse_json(wrong).unwrap();
        assert!(matches!(coerce_number(&j), Err(CoerceError::WrongType)), "{}", wrong);
    }
    let j = parse_json(r#""1.2.3""#).unwrap();
    assert!(matches!(coerce_decimal(&j), Err(CoerceError::NotANumber)));
}

#[test]
fn small_numbers_in_exponent_form_are_decimals() {
    let j = parse_json("0.0000001").unwrap();
    let t = coerce_decimal(&j).ok().unwrap();
    assert_eq!(t.parse::<f64>().unwrap(), 0.0000001);
    let j = parse_json(r#""1e-7""#).unwrap();
    assert_eq!(coerce_decimal(&j).ok().as_deref(), Some("1e-7"));
}

#[test]
fn identifiers_become_strings() {
    let n = parse_json("123456789").unwrap();
    let s = parse_json(r#""223456789""#).unwrap();
    assert_eq!(coerce_id(&n).as_deref(), Some("123456789"));
    assert_eq!(coerce_id(&s).as_deref(), Some("223456789"));
    assert_eq!(coerce_id(&parse_json("true").unwrap()), None);
}

#[test]
fn parse_json_gives_nodes() {
    match parse_json(r#"{"a": [1, "x"], "b": null}"#).unwrap() {
        JsonNode::Object(ms) => {
            assert_eq!(ms.len(), 2);
            assert!(ms.iter().any(|m| m.key == "a" && m.value == r#"[1,"x"]"#));
        }
        _ => panic!("expected an object"),
    }
    assert!(parse_json("not json").is_none());
}

#[test]
fn integer_text() {
    assert_eq!(parse_i64("+42"), Some(42));
    assert_eq!(parse_i64("-0"), Some(0));
    assert_eq!(parse_i64("9223372036854775807"), Some(i64::MAX));
    assert_eq!(parse_i64("9223372036854775808"), None);
    assert_eq!(parse_i64(""), None);
    assert_eq!(i64_text(-1234), "-1234");
    assert_eq!(i64_text(0), "0");
    assert_eq!(i64_text(i64::MIN), "-9223372036854775808");
    for n in [0, 7, -7, 1553000000000, i64::MAX, i64::MIN] {
        assert_eq!(parse_i64(&i64_text(n)), Some(n));
    }
    assert!(is_decimal("-10.55"));
    assert!(is_decimal("194785.8484"));
    assert!(!is_decimal("1."));
    assert!(!is_decimal(".5"));
    assert!(!is_decimal("-"));
    assert!(is_decimal("1e-7"));
    assert!(is_decimal("-1.5E+3"));
    assert!(is_decimal("2e10"));
    assert!(!is_decimal("1e"));
    assert!(!is_decimal("e5"));
    assert!(!is_decimal("1e5e3"));
    assert!(!is_decimal("1.e5"));
    assert!(!is_decimal("1e+"));
}

#[test]
fn exchange_timestamps() {
    let t = parse_exchange_timestamp("2018-03-30T12:34:56.789Z").unwrap();
    assert_eq!(t.to_rfc3339_millis(), "2018-03-30T12:34:56.789Z");
    assert_eq!(t.millisecond, 789);
    assert!(parse_exchange_timestamp("2018-03-30 12:34:56").is_none());
    assert!(parse_exchange_timestamp("2018-13-30T12:34:56.789Z").is_none());
}
