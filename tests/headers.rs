use gmo_coin_rs::headers::{sign, signing_text, Headers, Secret};

fn value(h: &Headers, name: &str) -> String {
    h.entries.iter().find(|e| e.name == name).map(|e| e.value.clone()).unwrap()
}

#[test]
fn hmac_sha256_known_answer() {
    // RFC 4231, test case 2.
    assert_eq!(
        sign("Jefe", "what do ya want for nothing?"),
        "5bdcc146bf60754e6a042426089575c75a003f089d2739839dec58b964ec3843"
    );
}

#[test]
fn secret_create_signs_text() {
    let s = Secret::create("key", "Jefe", "what do ya want for nothing?");
    assert_eq!(s.api_key, "key");
    assert_eq!(s.sign, "5bdcc146bf60754e6a042426089575c75a003f089d2739839dec58b964ec3843");
}

#[test]
fn get_headers_at_fixed_time() {
    let h = Headers::build_get_headers("KEY", "SECRET", "/v1/account/margin", 1553000000000);
    assert_eq!(h.entries.len(), 3);
    assert_eq!(value(&h, "API-KEY"), "KEY");
    assert_eq!(value(&h, "API-TIMESTAMP"), "1553000000000");
    assert_eq!(signing_text(1553000000000, "GET", "/v1/account/margin", ""), "1553000000000GET/v1/account/margin");
    assert_eq!(value(&h, "API-SIGN"), sign("SECRET", "1553000000000GET/v1/account/margin"));
    assert_eq!(value(&h, "API-SIGN").len(), 64);
}

#[test]
fn post_headers_are_deterministic_and_cover_the_body() {
    let body = r#"{"orderId":200}"#;
    let a = Headers::build_post_headers("KEY", "SECRET", "/v1/cancelOrder", body, 1553000000000);
    let b = Headers::build_post_headers("KEY", "SECRET", "/v1/cancelOrder", body, 1553000000000);
    assert_eq!(a.entries.len(), 4);
    assert_eq!(value(&a, "content-type"), "application/json");
    assert_eq!(value(&a, "API-SIGN"), value(&b, "API-SIGN"));
    let c = Headers::build_post_headers("KEY", "SECRET", "/v1/cancelOrder", r#"{"orderId":201}"#, 1553000000000);
    assert_ne!(value(&a, "API-SIGN"), value(&c, "API-SIGN"));
    assert_eq!(
        value(&a, "API-SIGN"),
        sign("SECRET", "1553000000000POST/v1/cancelOrder{\"orderId\":200}")
    );
}

#[test]
fn empty_and_current_headers() {
    assert_eq!(Headers::create_empty_headers().entries.len(), 0);
    let h = Headers::create_get_headers("KEY", "SECRET", "/v1/orders");
    let stamp = value(&h, "API-TIMESTAMP");
    let message = format!("{}GET/v1/orders", stamp);
    assert_eq!(value(&h, "API-SIGN"), sign("SECRET", &message));
    assert!(stamp.parse::<i64>().unwrap() > 1_500_000_000_000);
}
