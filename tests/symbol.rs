use gmo_coin_rs::symbol::{Symbol, BCH_JPY, BTC, ETH};

#[test]
fn test_to_string() {
    assert_eq!(Symbol::Btc.to_string(), BTC);
    assert_eq!(Symbol::Eth.to_string(), ETH);
    assert_eq!(Symbol::BchJpy.to_string(), BCH_JPY);
}
