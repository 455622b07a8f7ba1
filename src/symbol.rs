//! Trading symbols.

use vstd::prelude::*;

verus! {

/// The symbols that can be traded.
#[derive(Clone, Copy, Debug, PartialEq, Eq, Structural)]
pub enum Symbol {
    Btc,
    Eth,
    Bch,
    Ltc,
    Xrp,
    BtcJpy,
    EthJpy,
    BchJpy,
    LtcJpy,
    XprJpy,
}

/// Bitcoin (spot).
pub const BTC: &'static str = "BTC";

/// Ethereum (spot).
pub const ETH: &'static str = "ETH";

/// Bitcoin Cash (spot).
pub const BCH: &'static str = "BCH";

/// Litecoin (spot).
pub const LTC: &'static str = "LTC";

/// Ripple (spot).
pub const XRP: &'static str = "XRP";

/// Bitcoin against yen (leveraged).
pub const BTC_JPY: &'static str = "BTC_JPY";

/// Ethereum against yen (leveraged).
pub const ETH_JPY: &'static str = "ETH_JPY";

/// Bitcoin Cash against yen (leveraged).
pub const BCH_JPY: &'static str = "BCH_JPY";

/// Litecoin against yen (leveraged).
pub const LTC_JPY: &'static str = "LTC_JPY";

/// Ripple against yen (leveraged).
pub const XRP_JPY: &'static str = "XRP_JPY";

impl Symbol {
    /// The symbol's name on the wire.
    pub open spec fn wire(&self) -> Seq<char> {
        match self {
            Symbol::Btc => BTC@,
            Symbol::Eth => ETH@,
            Symbol::Bch => BCH@,
            Symbol::Ltc => LTC@,
            Symbol::Xrp => XRP@,
            Symbol::BtcJpy => BTC_JPY@,
            Symbol::EthJpy => ETH_JPY@,
            Symbol::BchJpy => BCH_JPY@,
            Symbol::LtcJpy => LTC_JPY@,
            Symbol::XprJpy => XRP_JPY@,
        }
    }

    /// The symbol's name on the wire.
    pub fn to_string(&self) -> (r: &'static str)
        ensures
            r@ == self.wire(),
    {
        match self {
            Symbol::Btc => BTC,
            Symbol::Eth => ETH,
            Symbol::Bch => BCH,
            Symbol::Ltc => LTC,
            Symbol::Xrp => XRP,
            Symbol::BtcJpy => BTC_JPY,
            Symbol::EthJpy => ETH_JPY,
            Symbol::BchJpy => BCH_JPY,
            Symbol::LtcJpy => LTC_JPY,
            Symbol::XprJpy => XRP_JPY,
        }
    }
}

} // verus!
