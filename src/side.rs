//! Buy or sell.

use vstd::prelude::*;

verus! {

/// Which side of the book an order is on.
#[derive(Clone, Copy, Debug, PartialEq, Eq, Structural)]
pub enum Side {
    Buy,
    Sell,
}

pub const BUY: &'static str = "BUY";

pub const SELL: &'static str = "SELL";

impl Side {
    /// The side's name on the wire.
    pub open spec fn wire(&self) -> Seq<char> {
        match self {
            Side::Buy => BUY@,
            Side::Sell => SELL@,
        }
    }

    /// The side's name on the wire.
    pub fn to_string(&self) -> (r: &'static str)
        ensures
            r@ == self.wire(),
    {
        match self {
            Side::Buy => BUY,
            Side::Sell => SELL,
        }
    }
}

} // verus!
