//! How an order executes.

use vstd::prelude::*;

verus! {

/// How an order executes.
#[derive(Clone, Copy, Debug, PartialEq, Eq, Structural)]
pub enum ExecutionType {
    /// At the market price.
    Market,
    /// At the given price or better.
    Limit,
    /// Triggered when the market reaches the given price.
    Stop,
}

pub const MARKET_ORDER: &'static str = "MARKET";

pub const LIMIT_ORDER: &'static str = "LIMIT";

pub const STOP_ORDER: &'static str = "STOP";

impl ExecutionType {
    /// The execution type's name on the wire.
    pub open spec fn wire(&self) -> Seq<char> {
        match self {
            ExecutionType::Market => MARKET_ORDER@,
            ExecutionType::Limit => LIMIT_ORDER@,
            ExecutionType::Stop => STOP_ORDER@,
        }
    }

    /// The execution type's name on the wire.
    pub fn to_string(&self) -> (r: &'static str)
        ensures
            r@ == self.wire(),
    {
        match self {
            ExecutionType::Market => MARKET_ORDER,
            ExecutionType::Limit => LIMIT_ORDER,
            ExecutionType::Stop => STOP_ORDER,
        }
    }
}

} // verus!
