//! Time-in-force: what happens to the part of an order that does not fill at once.

use vstd::prelude::*;

verus! {

#[derive(Clone, Copy, Debug, PartialEq, Eq, Structural)]
pub enum TimeInForce {
    /// Fill and kill: what is left after a partial fill expires.
    Fak,
    /// Fill and store: what is left after a partial fill stays on the book.
    Fas,
    /// Fill or kill: the whole order expires unless it fills at once.
    Fok,
    /// Post only: a limit order that would not be a maker expires.
    Sok,
}

pub const FAK: &'static str = "FAK";

pub const FAS: &'static str = "FAS";

pub const FOK: &'static str = "FOK";

pub const SOK: &'static str = "SOK";

impl TimeInForce {
    /// The time-in-force's name on the wire.
    pub open spec fn wire(&self) -> Seq<char> {
        match self {
            TimeInForce::Fak => FAK@,
            TimeInForce::Fas => FAS@,
            TimeInForce::Fok => FOK@,
            TimeInForce::Sok => SOK@,
        }
    }
}

/// The time-in-force's name on the wire.
pub fn tif_to_string(tif: &TimeInForce) -> (r: &'static str)
    ensures
        r@ == tif.wire(),
{
    match tif {
        TimeInForce::Fak => FAK,
        TimeInForce::Fas => FAS,
        TimeInForce::Fok => FOK,
        TimeInForce::Sok => SOK,
    }
}

} // verus!
