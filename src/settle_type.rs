//! Whether an order opens or closes a leveraged position.

use vstd::prelude::*;

verus! {

#[derive(Clone, Copy, Debug, PartialEq, Eq, Structural)]
pub enum SettleType {
    Open,
    Close,
}

pub const OPEN: &'static str = "OPEN";

pub const CLOSE: &'static str = "CLOSE";

impl SettleType {
    /// The settle type's name on the wire.
    pub open spec fn wire(&self) -> Seq<char> {
        match self {
            SettleType::Open => OPEN@,
            SettleType::Close => CLOSE@,
        }
    }

    /// The settle type's name on the wire.
    pub fn to_string(&self) -> (r: &'static str)
        ensures
            r@ == self.wire(),
    {
        match self {
            SettleType::Open => OPEN,
            SettleType::Close => CLOSE,
        }
    }
}

} // verus!
