//! State of the bottom-bar panels that does not involve prices.

use vstd::prelude::*;

verus! {

/// Direction of an open position; `Flat` is no position.
#[derive(Debug, Clone, Copy, PartialEq, Eq, Structural)]
pub enum PositionSide {
    Long,
    Short,
    Flat,
}

/// The order entry panel: the quantity typed by the user.
pub struct OrderPanel {
    pub quantity: String,
}

impl Default for OrderPanel {
    fn default() -> (p: Self)
        ensures
            p.quantity@ == "0.001"@,
    {
        OrderPanel { quantity: String::from_str("0.001") }
    }
}

} // verus!
