//! Position of the simulated portfolio, keyed by order side.

use vstd::prelude::*;
use crate::decimal::Dec;
use crate::domain::order::OrderSide;

pub use crate::backtest::types::{Bar, DepthSnapshot};

verus! {

/// The open simulated position; `side == None` means flat.
#[derive(Clone, Copy, Debug)]
pub struct Position {
    pub side: Option<OrderSide>,
    pub qty: Dec,
    pub entry_price: Dec,
    pub entry_ts: i64,
}

impl Position {
    /// The flat position: no side, zero quantity and price, time zero.
    pub open spec fn spec_flat() -> Position {
        Position { side: None, qty: Dec::spec_zero(), entry_price: Dec::spec_zero(), entry_ts: 0 }
    }
}

impl Default for Position {
    fn default() -> (r: Position)
        ensures
            r == Position::spec_flat(),
    {
        Position { side: None, qty: Dec::zero(), entry_price: Dec::zero(), entry_ts: 0 }
    }
}

} // verus!
