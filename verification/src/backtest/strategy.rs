//! The strategy interface of the plain backtest: a strategy sees each
//! event and queues orders in its context.

use vstd::prelude::*;
use crate::decimal::Dec;
use crate::backtest::types::{BacktestOrder, Bar, DepthSnapshot, Position, Side};

verus! {

/// What a strategy sees of the portfolio, and the orders it queues.
pub struct Context {
    pub now_ns: i64,
    pub position: Position,
    pub equity: Dec,
    pub pending: Vec<BacktestOrder>,
}

impl Context {
    /// Queues a market order.
    pub fn submit_market(&mut self, side: Side, qty: Dec)
        ensures
            final(self).pending@ == old(self).pending@.push(BacktestOrder::Market { side, qty }),
            final(self).now_ns == old(self).now_ns,
            final(self).position == old(self).position,
            final(self).equity == old(self).equity,
    {
        self.pending.push(BacktestOrder::Market { side, qty });
    }

    /// Queues a close of the open position.
    pub fn close_position(&mut self)
        ensures
            final(self).pending@ == old(self).pending@.push(BacktestOrder::Close),
            final(self).now_ns == old(self).now_ns,
            final(self).position == old(self).position,
            final(self).equity == old(self).equity,
    {
        self.pending.push(BacktestOrder::Close);
    }
}

/// A trading strategy driven by the backtest, implemented by users.
pub trait Strategy {
    fn on_start(&mut self, ctx: &mut Context) {
    }

    fn on_bar(&mut self, bar: &Bar, ctx: &mut Context);

    fn on_depth(&mut self, snap: &DepthSnapshot, ctx: &mut Context) {
    }

    fn on_finish(&mut self, ctx: &mut Context) {
    }
}

} // verus!
