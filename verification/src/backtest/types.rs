//! Backtest market data, orders, fills and positions.

use vstd::prelude::*;
use crate::decimal::Dec;

verus! {

/// One OHLCV bar.
#[derive(Clone, Debug)]
pub struct Bar {
    pub symbol: String,
    pub ts_ns: i64,
    pub open: Dec,
    pub high: Dec,
    pub low: Dec,
    pub close: Dec,
    pub volume: Dec,
}

/// Top of the order book at one instant (level 1 only).
#[derive(Clone, Debug)]
pub struct DepthSnapshot {
    pub symbol: String,
    pub ts_ns: i64,
    pub bid1_price: Dec,
    pub bid1_qty: Dec,
    pub ask1_price: Dec,
    pub ask1_qty: Dec,
}

/// Direction of a backtest position.
#[derive(Clone, Copy, Debug, PartialEq, Eq, Structural)]
pub enum Side {
    Long,
    Short,
}

/// An order a strategy hands to the backtest portfolio.
#[derive(Clone, Copy, Debug)]
pub enum BacktestOrder {
    Market { side: Side, qty: Dec },
    Close,
}

/// One execution against the portfolio.
#[derive(Clone, Copy, Debug)]
pub struct Fill {
    pub ts_ns: i64,
    pub side: Side,
    pub qty: Dec,
    pub price: Dec,
    pub fee: Dec,
}

/// The open position; `side == None` means flat.
#[derive(Clone, Copy, Debug)]
pub struct Position {
    pub side: Option<Side>,
    pub qty: Dec,
    pub entry_price: Dec,
    pub entry_ts: i64,
}

impl Position {
    /// The flat position: no side, zero quantity and price, time zero.
    pub open spec fn spec_flat() -> Position {
        Position { side: None, qty: Dec::spec_zero(), entry_price: Dec::spec_zero(), entry_ts: 0 }
    }
}

impl Default for Position {
    fn default() -> (r: Position)
        ensures
            r == Position::spec_flat(),
    {
        Position { side: None, qty: Dec::zero(), entry_price: Dec::zero(), entry_ts: 0 }
    }
}

impl Bar {
    /// A field-for-field copy.
    pub fn duplicate(&self) -> (r: Bar)
        ensures
            r == *self,
    {
        Bar {
            symbol: self.symbol.clone(),
            ts_ns: self.ts_ns,
            open: self.open,
            high: self.high,
            low: self.low,
            close: self.close,
            volume: self.volume,
        }
    }
}

impl DepthSnapshot {
    /// A field-for-field copy.
    pub fn duplicate(&self) -> (r: DepthSnapshot)
        ensures
            r == *self,
    {
        DepthSnapshot {
            symbol: self.symbol.clone(),
            ts_ns: self.ts_ns,
            bid1_price: self.bid1_price,
            bid1_qty: self.bid1_qty,
            ask1_price: self.ask1_price,
            ask1_qty: self.ask1_qty,
        }
    }
}

/// A replayed market event.
#[derive(Clone, Debug)]
pub enum Event {
    Bar(Bar),
    Depth(DepthSnapshot),
}

impl Event {
    /// The event's timestamp.
    pub open spec fn spec_ts_ns(&self) -> i64 {
        match self {
            Event::Bar(b) => b.ts_ns,
            Event::Depth(d) => d.ts_ns,
        }
    }

    pub fn ts_ns(&self) -> (r: i64)
        ensures
            r == self.spec_ts_ns(),
    {
        match self {
            Event::Bar(b) => b.ts_ns,
            Event::Depth(d) => d.ts_ns,
        }
    }
}

} // verus!
