//! Domain types of live and simulated trading.

pub mod clock;
pub mod order;
pub mod backtest;
