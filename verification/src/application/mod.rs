//! Application services: the simulated-order portfolio and strategy
//! interface of the backtest, and account-event handling of live trading.

pub mod backtest;
