//! Order execution: the simulated executor of the backtest, and the
//! decisions and request signing of the live executor.

pub mod backtest;
pub mod signing;
pub mod live;
