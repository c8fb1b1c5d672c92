//! The event-driven backtest: market events, a single-position portfolio,
//! the strategy interface, the replay engine and its summary.

pub mod types;
pub mod portfolio;
pub mod strategy;
pub mod engine;
pub mod report;
pub mod questdb;
pub mod window;
