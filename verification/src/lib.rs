//! Trading-bot core: decimal money arithmetic, backtest portfolios and
//! executors, order-state bookkeeping, exchange-message handling and
//! configuration, all with machine-checked contracts.

pub mod decimal;
pub mod text;
pub mod config;
pub mod backtest;
pub mod domain;
pub mod application;
pub mod order;
pub mod market_data;
pub mod db;
