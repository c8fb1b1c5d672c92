//! Backtest services that trade through `Order`s.

pub mod portfolio;
pub mod strategy;
