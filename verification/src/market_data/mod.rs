//! Market data: stored events, the exchange's stream messages, the fear
//! and greed index, the live feed and backtest queries.

pub mod types;
pub mod dto;
pub mod fng;
pub mod feed;
pub mod query;
