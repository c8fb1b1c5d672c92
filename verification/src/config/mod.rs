//! Configuration: Binance endpoints and streams, and runtime tunables
//! loaded from key-value rows.

pub mod app_config;
pub mod binance_config;
pub mod runtime;

pub use app_config::AppConfig;
pub use runtime::{AlternativeRuntimeConfig, BinanceRuntimeConfig, QuestDbRuntimeConfig, RuntimeConfig};
