//! The whole application configuration.

use vstd::prelude::*;
use crate::config::binance_config::BinanceConfig;
use crate::config::runtime::RuntimeConfig;

verus! {

#[derive(Clone, Debug)]
pub struct AppConfig {
    pub binance: BinanceConfig,
    pub runtime: RuntimeConfig,
}

} // verus!
