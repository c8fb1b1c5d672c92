//! The exchange's market-data feed and how its stream sessions reconnect.

use vstd::prelude::*;
use std::time::Duration;
use crate::config::binance_config::BinanceConfig;
use crate::config::runtime::BinanceRuntimeConfig;

verus! {

/// The live feed of the configured symbols and streams.
pub struct BinanceLiveFeed {
    cfg: BinanceConfig,
    runtime_cfg: BinanceRuntimeConfig,
}

impl BinanceLiveFeed {
    pub fn new(cfg: BinanceConfig, runtime_cfg: BinanceRuntimeConfig) -> (r: BinanceLiveFeed)
        ensures
            r.config() == cfg,
            r.runtime() == runtime_cfg,
    {
        BinanceLiveFeed { cfg, runtime_cfg }
    }

    pub closed spec fn config(&self) -> BinanceConfig {
        self.cfg
    }

    pub closed spec fn runtime(&self) -> BinanceRuntimeConfig {
        self.runtime_cfg
    }

    /// The symbols and streams the feed subscribes to.
    pub fn binance_config(&self) -> (r: &BinanceConfig)
        ensures
            *r == self.config(),
    {
        &self.cfg
    }

    /// The reconnect delay and read timeout of its sessions.
    pub fn runtime_config(&self) -> (r: BinanceRuntimeConfig)
        ensures
            r == self.runtime(),
    {
        self.runtime_cfg
    }
}

/// How a reconnecting WebSocket session is run: its name in the log, the
/// wait before reconnecting and the longest silence it accepts.
pub struct ReconnectConfig {
    pub label: String,
    pub reconnect_delay: Duration,
    pub read_timeout: Duration,
}

/// What a reconnecting stream does after a session ends.
#[derive(Clone, Copy, Debug, PartialEq, Eq, Structural)]
pub enum SessionNext {
    /// The session ended cleanly: stop.
    Stop,
    /// The session failed: connect again after this many seconds.
    ReconnectAfter { delay_sec: u64 },
}

/// After a session: a clean end stops the stream; a failure reconnects
/// after the configured delay.
pub fn after_session(ended_cleanly: bool, runtime_cfg: &BinanceRuntimeConfig) -> (r: SessionNext)
    ensures
        ended_cleanly ==> r == SessionNext::Stop,
        !ended_cleanly ==> r == (SessionNext::ReconnectAfter { delay_sec: runtime_cfg.reconnect_delay_sec }),
{
    if ended_cleanly {
        SessionNext::Stop
    } else {
        SessionNext::ReconnectAfter { delay_sec: runtime_cfg.reconnect_delay_sec }
    }
}

} // verus!
