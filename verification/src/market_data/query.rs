//! What a backtest asks of stored market data.

use vstd::prelude::*;

verus! {

/// Candles of `symbol` over `[from_ns, to_ns)`, sampled every `interval`
/// (`1m`, `5m`, ...).
#[derive(Clone, Debug)]
pub struct BarQuery {
    pub symbol: String,
    pub from_ns: i64,
    pub to_ns: i64,
    pub interval: String,
}

/// Best bid and ask of `symbol` over `[from_ns, to_ns)`, sampled every
/// `every` (`5s`, ...).
#[derive(Clone, Debug)]
pub struct DepthQuery {
    pub symbol: String,
    pub from_ns: i64,
    pub to_ns: i64,
    pub every: String,
}

} // verus!
