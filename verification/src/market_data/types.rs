//! Market data as the collector stores it: times in nanoseconds since the
//! epoch, prices and quantities as decimals.

use vstd::prelude::*;
use crate::decimal::Dec;

verus! {

/// One trade.
#[derive(Clone, Debug)]
pub struct Trade {
    pub symbol: String,
    pub price: Dec,
    pub quantity: Dec,
    pub time_ns: i64,
    pub buyer_is_market_maker: bool,
}

/// One price level of an order book.
#[derive(Clone, Copy, Debug)]
pub struct PriceLevel {
    pub price: Dec,
    pub quantity: Dec,
}

/// An order-book update.
#[derive(Clone, Debug)]
pub struct Depth {
    pub symbol: String,
    pub first_update_id: i64,
    pub last_update_id: i64,
    pub bids: Vec<PriceLevel>,
    pub asks: Vec<PriceLevel>,
    pub event_time_ns: i64,
}

/// Best bid and ask.
#[derive(Clone, Debug)]
pub struct BookTicker {
    pub symbol: String,
    pub bid_price: Dec,
    pub bid_quantity: Dec,
    pub ask_price: Dec,
    pub ask_quantity: Dec,
    pub event_time_ns: i64,
}

/// One candlestick.
#[derive(Clone, Debug)]
pub struct Kline {
    pub symbol: String,
    pub event_time_ns: i64,
    pub open_time_ms: i64,
    pub open: Dec,
    pub high: Dec,
    pub low: Dec,
    pub close: Dec,
    pub volume: Dec,
    pub quote_volume: Dec,
    pub num_trades: i64,
    pub is_closed: bool,
}

/// Mark price, index price and funding.
#[derive(Clone, Debug)]
pub struct MarkPrice {
    pub symbol: String,
    pub event_time_ns: i64,
    pub mark_price: Dec,
    pub index_price: Dec,
    pub funding_rate: Dec,
    pub next_funding_time_ms: i64,
}

/// One reading of the fear and greed index.
#[derive(Clone, Debug)]
pub struct FearGreed {
    pub value: String,
    pub status: String,
    pub timestamp_sec: i64,
}

/// Everything the collector stores.
#[derive(Clone, Debug)]
pub enum MarketDataEvent {
    Trade(Trade),
    Depth(Depth),
    BookTicker(BookTicker),
    Kline(Kline),
    MarkPrice(MarkPrice),
    FearGreed(FearGreed),
}

} // verus!
