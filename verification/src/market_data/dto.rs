//! Messages of the exchange's market streams, field by field, and how each
//! becomes stored market data: times go from milliseconds to nanoseconds.

use vstd::prelude::*;
use crate::decimal::Dec;
use crate::market_data::types::{BookTicker, Depth, Kline, MarkPrice, MarketDataEvent, PriceLevel, Trade};

verus! {

/// A combined-stream message: the stream's name and its payload.
#[derive(Clone, Debug)]
pub struct StreamEnvelope {
    pub stream: String,
    pub data: StreamData,
}

/// The payload of a market stream, by event type.
#[derive(Clone, Debug)]
pub enum StreamData {
    Trade(TradeData),
    Depth(DepthData),
    BookTicker(BookTickerData),
    Kline(KlineData),
    MarkPrice(MarkPriceData),
}

#[derive(Clone, Debug)]
pub struct TradeData {
    pub symbol: String,
    pub price: Dec,
    pub quantity: Dec,
    /// Trade time in milliseconds.
    pub time: i64,
    pub buyer_is_market_maker: bool,
}

/// A price level as the stream sends it: price, then quantity.
#[derive(Clone, Copy, Debug)]
pub struct PriceLevelData(pub Dec, pub Dec);

#[derive(Clone, Debug)]
pub struct DepthData {
    pub symbol: String,
    pub first_update_id: i64,
    pub last_update_id: i64,
    pub bids: Vec<PriceLevelData>,
    pub asks: Vec<PriceLevelData>,
    /// Event time in milliseconds.
    pub event_time: i64,
}

#[derive(Clone, Debug)]
pub struct BookTickerData {
    pub symbol: String,
    pub bid_price: Dec,
    pub bid_quantity: Dec,
    pub ask_price: Dec,
    pub ask_quantity: Dec,
    /// Event time in milliseconds.
    pub event_time: i64,
}

#[derive(Clone, Debug)]
pub struct KlineInner {
    pub open_time: i64,
    pub open: Dec,
    pub high: Dec,
    pub low: Dec,
    pub close: Dec,
    pub volume: Dec,
    pub num_trades: i64,
    pub is_closed: bool,
    pub quote_volume: Dec,
}

#[derive(Clone, Debug)]
pub struct KlineData {
    pub symbol: String,
    /// Event time in milliseconds.
    pub event_time: i64,
    pub kline: KlineInner,
}

#[derive(Clone, Debug)]
pub struct MarkPriceData {
    pub symbol: String,
    /// Event time in milliseconds.
    pub event_time: i64,
    pub mark_price: Dec,
    pub index_price: Dec,
    pub funding_rate: Dec,
    pub next_funding_time: i64,
}

/// A millisecond time whose nanoseconds fit in an `i64`.
pub open spec fn ms_fits(ms: i64) -> bool {
    i64::MIN <= ms * 1_000_000 <= i64::MAX
}

/// The levels as stored: each pair's price and quantity.
pub open spec fn levels_of(ls: Seq<PriceLevelData>) -> Seq<PriceLevel> {
    ls.map_values(|l: PriceLevelData| PriceLevel { price: l.0, quantity: l.1 })
}

/// Law: the stored levels are the received ones, in order, each pair's
/// first element the price and second the quantity.
pub proof fn law_levels_kept(ls: Seq<PriceLevelData>)
    ensures
        levels_of(ls).len() == ls.len(),
        forall|i: int| 0 <= i < ls.len() ==> (#[trigger] levels_of(ls)[i]).price == ls[i].0
            && levels_of(ls)[i].quantity == ls[i].1,
{
}

/// The millisecond time that every payload carries.
pub open spec fn event_ms(d: StreamData) -> i64 {
    match d {
        StreamData::Trade(t) => t.time,
        StreamData::Depth(x) => x.event_time,
        StreamData::BookTicker(b) => b.event_time,
        StreamData::Kline(k) => k.event_time,
        StreamData::MarkPrice(m) => m.event_time,
    }
}

fn ms_to_ns(ms: i64) -> (r: i64)
    requires
        ms_fits(ms),
    ensures
        r == ms * 1_000_000,
{
    ms * 1_000_000
}

fn levels(ls: &Vec<PriceLevelData>) -> (r: Vec<PriceLevel>)
    ensures
        r@ == levels_of(ls@),
{
    let mut out: Vec<PriceLevel> = Vec::new();
    let n = ls.len();
    let mut i: usize = 0;
    while i < n
        invariant
            n == ls@.len(),
            i <= n,
            out@ == levels_of(ls@.take(i as int)),
        decreases n - i,
    {
        proof {
            assert(levels_of(ls@.take(i + 1)) =~= levels_of(ls@.take(i as int)).push(
                PriceLevel { price: ls@[i as int].0, quantity: ls@[i as int].1 },
            ));
        }
        let l = ls[i];
        out.push(PriceLevel { price: l.0, quantity: l.1 });
        i = i + 1;
    }
    proof {
        assert(ls@.take(n as int) =~= ls@);
    }
    out
}

impl TradeData {
    /// The stored trade, its time in nanoseconds.
    pub fn into_trade(self) -> (r: Trade)
        requires
            ms_fits(self.time),
        ensures
            r.symbol == self.symbol,
            r.price == self.price,
            r.quantity == self.quantity,
            r.time_ns == self.time * 1_000_000,
            r.buyer_is_market_maker == self.buyer_is_market_maker,
    {
        Trade {
            symbol: self.symbol,
            price: self.price,
            quantity: self.quantity,
            time_ns: ms_to_ns(self.time),
            buyer_is_market_maker: self.buyer_is_market_maker,
        }
    }
}

impl DepthData {
    /// The stored order-book update, its levels in the order sent and its
    /// time in nanoseconds.
    pub fn into_depth(self) -> (r: Depth)
        requires
            ms_fits(self.event_time),
        ensures
            r.symbol == self.symbol,
            r.first_update_id == self.first_update_id,
            r.last_update_id == self.last_update_id,
            r.bids@ == levels_of(self.bids@),
            r.asks@ == levels_of(self.asks@),
            r.event_time_ns == self.event_time * 1_000_000,
    {
        let bids = levels(&self.bids);
        let asks = levels(&self.asks);
        Depth {
            symbol: self.symbol,
            first_update_id: self.first_update_id,
            last_update_id: self.last_update_id,
            bids,
            asks,
            event_time_ns: ms_to_ns(self.event_time),
        }
    }
}

impl BookTickerData {
    /// The stored best bid and ask, the time in nanoseconds.
    pub fn into_book_ticker(self) -> (r: BookTicker)
        requires
            ms_fits(self.event_time),
        ensures
            r.symbol == self.symbol,
            r.bid_price == self.bid_price,
            r.bid_quantity == self.bid_quantity,
            r.ask_price == self.ask_price,
            r.ask_quantity == self.ask_quantity,
            r.event_time_ns == self.event_time * 1_000_000,
    {
        BookTicker {
            symbol: self.symbol,
            bid_price: self.bid_price,
            bid_quantity: self.bid_quantity,
            ask_price: self.ask_price,
            ask_quantity: self.ask_quantity,
            event_time_ns: ms_to_ns(self.event_time),
        }
    }
}

impl KlineData {
    /// The stored candlestick: the event time in nanoseconds, the open time
    /// kept in milliseconds.
    pub fn into_kline(self) -> (r: Kline)
        requires
            ms_fits(self.event_time),
        ensures
            r.symbol == self.symbol,
            r.event_time_ns == self.event_time * 1_000_000,
            r.open_time_ms == self.kline.open_time,
            r.open == self.kline.open,
            r.high == self.kline.high,
            r.low == self.kline.low,
            r.close == self.kline.close,
            r.volume == self.kline.volume,
            r.quote_volume == self.kline.quote_volume,
            r.num_trades == self.kline.num_trades,
            r.is_closed == self.kline.is_closed,
    {
        Kline {
            symbol: self.symbol,
            event_time_ns: ms_to_ns(self.event_time),
            open_time_ms: self.kline.open_time,
            open: self.kline.open,
            high: self.kline.high,
            low: self.kline.low,
            close: self.kline.close,
            volume: self.kline.volume,
            quote_volume: self.kline.quote_volume,
            num_trades: self.kline.num_trades,
            is_closed: self.kline.is_closed,
        }
    }
}

impl MarkPriceData {
    /// The stored mark price: the event time in nanoseconds, the next
    /// funding time kept in milliseconds.
    pub fn into_mark_price(self) -> (r: MarkPrice)
        requires
            ms_fits(self.event_time),
        ensures
            r.symbol == self.symbol,
            r.event_time_ns == self.event_time * 1_000_000,
            r.mark_price == self.mark_price,
            r.index_price == self.index_price,
            r.funding_rate == self.funding_rate,
            r.next_funding_time_ms == self.next_funding_time,
    {
        MarkPrice {
            symbol: self.symbol,
            event_time_ns: ms_to_ns(self.event_time),
            mark_price: self.mark_price,
            index_price: self.index_price,
            funding_rate: self.funding_rate,
            next_funding_time_ms: self.next_funding_time,
        }
    }
}

impl StreamData {
    /// The stored event of the same kind.
    pub fn into_event(self) -> (r: MarketDataEvent)
        requires
            ms_fits(event_ms(self)),
        ensures
            self is Trade <==> r is Trade,
            self is Depth <==> r is Depth,
            self is BookTicker <==> r is BookTicker,
            self is Kline <==> r is Kline,
            self is MarkPrice <==> r is MarkPrice,
            self matches StreamData::Trade(d) ==> (r matches MarketDataEvent::Trade(t)
                && t.symbol == d.symbol && t.price == d.price && t.quantity == d.quantity
                && t.time_ns == d.time * 1_000_000 && t.buyer_is_market_maker == d.buyer_is_market_maker),
            self matches StreamData::Depth(d) ==> (r matches MarketDataEvent::Depth(x)
                && x.symbol == d.symbol && x.first_update_id == d.first_update_id
                && x.last_update_id == d.last_update_id && x.bids@ == levels_of(d.bids@)
                && x.asks@ == levels_of(d.asks@) && x.event_time_ns == d.event_time * 1_000_000),
            self matches StreamData::BookTicker(d) ==> (r matches MarketDataEvent::BookTicker(b)
                && b.symbol == d.symbol && b.bid_price == d.bid_price && b.bid_quantity == d.bid_quantity
                && b.ask_price == d.ask_price && b.ask_quantity == d.ask_quantity
                && b.event_time_ns == d.event_time * 1_000_000),
            self matches StreamData::Kline(d) ==> (r matches MarketDataEvent::Kline(k)
                && k.symbol == d.symbol && k.event_time_ns == d.event_time * 1_000_000
                && k.open_time_ms == d.kline.open_time && k.open == d.kline.open && k.high == d.kline.high
                && k.low == d.kline.low && k.close == d.kline.close && k.volume == d.kline.volume
                && k.quote_volume == d.kline.quote_volume && k.num_trades == d.kline.num_trades
                && k.is_closed == d.kline.is_closed),
            self matches StreamData::MarkPrice(d) ==> (r matches MarketDataEvent::MarkPrice(m)
                && m.symbol == d.symbol && m.event_time_ns == d.event_time * 1_000_000
                && m.mark_price == d.mark_price && m.index_price == d.index_price
                && m.funding_rate == d.funding_rate && m.next_funding_time_ms == d.next_funding_time),
    {
        match self {
            StreamData::Trade(d) => MarketDataEvent::Trade(d.into_trade()),
            StreamData::Depth(d) => MarketDataEvent::Depth(d.into_depth()),
            StreamData::BookTicker(d) => MarketDataEvent::BookTicker(d.into_book_ticker()),
            StreamData::Kline(d) => MarketDataEvent::Kline(d.into_kline()),
            StreamData::MarkPrice(d) => MarketDataEvent::MarkPrice(d.into_mark_price()),
        }
    }
}

} // verus!
