use rust_decimal::Decimal;
use std::str::FromStr;
use trading_bot::config::binance_config::{BinanceConfig, BinanceNet};
use trading_bot::config::runtime::{AlternativeRuntimeConfig, BinanceRuntimeConfig};
use trading_bot::decimal::Dec;
use trading_bot::market_data::dto::{BookTickerData, DepthData, KlineData, KlineInner, MarkPriceData, PriceLevelData, StreamData, TradeData};
use trading_bot::market_data::feed::{after_session, BinanceLiveFeed, SessionNext};
use trading_bot::market_data::fng::{plan_fetch, AlternativeFngFeed, FngData, FngResponse, FngStatus, FngStep};
use trading_bot::market_data::types::MarketDataEvent;

fn d(s: &str) -> Dec {
    let x = Decimal::from_str(s).unwrap();
    Dec::from_parts(x.mantissa(), x.scale()).unwrap()
}

fn val(x: Dec) -> Decimal {
    Decimal::from_i128_with_scale(x.mantissa(), x.scale())
}

#[test]
fn trade_time_goes_to_nanoseconds() {
    let t = TradeData {
        symbol: "BTCUSDT".into(),
        price: d("100.5"),
        quantity: d("0.1"),
        time: 1_700_000_000_000,
        buyer_is_market_maker: true,
    }
    .into_trade();
    assert_eq!(t.time_ns, 1_700_000_000_000_000_000);
    assert_eq!(val(t.price), Decimal::from_str("100.5").unwrap());
    assert!(t.buyer_is_market_maker);
}

#[test]
fn depth_levels_keep_their_order() {
    let data = StreamData::Depth(DepthData {
        symbol: "BTCUSDT".into(),
        first_update_id: 1,
        last_update_id: 2,
        bids: vec![PriceLevelData(d("100"), d("1")), PriceLevelData(d("99"), d("2"))],
        asks: vec![PriceLevelData(d("101"), d("3"))],
        event_time: 5,
    });
    match data.into_event() {
        MarketDataEvent::Depth(x) => {
            assert_eq!(x.event_time_ns, 5_000_000);
            assert_eq!(x.bids.len(), 2);
            assert_eq!(val(x.bids[1].price), Decimal::from(99));
            assert_eq!(val(x.bids[1].quantity), Decimal::from(2));
            assert_eq!(val(x.asks[0].price), Decimal::from(101));
        }
        _ => panic!("not depth"),
    }
}

#[test]
fn kline_keeps_open_time_in_milliseconds() {
    let k = KlineData {
        symbol: "BTCUSDT".into(),
        event_time: 10,
        kline: KlineInner {
            open_time: 7,
            open: d("1"),
            high: d("2"),
            low: d("0.5"),
            close: d("1.5"),
            volume: d("10"),
            num_trades: 3,
            is_closed: false,
            quote_volume: d("15"),
        },
    }
    .into_kline();
    assert_eq!(k.event_time_ns, 10_000_000);
    assert_eq!(k.open_time_ms, 7);
    assert_eq!(k.num_trades, 3);
}

fn reading(ts: &str, until: &str) -> FngData {
    FngData {
        value: "42".into(),
        status: FngStatus::ExtremeFear,
        timestamp: ts.into(),
        time_until_update: until.into(),
    }
}

fn alt_cfg() -> AlternativeRuntimeConfig {
    AlternativeRuntimeConfig { fallback_interval_sec: 60, retry_interval_sec: 5 }
}

#[test]
fn failed_fetch_retries() {
    match plan_fetch(&alt_cfg(), None) {
        FngStep::Retry { delay_sec } => assert_eq!(delay_sec, 5),
        other => panic!("unexpected {other:?}"),
    }
    let empty = FngResponse { name: "Fear and Greed Index".into(), data: vec![] };
    match plan_fetch(&alt_cfg(), Some(empty)) {
        FngStep::Retry { delay_sec } => assert_eq!(delay_sec, 5),
        other => panic!("unexpected {other:?}"),
    }
}

#[test]
fn first_reading_is_delivered_with_its_interval() {
    let resp = FngResponse { name: "x".into(), data: vec![reading("1700000000", "3600"), reading("1", "1")] };
    match plan_fetch(&alt_cfg(), Some(resp)) {
        FngStep::Deliver { data, delay_sec } => {
            assert_eq!(delay_sec, 3600);
            assert_eq!(data.timestamp, "1700000000");
        }
        other => panic!("unexpected {other:?}"),
    }
    let resp = FngResponse { name: "x".into(), data: vec![reading("1700000000", "soon")] };
    match plan_fetch(&alt_cfg(), Some(resp)) {
        FngStep::Deliver { delay_sec, .. } => assert_eq!(delay_sec, 60),
        other => panic!("unexpected {other:?}"),
    }
}

#[test]
fn reading_becomes_fear_greed() {
    let f = reading("1700000000", "1").to_fear_greed();
    assert_eq!(f.value, "42");
    assert_eq!(f.status, "Extreme Fear");
    assert_eq!(f.timestamp_sec, 1_700_000_000);
    assert_eq!(reading("later", "1").to_fear_greed().timestamp_sec, 0);
    assert_eq!(FngStatus::Greed.label(), "Greed");
}

#[test]
fn feeds_keep_their_configuration() {
    let feed = AlternativeFngFeed::new(alt_cfg());
    assert_eq!(feed.runtime_config(), alt_cfg());
    let rt = BinanceRuntimeConfig { reconnect_delay_sec: 3, read_timeout_sec: 20 };
    let live = BinanceLiveFeed::new(BinanceConfig { net: BinanceNet::Testnet, symbols: vec![], streams: vec![] }, rt);
    assert_eq!(live.runtime_config(), rt);
    assert_eq!(live.binance_config().net, BinanceNet::Testnet);
}

#[test]
fn failed_session_reconnects_after_delay() {
    let rt = BinanceRuntimeConfig { reconnect_delay_sec: 3, read_timeout_sec: 20 };
    assert_eq!(after_session(true, &rt), SessionNext::Stop);
    assert_eq!(after_session(false, &rt), SessionNext::ReconnectAfter { delay_sec: 3 });
}

#[test]
fn book_ticker_and_mark_price_events() {
    let b = StreamData::BookTicker(BookTickerData {
        symbol: "BTCUSDT".into(),
        bid_price: d("99"),
        bid_quantity: d("1"),
        ask_price: d("101"),
        ask_quantity: d("2"),
        event_time: -3,
    });
    match b.into_event() {
        MarketDataEvent::BookTicker(t) => {
            assert_eq!(t.event_time_ns, -3_000_000);
            assert_eq!(val(t.ask_quantity), Decimal::from(2));
        }
        _ => panic!("not a book ticker"),
    }
    let m = StreamData::MarkPrice(MarkPriceData {
        symbol: "BTCUSDT".into(),
        event_time: 2,
        mark_price: d("100.1"),
        index_price: d("100"),
        funding_rate: d("0.0001"),
        next_funding_time: 99,
    });
    match m.into_event() {
        MarketDataEvent::MarkPrice(p) => {
            assert_eq!(p.event_time_ns, 2_000_000);
            assert_eq!(p.next_funding_time_ms, 99);
            assert_eq!(val(p.funding_rate), Decimal::from_str("0.0001").unwrap());
        }
        _ => panic!("not a mark price"),
    }
}
