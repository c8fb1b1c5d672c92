use trading_bot::config::binance_config::{BinanceConfig, BinanceNet, StreamConfig, StreamType, SymbolConfig};
use trading_bot::config::runtime::{
    AlternativeRuntimeConfig, BinanceRuntimeConfig, QuestDbRuntimeConfig, RuntimeConfig,
};

fn row(t: &str, k: &str, v: &str) -> (String, String, String) {
    (t.to_string(), k.to_string(), v.to_string())
}

#[test]
fn runtime_defaults() {
    let cfg = RuntimeConfig::default();
    assert_eq!(cfg.binance, BinanceRuntimeConfig { reconnect_delay_sec: 5, read_timeout_sec: 60 });
    assert_eq!(cfg.alternative, AlternativeRuntimeConfig { fallback_interval_sec: 60, retry_interval_sec: 5 });
    assert_eq!(
        cfg.questdb,
        QuestDbRuntimeConfig { batch_max_rows: 5_000, batch_interval_ms: 100, buffer_max_bytes: 1_048_576 }
    );
}

#[test]
fn rows_override_known_keys_in_order() {
    let rows = vec![
        row("binance", "reconnect_delay_sec", "7"),
        row("binance", "read_timeout_sec", "+30"),
        row("alternative", "fallback_interval_sec", "120"),
        row("alternative", "retry_interval_sec", "9"),
        row("questdb", "batch_max_rows", "10"),
        row("questdb", "batch_interval_ms", "250"),
        row("questdb", "buffer_max_bytes", "2048"),
        row("binance", "reconnect_delay_sec", "8"),
    ];
    let cfg = RuntimeConfig::from_rows(&rows);
    assert_eq!(cfg.binance, BinanceRuntimeConfig { reconnect_delay_sec: 8, read_timeout_sec: 30 });
    assert_eq!(cfg.alternative, AlternativeRuntimeConfig { fallback_interval_sec: 120, retry_interval_sec: 9 });
    assert_eq!(cfg.questdb, QuestDbRuntimeConfig { batch_max_rows: 10, batch_interval_ms: 250, buffer_max_bytes: 2048 });
}

#[test]
fn unknown_rows_and_bad_values_are_ignored() {
    let rows = vec![
        row("binance", "reconnect_delay_sec", "soon"),
        row("binance", "unknown_key", "1"),
        row("kafka", "reconnect_delay_sec", "1"),
        row("questdb", "batch_max_rows", "-3"),
        row("alternative", "retry_interval_sec", "18446744073709551616"),
    ];
    let cfg = RuntimeConfig::from_rows(&rows);
    assert_eq!(cfg.binance, RuntimeConfig::default().binance);
    assert_eq!(cfg.questdb, RuntimeConfig::default().questdb);
    assert_eq!(cfg.alternative, RuntimeConfig::default().alternative);
}

fn config(net: BinanceNet) -> BinanceConfig {
    BinanceConfig {
        net,
        symbols: vec![
            SymbolConfig { symbol: "BTCUSDT".into(), enabled: true },
            SymbolConfig { symbol: "ETHUSDT".into(), enabled: false },
            SymbolConfig { symbol: "SOLUSDT".into(), enabled: true },
        ],
        streams: vec![
            StreamConfig { name: "trade".into(), stream_type: StreamType::Public, suffix: "aggTrade".into(), enabled: true },
            StreamConfig { name: "depth".into(), stream_type: StreamType::Public, suffix: "depth10@100ms".into(), enabled: true },
            StreamConfig { name: "mark".into(), stream_type: StreamType::Market, suffix: "markPrice".into(), enabled: true },
            StreamConfig { name: "kline".into(), stream_type: StreamType::Market, suffix: "kline_1m".into(), enabled: false },
        ],
    }
}

#[test]
fn public_url_lists_enabled_public_streams() {
    let cfg = config(BinanceNet::Mainnet);
    assert_eq!(
        cfg.public_ws_url(),
        "wss://fstream.binance.com/public/stream?streams=btcusdt@aggTrade/btcusdt@depth10@100ms/solusdt@aggTrade/solusdt@depth10@100ms"
    );
}

#[test]
fn market_url_on_testnet() {
    let cfg = config(BinanceNet::Testnet);
    assert_eq!(
        cfg.market_ws_url(),
        "wss://stream.binancefuture.com/market/stream?streams=btcusdt@markPrice/solusdt@markPrice"
    );
}

#[test]
fn no_enabled_symbol_gives_empty_stream_list() {
    let mut cfg = config(BinanceNet::Mainnet);
    for s in cfg.symbols.iter_mut() {
        s.enabled = false;
    }
    assert_eq!(cfg.public_ws_url(), "wss://fstream.binance.com/public/stream?streams=");
}

#[test]
fn network_setting() {
    assert_eq!(BinanceNet::from_setting(Some("testnet")), BinanceNet::Testnet);
    assert_eq!(BinanceNet::from_setting(Some("mainnet")), BinanceNet::Mainnet);
    assert_eq!(BinanceNet::from_setting(Some("TESTNET")), BinanceNet::Mainnet);
    assert_eq!(BinanceNet::from_setting(None), BinanceNet::Mainnet);
}
