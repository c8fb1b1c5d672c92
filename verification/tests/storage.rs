use trading_bot::config::binance_config::StreamType;
use trading_bot::config::runtime::QuestDbRuntimeConfig;
use trading_bot::db::codes::stream_type_from_code;
use trading_bot::db::writer::{fng_row, flush_after_append, has_pending, rows_after_append};
use trading_bot::domain::order::{OrderSide, OrderStatus, OrderType, TimeInForce};
use trading_bot::market_data::fng::{FngData, FngStatus};
use trading_bot::market_data::types::FearGreed;

#[test]
fn order_codes_round_trip() {
    for t in [OrderType::Market, OrderType::Limit, OrderType::StopMarket, OrderType::StopLimit] {
        assert_eq!(OrderType::from_db_code(t.db_code()), Some(t));
    }
    for s in [OrderSide::Buy, OrderSide::Sell] {
        assert_eq!(OrderSide::from_db_code(s.db_code()), Some(s));
    }
    for s in [
        OrderStatus::New,
        OrderStatus::PartiallyFilled,
        OrderStatus::Filled,
        OrderStatus::Cancelled,
        OrderStatus::Rejected,
        OrderStatus::Expired,
    ] {
        assert_eq!(OrderStatus::from_db_code(s.db_code()), Some(s));
    }
    for t in [TimeInForce::Gtc, TimeInForce::Ioc, TimeInForce::Fok] {
        assert_eq!(TimeInForce::from_db_code(t.db_code()), Some(t));
    }
    assert_eq!(OrderStatus::PartiallyFilled.db_code(), "partially_filled");
    assert_eq!(OrderType::from_db_code("MARKET"), None);
    assert_eq!(OrderSide::from_db_code("long"), None);
}

#[test]
fn stream_types_from_configuration() {
    assert_eq!(stream_type_from_code("MARKET"), Ok(StreamType::Market));
    assert_eq!(stream_type_from_code("PUBLIC"), Ok(StreamType::Public));
    assert_eq!(stream_type_from_code("PRIVATE"), Ok(StreamType::Private));
    assert_eq!(stream_type_from_code("market"), Err("알수없는 stream_type: market".to_string()));
}

fn qcfg() -> QuestDbRuntimeConfig {
    QuestDbRuntimeConfig { batch_max_rows: 3, batch_interval_ms: 100, buffer_max_bytes: 1000 }
}

#[test]
fn appends_count_rows_and_failures_discard() {
    assert_eq!(rows_after_append(2, true), (3, false));
    assert_eq!(rows_after_append(7, false), (0, true));
    assert!(has_pending(1));
    assert!(!has_pending(0));
}

#[test]
fn flush_rule_after_append() {
    assert!(flush_after_append(3, 10, &qcfg()));
    assert!(!flush_after_append(4, 10, &qcfg()));
    assert!(flush_after_append(4, 1000, &qcfg()));
}

fn reading(value: &str, ts: &str) -> FearGreed {
    FngData { value: value.into(), status: FngStatus::Neutral, timestamp: ts.into(), time_until_update: "1".into() }
        .to_fear_greed()
}

#[test]
fn index_rows() {
    let row = fng_row(&reading("55", "1700000000")).unwrap();
    assert_eq!(row.status, "Neutral");
    assert_eq!(row.value, 55);
    assert_eq!(row.ts_nanos, 1_700_000_000_000_000_000);
    assert!(fng_row(&reading("55", "0")).is_none());
    assert!(fng_row(&reading("55", "yesterday")).is_none());
    assert_eq!(fng_row(&reading("many", "3")).unwrap().value, 0);
}
