use rust_decimal::Decimal;
use std::str::FromStr;
use trading_bot::decimal::Dec;
use trading_bot::domain::order::{OrderError, OrderRequest, OrderSide, OrderStatus, OrderType};
use trading_bot::order::backtest::BacktestOrderExecutor;

fn d(s: &str) -> Dec {
    let x = Decimal::from_str(s).unwrap();
    Dec::from_parts(x.mantissa(), x.scale()).unwrap()
}

fn val(x: Dec) -> Decimal {
    Decimal::from_i128_with_scale(x.mantissa(), x.scale())
}

fn num(s: &str) -> Decimal {
    Decimal::from_str(s).unwrap()
}

fn req(side: OrderSide, qty: Dec) -> OrderRequest {
    OrderRequest {
        symbol: "BTCUSDT".into(),
        order_type: OrderType::Market,
        side,
        qty,
        ..Default::default()
    }
}

#[test]
fn submit_then_drain_fills_at_next_tick() {
    let mut ex = BacktestOrderExecutor::new(d("10000"), d("0"));
    let o = ex.submit(req(OrderSide::Buy, d("1"))).unwrap();
    assert_eq!(ex.query(o.id).unwrap().status, OrderStatus::New);
    let fills = ex.drain_pending(d("100"), d("99"), 1_000_000);
    assert_eq!(fills.len(), 1);
    assert_eq!(val(fills[0].price), num("100"));
    assert_eq!(ex.query(o.id).unwrap().status, OrderStatus::Filled);
}

#[test]
fn cancel_removes_from_pending() {
    let mut ex = BacktestOrderExecutor::new(d("10000"), d("0"));
    let o = ex.submit(req(OrderSide::Buy, d("1"))).unwrap();
    ex.cancel(o.id).unwrap();
    let fills = ex.drain_pending(d("100"), d("99"), 1);
    assert!(fills.is_empty());
    assert_eq!(ex.query(o.id).unwrap().status, OrderStatus::Cancelled);
}

#[test]
fn non_market_order_is_refused() {
    let mut ex = BacktestOrderExecutor::new(d("10000"), d("0"));
    let mut r = req(OrderSide::Buy, d("1"));
    r.order_type = OrderType::Limit;
    match ex.submit(r) {
        Err(OrderError::ExchangeRejected { code, msg }) => {
            assert_eq!(code, -1);
            assert_eq!(msg, "백테스트 v1 Market Only 입력: Limit");
        }
        other => panic!("unexpected {other:?}"),
    }
    assert!(ex.pending.is_empty());
}

#[test]
fn unknown_order_is_not_found() {
    let mut ex = BacktestOrderExecutor::new(d("10000"), d("0"));
    assert!(matches!(ex.query(42), Err(OrderError::NotFound(_))));
    assert!(matches!(ex.cancel(42), Err(OrderError::NotFound(_))));
}

#[test]
fn filled_order_cannot_be_cancelled() {
    let mut ex = BacktestOrderExecutor::new(d("10000"), d("0"));
    let o = ex.submit(req(OrderSide::Sell, d("1"))).unwrap();
    let fills = ex.drain_pending(d("100"), d("99"), 3);
    assert_eq!(val(fills[0].price), num("99"));
    match ex.cancel(o.id) {
        Err(OrderError::ExchangeRejected { code, msg }) => {
            assert_eq!(code, -1);
            assert_eq!(msg, "취소할 수 없는 주문 상태 Filled");
        }
        other => panic!("unexpected {other:?}"),
    }
}

#[test]
fn open_orders_lists_only_new_orders_of_symbol() {
    let mut ex = BacktestOrderExecutor::new(d("10000"), d("0"));
    let a = ex.submit(req(OrderSide::Buy, d("1"))).unwrap();
    let mut other = req(OrderSide::Buy, d("1"));
    other.symbol = "ETHUSDT".into();
    ex.submit(other).unwrap();
    let open = ex.open_orders("BTCUSDT").unwrap();
    assert_eq!(open.len(), 1);
    assert_eq!(open[0].id, a.id);
    ex.drain_pending(d("100"), d("99"), 1);
    assert!(ex.open_orders("BTCUSDT").unwrap().is_empty());
}

#[test]
fn drain_records_fills_and_moves_equity() {
    let mut ex = BacktestOrderExecutor::new(d("10000"), d("0"));
    ex.submit(req(OrderSide::Buy, d("2"))).unwrap();
    ex.drain_pending(d("100"), d("99"), 1);
    assert_eq!(ex.fills_log.len(), 1);
    ex.mark(d("105"));
    assert_eq!(val(ex.equity()), num("10010"));
    let snap = ex.snapshot();
    assert_eq!(val(snap.initial_equity), num("10000"));
    assert_eq!(snap.position.side, Some(OrderSide::Buy));
    assert_eq!(ex.position().side, Some(OrderSide::Buy));
}
