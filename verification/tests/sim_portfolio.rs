use rust_decimal::Decimal;
use std::str::FromStr;
use trading_bot::application::backtest::portfolio::Portfolio;
use trading_bot::decimal::Dec;
use trading_bot::domain::order::{Order, OrderRequest, OrderSide, OrderType};

fn d(s: &str) -> Dec {
    let x = Decimal::from_str(s).unwrap();
    Dec::from_parts(x.mantissa(), x.scale()).unwrap()
}

fn val(x: Dec) -> Decimal {
    Decimal::from_i128_with_scale(x.mantissa(), x.scale())
}

fn num(s: &str) -> Decimal {
    Decimal::from_str(s).unwrap()
}

fn pf() -> Portfolio {
    Portfolio::new(d("10000"), d("4"))
}

fn mkt(side: OrderSide, qty: Dec) -> Order {
    Order::new_from_request(OrderRequest {
        symbol: "BTCUSDT".into(),
        order_type: OrderType::Market,
        side,
        qty,
        ..Default::default()
    })
}

#[test]
fn buy_open_close_net_pnl() {
    let mut p = pf();
    let buy = mkt(OrderSide::Buy, d("1"));
    p.execute_simulated(&buy, d("100"), 1);

    let close = mkt(OrderSide::Sell, d("1"));
    p.execute_simulated(&close, d("110"), 2);

    let t = p.closed_trades.last().unwrap();
    assert_eq!(val(t.gross_pnl), num("10"));
    assert_eq!(val(t.fees), num("0.0840"));
    assert_eq!(val(t.net_pnl), num("9.9160"));
    assert_eq!(val(p.realized_pnl), num("9.9160"));
}

#[test]
fn sell_open_close_net_pnl() {
    let mut p = pf();
    let sell = mkt(OrderSide::Sell, d("1"));
    p.execute_simulated(&sell, d("100"), 1);

    let close = mkt(OrderSide::Buy, d("1"));
    p.execute_simulated(&close, d("90"), 2);

    let t = p.closed_trades.last().unwrap();
    assert_eq!(val(t.gross_pnl), num("10"));
    assert_eq!(val(t.fees), num("0.0760"));
    assert_eq!(val(t.net_pnl), num("9.9240"));
}

#[test]
fn close_when_flat_is_noop() {
    let mut p = pf();
    p.execute_simulated(&mkt(OrderSide::Buy, d("1")), d("100"), 1);
    let fills = p.execute_simulated(&mkt(OrderSide::Buy, d("1")), d("110"), 2);
    assert!(fills.is_empty());
    assert_eq!(val(p.position.qty), num("1"));
}

#[test]
fn opposite_side_closes_and_reopens() {
    let mut p = pf();
    p.execute_simulated(&mkt(OrderSide::Buy, d("1")), d("100"), 1);
    let fills = p.execute_simulated(&mkt(OrderSide::Sell, d("1")), d("110"), 2);
    assert_eq!(fills.len(), 2);
    assert_eq!(p.position.side, Some(OrderSide::Sell));
    assert_eq!(val(p.position.entry_price), num("110"));
    assert_eq!(p.closed_trades.len(), 1);
}

#[test]
fn mark_updates_unrealized_and_equity() {
    let mut p = pf();
    p.execute_simulated(&mkt(OrderSide::Buy, d("2")), d("100"), 1);
    p.mark(d("105"));
    assert_eq!(val(p.unrealized_pnl), num("10"));
    assert_eq!(val(p.equity), num("10010"));
}

#[test]
fn simulated_fills_carry_order_and_fee_asset() {
    let mut p = pf();
    let buy = mkt(OrderSide::Buy, d("1"));
    let fills = p.execute_simulated(&buy, d("100"), 5);
    assert_eq!(fills.len(), 1);
    assert_eq!(fills[0].order_id, buy.id);
    assert_eq!(fills[0].symbol, "BTCUSDT");
    assert_eq!(fills[0].fee_asset, "USDT");
    assert_eq!(fills[0].side, OrderSide::Buy);
    assert_eq!(val(fills[0].fee), num("0.04"));
}

#[test]
fn sim_round_trip_equity_is_initial_plus_net() {
    let mut p = pf();
    p.execute_simulated(&mkt(OrderSide::Sell, d("1")), d("100"), 1);
    p.execute_simulated(&mkt(OrderSide::Buy, d("1")), d("90"), 2);
    assert_eq!(val(p.equity), num("10009.9240"));
    assert_eq!(p.position.side, Some(OrderSide::Buy));
    assert_eq!(val(p.position.entry_price), num("90"));
}

#[test]
fn reduce_only_order_closes_without_reopening() {
    let mut p = pf();
    p.execute_simulated(&mkt(OrderSide::Buy, d("1")), d("100"), 1);
    let mut close = mkt(OrderSide::Sell, d("1"));
    close.reduce_only = true;
    let fills = p.execute_simulated(&close, d("110"), 2);
    assert_eq!(fills.len(), 1);
    assert!(p.position.side.is_none());
    assert_eq!(p.closed_trades.len(), 1);
    let again = p.execute_simulated(&close, d("120"), 3);
    assert!(again.is_empty());
    assert!(p.position.side.is_none());
}
