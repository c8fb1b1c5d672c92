use rust_decimal::Decimal;
use std::str::FromStr;
use trading_bot::backtest::portfolio::Portfolio;
use trading_bot::backtest::types::{BacktestOrder, Side};
use trading_bot::decimal::Dec;

fn d(s: &str) -> Dec {
    let x = Decimal::from_str(s).unwrap();
    Dec::from_parts(x.mantissa(), x.scale()).unwrap()
}

fn val(x: Dec) -> Decimal {
    Decimal::from_i128_with_scale(x.mantissa(), x.scale())
}

fn num(s: &str) -> Decimal {
    Decimal::from_str(s).unwrap()
}

fn pf() -> Portfolio {
    Portfolio::new(d("10000"), d("4"))
}

#[test]
fn long_open_close_net_pnl() {
    let mut p = pf();
    p.execute(&BacktestOrder::Market { side: Side::Long, qty: d("1") }, d("100"), 1);
    p.execute(&BacktestOrder::Close, d("110"), 2);

    let t = p.closed_trades.last().unwrap();
    assert_eq!(val(t.gross_pnl), num("10"));
    assert_eq!(val(t.fees), num("0.0840"));
    assert_eq!(val(t.net_pnl), num("9.9160"));
    assert_eq!(val(p.realized_pnl), num("9.9160"));
}

#[test]
fn short_open_close_net_pnl() {
    let mut p = pf();
    p.execute(&BacktestOrder::Market { side: Side::Short, qty: d("1") }, d("100"), 1);
    p.execute(&BacktestOrder::Close, d("90"), 2);

    let t = p.closed_trades.last().unwrap();
    assert_eq!(val(t.gross_pnl), num("10"));
    assert_eq!(val(t.fees), num("0.0760"));
    assert_eq!(val(t.net_pnl), num("9.9240"));
}

#[test]
fn portfolio_close_when_flat_is_noop() {
    let mut p = pf();
    let fills = p.execute(&BacktestOrder::Close, d("100"), 1);
    assert!(fills.is_empty());
    assert!(p.closed_trades.is_empty());
    assert!(p.position.side.is_none());
}

#[test]
fn opposite_market_closes_and_reopens() {
    let mut p = pf();
    p.execute(&BacktestOrder::Market { side: Side::Long, qty: d("1") }, d("100"), 1);
    let fills = p.execute(&BacktestOrder::Market { side: Side::Short, qty: d("1") }, d("110"), 2);
    assert_eq!(fills.len(), 2);
    assert_eq!(p.position.side, Some(Side::Short));
    assert_eq!(val(p.position.entry_price), num("110"));
    assert_eq!(p.closed_trades.len(), 1);
}

#[test]
fn portfolio_mark_updates_unrealized_and_equity() {
    let mut p = pf();
    p.execute(&BacktestOrder::Market { side: Side::Long, qty: d("2") }, d("100"), 1);
    p.mark(d("105"));
    assert_eq!(val(p.unrealized_pnl), num("10"));
    assert_eq!(val(p.equity), num("10010"));
}

#[test]
fn same_side_market_is_ignored() {
    let mut p = pf();
    p.execute(&BacktestOrder::Market { side: Side::Long, qty: d("1") }, d("100"), 1);
    let fills = p.execute(&BacktestOrder::Market { side: Side::Long, qty: d("3") }, d("120"), 2);
    assert!(fills.is_empty());
    assert_eq!(val(p.position.qty), num("1"));
    assert_eq!(val(p.position.entry_price), num("100"));
}

#[test]
fn equity_equals_initial_plus_net_pnl_after_round_trip() {
    let mut p = pf();
    p.execute(&BacktestOrder::Market { side: Side::Long, qty: d("1") }, d("100"), 1);
    p.execute(&BacktestOrder::Close, d("110"), 2);
    let net: Decimal = p.closed_trades.iter().map(|t| val(t.net_pnl)).sum();
    assert_eq!(val(p.equity), num("10000") + net);
    assert_eq!(val(p.equity), num("10009.9160"));
    assert!(p.position.side.is_none());
}

#[test]
fn mark_when_flat_keeps_equity() {
    let mut p = pf();
    p.mark(d("123"));
    assert_eq!(val(p.unrealized_pnl), num("0"));
    assert_eq!(val(p.equity), num("10000"));
}

#[test]
fn try_execute_reports_success() {
    let mut p = pf();
    let r = p.try_execute(&BacktestOrder::Market { side: Side::Short, qty: d("0.5") }, d("200"), 7);
    let fills = r.unwrap();
    assert_eq!(fills.len(), 1);
    assert_eq!(fills[0].ts_ns, 7);
    assert_eq!(val(fills[0].fee), num("0.04"));
}

#[test]
fn equity_is_initial_plus_realized_plus_unrealized() {
    let mut p = pf();
    p.execute(&BacktestOrder::Market { side: Side::Long, qty: d("1") }, d("100"), 1);
    p.execute(&BacktestOrder::Market { side: Side::Short, qty: d("2") }, d("110"), 2);
    p.mark(d("105"));
    assert_eq!(val(p.unrealized_pnl), num("10"));
    assert_eq!(val(p.equity), val(p.initial_equity) + val(p.realized_pnl) + val(p.unrealized_pnl));
    assert_eq!(val(p.equity), num("10019.9160"));
    p.execute(&BacktestOrder::Close, d("105"), 3);
    assert!(p.position.side.is_none());
    assert_eq!(val(p.unrealized_pnl), num("0"));
    assert_eq!(val(p.position.qty), num("0"));
    assert_eq!(val(p.equity), val(p.initial_equity) + val(p.realized_pnl));
}
