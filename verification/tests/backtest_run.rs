use rust_decimal::Decimal;
use std::str::FromStr;
use trading_bot::application::backtest::portfolio::ClosedTrade;
use trading_bot::application::backtest::strategy::{Context, ContextView, Strategy, StrategyStep};
use trading_bot::backtest::engine::{drain_and_mark, merge_events, run, BacktestConfig, EquityPoint};
use trading_bot::order::backtest::BacktestOrderExecutor;
use trading_bot::backtest::questdb::{bars_from_rows, bars_sql, depth_sql, snapshots_from_rows, Cell, RowError};
use trading_bot::backtest::report::{equity_header, equity_record, summarize, trade_record, trades_header};
use trading_bot::backtest::types::{Bar, DepthSnapshot, Event};
use trading_bot::backtest::window::{backtest_window, WindowError};
use trading_bot::decimal::Dec;
use trading_bot::domain::order::{OrderRequest, OrderSide};
use trading_bot::market_data::query::{BarQuery, DepthQuery};

fn d(s: &str) -> Dec {
    let x = Decimal::from_str(s).unwrap();
    Dec::from_parts(x.mantissa(), x.scale()).unwrap()
}

fn val(x: Dec) -> Decimal {
    Decimal::from_i128_with_scale(x.mantissa(), x.scale())
}

fn num(s: &str) -> Decimal {
    Decimal::from_str(s).unwrap()
}

fn bar(ts: i64, close: &str) -> Bar {
    Bar { symbol: "BTCUSDT".into(), ts_ns: ts, open: d(close), high: d(close), low: d(close), close: d(close), volume: d("1") }
}

fn snap(ts: i64, bid: &str, ask: &str) -> DepthSnapshot {
    DepthSnapshot { symbol: "BTCUSDT".into(), ts_ns: ts, bid1_price: d(bid), bid1_qty: d("1"), ask1_price: d(ask), ask1_qty: d("1") }
}

#[test]
fn merge_puts_bars_first_on_ties() {
    let events = merge_events(vec![bar(1, "1"), bar(3, "1")], vec![snap(1, "1", "2"), snap(2, "1", "2")]);
    let kinds: Vec<(bool, i64)> = events
        .iter()
        .map(|e| match e {
            Event::Bar(b) => (true, b.ts_ns),
            Event::Depth(s) => (false, s.ts_ns),
        })
        .collect();
    assert_eq!(kinds, vec![(true, 1), (false, 1), (false, 2), (true, 3)]);
}

struct BuyOnce {
    done: bool,
}

impl Strategy for BuyOnce {
    // The four steps are specification items: the backtest never calls them.
    fn start_step(&self, _ctx: ContextView) -> StrategyStep<Self> {
        unreachable!()
    }

    fn bar_step(&self, _bar: Bar, _ctx: ContextView) -> StrategyStep<Self> {
        unreachable!()
    }

    fn depth_step(&self, _snap: DepthSnapshot, _ctx: ContextView) -> StrategyStep<Self> {
        unreachable!()
    }

    fn finish_step(&self, _ctx: ContextView) -> StrategyStep<Self> {
        unreachable!()
    }

    fn on_start(&mut self, _ctx: &mut Context) {}

    fn on_depth(&mut self, _snap: &DepthSnapshot, _ctx: &mut Context) {}

    fn on_finish(&mut self, _ctx: &mut Context) {}

    fn on_bar(&mut self, _bar: &Bar, ctx: &mut Context) {
        if !self.done {
            self.done = true;
            ctx.submit(OrderRequest { symbol: "BTCUSDT".into(), side: OrderSide::Buy, qty: d("1"), ..Default::default() });
        }
    }
}

fn cfg() -> BacktestConfig {
    BacktestConfig {
        symbol: "BTCUSDT".into(),
        from_ns: 0,
        to_ns: 10,
        bar_interval: "1m".into(),
        depth_every: "5s".into(),
        initial_equity: d("10000"),
        fee_bps: d("0"),
        depth_freshness_sec: 10,
    }
}

#[test]
fn run_fills_at_next_event_and_closes_at_end() {
    let mut s = BuyOnce { done: false };
    let result = run(vec![bar(1, "100"), bar(2, "110"), bar(3, "120")], vec![], &cfg(), &mut s).unwrap();
    assert_eq!(result.equity_curve.len(), 3);
    assert_eq!(result.portfolio.closed_trades.len(), 1);
    let t = &result.portfolio.closed_trades[0];
    assert_eq!(val(t.entry_price), num("110"));
    assert_eq!(val(t.exit_price), num("120"));
    assert_eq!(val(result.portfolio.equity), num("10010"));
    assert!(result.portfolio.position.side.is_none());
    assert_eq!(val(result.equity_curve[2].position_qty), num("0"));
    assert_eq!(val(result.equity_curve[2].equity), num("10010"));
    let summary = summarize(&result).unwrap();
    assert_eq!(summary.num_trades, 1);
    assert_eq!(val(summary.win_rate), num("1"));
    assert_eq!(val(summary.total_pnl), num("10"));
    assert_eq!(val(summary.total_pnl_pct), num("0.1"));
}

#[test]
fn run_without_events_is_flat() {
    let mut s = BuyOnce { done: false };
    let result = run(vec![], vec![], &cfg(), &mut s).unwrap();
    assert!(result.equity_curve.is_empty());
    assert!(result.portfolio.closed_trades.is_empty());
    assert_eq!(val(result.portfolio.equity), num("10000"));
    let summary = summarize(&result).unwrap();
    assert_eq!(val(summary.max_drawdown_pct), num("0"));
    assert_eq!(val(summary.win_rate), num("0"));
}

#[test]
fn report_rows() {
    assert_eq!(trades_header().len(), 9);
    assert_eq!(equity_header(), vec!["ts_ns", "equity", "position_qty", "mark_price"]);
    let t = ClosedTrade {
        entry_ts_ns: 1,
        exit_ts_ns: -2,
        side: OrderSide::Sell,
        qty: d("1.50"),
        entry_price: d("100"),
        exit_price: d("90"),
        fees: d("0.076"),
        gross_pnl: d("10"),
        net_pnl: d("9.924"),
    };
    assert_eq!(trade_record(&t), vec!["1", "-2", "short", "1.50", "100", "90", "0.076", "10", "9.924"]);
    let p = EquityPoint { ts_ns: 5, equity: d("10000.5"), position_qty: d("0"), mark_price: d("101") };
    assert_eq!(equity_record(&p), vec!["5", "10000.5", "0", "101"]);
}

#[test]
fn sampling_queries() {
    let q = BarQuery { symbol: "BTCUSDT".into(), from_ns: 0, to_ns: 60_000_000_000, interval: "1m".into() };
    assert_eq!(
        bars_sql(&q),
        "SELECT timestamp, first(price) o, max(price) h, min(price) l, last(price) c, sum(quantity) v FROM trades \
WHERE symbol = 'BTCUSDT' AND timestamp >= '1970-01-01T00:00:00.000000Z' AND timestamp < '1970-01-01T00:01:00.000000Z' \
SAMPLE BY 1m ALIGN TO CALENDAR"
    );
    let q = DepthQuery { symbol: "ETHUSDT".into(), from_ns: 0, to_ns: 1_000, every: "5s".into() };
    assert!(depth_sql(&q).ends_with("SAMPLE BY 5s ALIGN TO CALENDAR"));
    assert!(depth_sql(&q).contains("FROM depth WHERE symbol = 'ETHUSDT'"));
}

fn cells(ts: &str, rest: &[&str]) -> Vec<Cell> {
    let mut v = vec![Cell::Text(ts.into())];
    for r in rest {
        v.push(Cell::Number(r.to_string()));
    }
    v
}

#[test]
fn rows_become_bars() {
    let rows = vec![
        cells("1970-01-01T00:00:01.000000Z", &["1", "2", "0.5", "1.5", "10"]),
        cells("1970-01-01T00:01:01Z", &["2", "3", "1", "2", "20"]),
    ];
    let bars = bars_from_rows("BTCUSDT", &rows).unwrap();
    assert_eq!(bars.len(), 2);
    assert_eq!(bars[0].ts_ns, 1_000_000_000);
    assert_eq!(bars[1].ts_ns, 61_000_000_000);
    assert_eq!(val(bars[0].low), num("0.5"));
    assert_eq!(bars[1].symbol, "BTCUSDT");
}

#[test]
fn bad_rows_report_the_first_error() {
    let mut rows = vec![cells("1970-01-01T00:00:01Z", &["1", "2", "0.5", "1.5", "10"])];
    rows.push(vec![Cell::Number("1".into()), Cell::Other, Cell::Other, Cell::Other, Cell::Other, Cell::Other]);
    assert_eq!(bars_from_rows("X", &rows).unwrap_err(), RowError::TimestampNotText);
    let rows = vec![cells("yesterday", &["1", "2", "3", "4", "5"])];
    assert_eq!(bars_from_rows("X", &rows).unwrap_err(), RowError::BadTimestamp);
    let mut row = cells("1970-01-01T00:00:01Z", &["1", "2", "3", "4"]);
    row.insert(3, Cell::Text("abc".into()));
    assert_eq!(snapshots_from_rows("X", &vec![row]).unwrap_err(), RowError::NotADecimal { column: 3 });
}

#[test]
fn rows_become_snapshots() {
    let rows = vec![vec![
        Cell::Text("1970-01-01T00:00:05Z".into()),
        Cell::Text("99.5".into()),
        Cell::Number("2".into()),
        Cell::Number("100.5".into()),
        Cell::Number("3".into()),
    ]];
    let s = snapshots_from_rows("ETHUSDT", &rows).unwrap();
    assert_eq!(s[0].ts_ns, 5_000_000_000);
    assert_eq!(val(s[0].bid1_price), num("99.5"));
    assert_eq!(val(s[0].ask1_qty), num("3"));
}

#[test]
fn window_from_dates() {
    assert_eq!(backtest_window("2024-01-01", "2024-01-02"), Ok((1_704_067_200_000_000_000, 1_704_153_600_000_000_000)));
    assert_eq!(backtest_window("2024-01-02", "2024-01-02"), Err(WindowError::Empty));
    assert_eq!(backtest_window("2024-13-01", "2024-01-02"), Err(WindowError::BadFrom));
    assert_eq!(backtest_window("2024-01-01", "tomorrow"), Err(WindowError::BadTo));
}

#[test]
fn drain_and_mark_fills_at_fresh_book_then_marks() {
    let mut ex = BacktestOrderExecutor::new(d("10000"), d("0"));
    ex.submit(OrderRequest { symbol: "BTCUSDT".into(), side: OrderSide::Buy, qty: d("2"), ..Default::default() }).unwrap();
    let book = Some(snap(5, "99", "101"));
    let pt = drain_and_mark(&mut ex, &Event::Bar(bar(6, "104")), &book, 10).unwrap();
    assert_eq!(pt.ts_ns, 6);
    assert_eq!(val(pt.mark_price), num("104"));
    assert_eq!(val(pt.position_qty), num("2"));
    assert_eq!(val(ex.position().entry_price), num("101"));
    assert_eq!(val(pt.equity), num("10006"));
    assert_eq!(val(ex.equity()), num("10006"));
}

struct Recorder {
    calls: Vec<(String, i64, Decimal)>,
}

impl Strategy for Recorder {
    // The four steps are specification items: the backtest never calls them.
    fn start_step(&self, _ctx: ContextView) -> StrategyStep<Self> {
        unreachable!()
    }

    fn bar_step(&self, _bar: Bar, _ctx: ContextView) -> StrategyStep<Self> {
        unreachable!()
    }

    fn depth_step(&self, _snap: DepthSnapshot, _ctx: ContextView) -> StrategyStep<Self> {
        unreachable!()
    }

    fn finish_step(&self, _ctx: ContextView) -> StrategyStep<Self> {
        unreachable!()
    }

    fn on_start(&mut self, ctx: &mut Context) {
        self.calls.push(("start".into(), ctx.now_ns, val(ctx.equity)));
    }

    fn on_bar(&mut self, _bar: &Bar, ctx: &mut Context) {
        self.calls.push(("bar".into(), ctx.now_ns, val(ctx.equity)));
    }

    fn on_depth(&mut self, _snap: &DepthSnapshot, ctx: &mut Context) {
        self.calls.push(("depth".into(), ctx.now_ns, val(ctx.equity)));
    }

    fn on_finish(&mut self, ctx: &mut Context) {
        self.calls.push(("finish".into(), ctx.now_ns, val(ctx.equity)));
    }
}

#[test]
fn run_calls_the_strategy_once_per_event_in_order() {
    let mut s = Recorder { calls: Vec::new() };
    run(vec![bar(1, "100"), bar(3, "110")], vec![snap(2, "99", "101")], &cfg(), &mut s).unwrap();
    let kinds: Vec<(&str, i64)> = s.calls.iter().map(|(k, t, _)| (k.as_str(), *t)).collect();
    assert_eq!(kinds, vec![("start", 1), ("bar", 1), ("depth", 2), ("bar", 3), ("finish", 3)]);
    assert!(s.calls.iter().all(|(_, _, e)| *e == num("10000")));

    let mut empty = Recorder { calls: Vec::new() };
    run(vec![], vec![], &cfg(), &mut empty).unwrap();
    assert!(empty.calls.is_empty());
}

#[test]
fn short_rows_report_the_missing_cell() {
    let rows = vec![cells("1970-01-01T00:00:01Z", &["1", "2", "0.5", "1.5", "10"]), cells("1970-01-01T00:00:02Z", &["1", "2"])];
    assert_eq!(bars_from_rows("X", &rows).unwrap_err(), RowError::MissingCell { column: 3 });
    assert_eq!(snapshots_from_rows("X", &vec![vec![]]).unwrap_err(), RowError::MissingCell { column: 0 });
    let rows = vec![cells("1970-01-01T00:00:01Z", &["x"]), vec![]];
    assert_eq!(bars_from_rows("X", &rows).unwrap_err(), RowError::NotADecimal { column: 1 });
}
