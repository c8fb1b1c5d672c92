//! The figures of a backtest report: profit, win rate and drawdown.

use vstd::prelude::*;
use crate::decimal::{Dec, sub_spec, mul_spec, div_spec, value_lt, checked_sub, checked_mul, checked_div, greater_than};
use crate::decimal::{lemma_value_lt_chain, lemma_value_lt_irreflexive, lemma_value_lt_asymmetric};
use crate::backtest::types::Side;
use crate::domain::order::OrderSide;
use crate::backtest::engine::{BacktestResult, EquityPoint};
use crate::application::backtest::portfolio::ClosedTrade;
use crate::decimal::{decimal_text, decimal_to_string};
use crate::order::signing::{i64_text, int_text};

verus! {

/// Headline figures of a run.
#[derive(Clone, Copy, Debug)]
pub struct Summary {
    pub initial_equity: Dec,
    pub final_equity: Dec,
    pub total_pnl: Dec,
    pub total_pnl_pct: Dec,
    pub num_trades: usize,
    pub win_rate: Dec,
    pub max_drawdown_pct: Dec,
}

/// How a position side is written in the trade list.
pub open spec fn side_name(s: Side) -> Seq<char> {
    match s {
        Side::Long => "long"@,
        Side::Short => "short"@,
    }
}

pub fn side_str(s: Side) -> (r: &'static str)
    ensures
        r@ == side_name(s),
{
    match s {
        Side::Long => "long",
        Side::Short => "short",
    }
}

/// How the side of a closed trade's position is written: a position
/// opened by buying is long, one opened by selling is short.
pub open spec fn position_name(s: OrderSide) -> Seq<char> {
    match s {
        OrderSide::Buy => "long"@,
        OrderSide::Sell => "short"@,
    }
}

/// Law: a position opened by buying is written `long`, one opened by
/// selling `short`.
pub proof fn law_position_names()
    ensures
        position_name(OrderSide::Buy) == "long"@,
        position_name(OrderSide::Sell) == "short"@,
{
}

pub fn position_str(s: OrderSide) -> (r: &'static str)
    ensures
        r@ == position_name(s),
{
    match s {
        OrderSide::Buy => "long",
        OrderSide::Sell => "short",
    }
}

/// `x * 100` of a ratio, `None` on overflow.
pub open spec fn percent_spec(ratio: Option<Dec>) -> Option<Dec> {
    if ratio is Some {
        mul_spec(ratio->0, Dec::spec_int(100))
    } else {
        None
    }
}

/// One step of the drawdown scan: raise the peak to `equity` if higher;
/// while the peak is positive, the drawdown `(peak - equity) / peak * 100`
/// raises the maximum if higher.
pub open spec fn drawdown_step(peak: Dec, max_dd: Dec, equity: Dec) -> Option<(Dec, Dec)> {
    let peak2 = if value_lt(peak, equity) { equity } else { peak };
    if value_lt(Dec::spec_zero(), peak2) {
        let diff = sub_spec(peak2, equity);
        let dd = if diff is Some { percent_spec(div_spec(diff->0, peak2)) } else { None };
        if dd is Some {
            Some((peak2, if value_lt(max_dd, dd->0) { dd->0 } else { max_dd }))
        } else {
            None
        }
    } else {
        Some((peak2, max_dd))
    }
}

/// Peak and maximum drawdown after scanning `curve` from zero and zero.
pub open spec fn drawdown_scan(curve: Seq<EquityPoint>) -> Option<(Dec, Dec)>
    decreases curve.len(),
{
    if curve.len() == 0 {
        Some((Dec::spec_zero(), Dec::spec_zero()))
    } else {
        let prev = drawdown_scan(curve.drop_last());
        if prev is Some {
            let (peak, max_dd) = prev->0;
            drawdown_step(peak, max_dd, curve.last().equity)
        } else {
            None
        }
    }
}

/// The drawdown of `equity` below `peak` in percent,
/// `(peak - equity) / peak * 100` in `Decimal` arithmetic.
pub open spec fn drawdown_pct(peak: Dec, equity: Dec) -> Option<Dec> {
    match sub_spec(peak, equity) {
        Some(diff) => match div_spec(diff, peak) {
            Some(ratio) => mul_spec(ratio, Dec::spec_int(100)),
            None => None,
        },
        None => None,
    }
}

/// The running peak after the first `k + 1` points of the curve.
pub open spec fn peak_at(curve: Seq<EquityPoint>, k: int) -> Dec {
    match drawdown_scan(curve.take(k + 1)) {
        Some((peak, _max_dd)) => peak,
        None => Dec::spec_zero(),
    }
}

/// Law: the peak of a scanned curve is at least zero and at least every
/// equity of the curve, and it is zero or one of those equities.
pub proof fn law_peak_is_running_max(curve: Seq<EquityPoint>)
    requires
        drawdown_scan(curve) is Some,
    ensures
        drawdown_scan(curve) matches Some((p, m)) && {
            &&& !value_lt(p, Dec::spec_zero())
            &&& forall|j: int| 0 <= j < curve.len() ==> !value_lt(p, (#[trigger] curve[j]).equity)
            &&& (p == Dec::spec_zero() || exists|j: int| 0 <= j < curve.len() && p == (#[trigger] curve[j]).equity)
        },
    decreases curve.len(),
{
    lemma_value_lt_irreflexive(Dec::spec_zero());
    if curve.len() > 0 {
        let c1 = curve.drop_last();
        law_peak_is_running_max(c1);
        let (p1, m1) = drawdown_scan(c1)->0;
        let e = curve.last().equity;
        let (p, m) = drawdown_scan(curve)->0;
        lemma_value_lt_irreflexive(e);
        assert forall|j: int| 0 <= j < curve.len() implies !value_lt(p, (#[trigger] curve[j]).equity) by {
            if j < c1.len() {
                assert(curve[j] == c1[j]);
                if value_lt(p1, e) {
                    lemma_value_lt_asymmetric(p1, e);
                    lemma_value_lt_chain(curve[j].equity, p1, e);
                }
            }
        }
        if value_lt(p1, e) {
            lemma_value_lt_asymmetric(p1, e);
                    lemma_value_lt_chain(Dec::spec_zero(), p1, e);
            assert(p == curve[curve.len() - 1].equity);
        } else if p1 != Dec::spec_zero() {
            let j = choose|j: int| 0 <= j < c1.len() && p1 == (#[trigger] c1[j]).equity;
            assert(curve[j] == c1[j]);
        }
    }
}

/// Law: the maximum drawdown of a scanned curve is at least the drawdown
/// `(peak - equity) / peak * 100` of every point whose running peak is
/// positive, and it is zero or the drawdown of one of those points.
pub proof fn law_max_drawdown_is_largest(curve: Seq<EquityPoint>)
    requires
        drawdown_scan(curve) is Some,
    ensures
        drawdown_scan(curve) matches Some((p, m)) && {
            &&& forall|k: int| 0 <= k < curve.len() && value_lt(Dec::spec_zero(), peak_at(curve, k))
                ==> (drawdown_pct(peak_at(curve, k), (#[trigger] curve[k]).equity) matches Some(dd) && !value_lt(m, dd))
            &&& (m == Dec::spec_zero() || exists|k: int| 0 <= k < curve.len()
                && value_lt(Dec::spec_zero(), peak_at(curve, k))
                && drawdown_pct(peak_at(curve, k), (#[trigger] curve[k]).equity) == Some(m))
        },
    decreases curve.len(),
{
    if curve.len() > 0 {
        let n = curve.len() as int;
        let c1 = curve.drop_last();
        law_max_drawdown_is_largest(c1);
        let (p1, m1) = drawdown_scan(c1)->0;
        let e = curve.last().equity;
        let (p, m) = drawdown_scan(curve)->0;
        assert(curve.take(n) =~= curve);
        assert(peak_at(curve, n - 1) == p);
        assert forall|k: int| 0 <= k < n - 1 implies peak_at(curve, k) == peak_at(c1, k) && curve[k] == c1[k] by {
            assert(curve.take(k + 1) =~= c1.take(k + 1));
        }
        if value_lt(Dec::spec_zero(), p) {
            let dd = drawdown_pct(p, e)->0;
            assert(drawdown_pct(p, e) is Some);
            assert forall|k: int| 0 <= k < n && value_lt(Dec::spec_zero(), peak_at(curve, k))
                implies (drawdown_pct(peak_at(curve, k), (#[trigger] curve[k]).equity) matches Some(d) && !value_lt(m, d)) by {
                if k < n - 1 {
                    assert(peak_at(curve, k) == peak_at(c1, k) && curve[k] == c1[k]);
                    let d = drawdown_pct(peak_at(c1, k), c1[k].equity)->0;
                    if value_lt(m1, dd) {
                        lemma_value_lt_asymmetric(m1, dd);
                    lemma_value_lt_chain(d, m1, dd);
                    }
                } else {
                    lemma_value_lt_irreflexive(dd);
                }
            }
            if !value_lt(m1, dd) && m1 != Dec::spec_zero() {
                let k = choose|k: int| 0 <= k < c1.len() && value_lt(Dec::spec_zero(), peak_at(c1, k))
                    && drawdown_pct(peak_at(c1, k), (#[trigger] c1[k]).equity) == Some(m1);
                assert(peak_at(curve, k) == peak_at(c1, k) && curve[k] == c1[k]);
            }
            if value_lt(m1, dd) {
                assert(drawdown_pct(peak_at(curve, n - 1), curve[n - 1].equity) == Some(m));
            }
        } else {
            assert forall|k: int| 0 <= k < n && value_lt(Dec::spec_zero(), peak_at(curve, k))
                implies (drawdown_pct(peak_at(curve, k), (#[trigger] curve[k]).equity) matches Some(d) && !value_lt(m, d)) by {
                if k < n - 1 {
                    assert(peak_at(curve, k) == peak_at(c1, k) && curve[k] == c1[k]);
                }
            }
            if m1 != Dec::spec_zero() {
                let k = choose|k: int| 0 <= k < c1.len() && value_lt(Dec::spec_zero(), peak_at(c1, k))
                    && drawdown_pct(peak_at(c1, k), (#[trigger] c1[k]).equity) == Some(m1);
                assert(peak_at(curve, k) == peak_at(c1, k) && curve[k] == c1[k]);
            }
        }
    }
}

/// Law: the report gives the run's initial and final equity, the total
/// profit `final - initial`, its percentage `total / initial * 100` (zero
/// for a zero initial equity), the number of trades, and the win rate
/// `wins / trades` (zero without trades), wins being the trades with a
/// positive net profit.
pub proof fn law_summary_figures(initial: Dec, final_eq: Dec, trades: Seq<ClosedTrade>, curve: Seq<EquityPoint>)
    requires
        summary_spec(initial, final_eq, trades, curve) is Some,
    ensures
        summary_spec(initial, final_eq, trades, curve) matches Some(s) && {
            &&& s.initial_equity == initial
            &&& s.final_equity == final_eq
            &&& sub_spec(final_eq, initial) == Some(s.total_pnl)
            &&& (initial@.0 == 0 ==> s.total_pnl_pct == Dec::spec_zero())
            &&& (initial@.0 != 0 ==> (div_spec(s.total_pnl, initial) matches Some(ratio)
                && mul_spec(ratio, Dec::spec_int(100)) == Some(s.total_pnl_pct)))
            &&& s.num_trades == trades.len() as usize
            &&& (trades.len() == 0 ==> s.win_rate == Dec::spec_zero())
            &&& (trades.len() > 0 ==> div_spec(Dec::spec_int(winning_trades(trades).len() as int),
                Dec::spec_int(trades.len() as int)) == Some(s.win_rate))
        },
{
    law_count_wins(trades);
}

/// Law: the reported maximum drawdown is at least the drawdown of every
/// curve point whose running peak is positive, and it is zero or the
/// drawdown of one of those points.
pub proof fn law_summary_max_drawdown(initial: Dec, final_eq: Dec, trades: Seq<ClosedTrade>, curve: Seq<EquityPoint>)
    requires
        summary_spec(initial, final_eq, trades, curve) is Some,
    ensures
        summary_spec(initial, final_eq, trades, curve) matches Some(s) && {
            &&& forall|k: int| 0 <= k < curve.len() && value_lt(Dec::spec_zero(), peak_at(curve, k))
                ==> (drawdown_pct(peak_at(curve, k), (#[trigger] curve[k]).equity) matches Some(dd)
                    && !value_lt(s.max_drawdown_pct, dd))
            &&& (s.max_drawdown_pct == Dec::spec_zero() || exists|k: int| 0 <= k < curve.len()
                && value_lt(Dec::spec_zero(), peak_at(curve, k))
                && drawdown_pct(peak_at(curve, k), (#[trigger] curve[k]).equity) == Some(s.max_drawdown_pct))
        },
{
    law_max_drawdown_is_largest(curve);
}

/// Number of trades with a positive net profit.
pub open spec fn count_wins(trades: Seq<ClosedTrade>) -> nat
    decreases trades.len(),
{
    if trades.len() == 0 {
        0
    } else {
        count_wins(trades.drop_last()) + if value_lt(Dec::spec_zero(), trades.last().net_pnl) { 1nat } else { 0nat }
    }
}

/// The winning trades: those with a positive net profit.
pub open spec fn winning_trades(trades: Seq<ClosedTrade>) -> Seq<ClosedTrade> {
    trades.filter(|t: ClosedTrade| value_lt(Dec::spec_zero(), t.net_pnl))
}

/// Law: the number of wins counted is the number of trades with a positive
/// net profit.
pub proof fn law_count_wins(trades: Seq<ClosedTrade>)
    ensures
        count_wins(trades) == winning_trades(trades).len(),
    decreases trades.len(),
{
    reveal_with_fuel(Seq::filter, 1);
    if trades.len() > 0 {
        law_count_wins(trades.drop_last());
    }
}

/// The report's figures: total profit and its percentage of the initial
/// equity (zero for zero initial equity), number of trades, share of
/// winning trades (zero without trades) and maximum drawdown in percent.
pub open spec fn summary_spec(initial: Dec, final_eq: Dec, trades: Seq<ClosedTrade>, curve: Seq<EquityPoint>) -> Option<Summary> {
    let total = sub_spec(final_eq, initial);
    let pct = if initial@.0 == 0 {
        Some(Dec::spec_zero())
    } else if total is Some {
        percent_spec(div_spec(total->0, initial))
    } else {
        None
    };
    let win_rate = if trades.len() == 0 {
        Some(Dec::spec_zero())
    } else {
        div_spec(Dec::spec_int(count_wins(trades) as int), Dec::spec_int(trades.len() as int))
    };
    let dd = drawdown_scan(curve);
    let max_dd = match dd {
        Some((_, m)) => m,
        None => Dec::spec_zero(),
    };
    if total is Some && pct is Some && win_rate is Some && dd is Some {
        Some(Summary {
            initial_equity: initial,
            final_equity: final_eq,
            total_pnl: total->0,
            total_pnl_pct: pct->0,
            num_trades: trades.len() as usize,
            win_rate: win_rate->0,
            max_drawdown_pct: max_dd,
        })
    } else {
        None
    }
}

fn percent(ratio: Option<Dec>) -> (r: Option<Dec>)
    ensures
        r == percent_spec(ratio),
{
    match ratio {
        Some(x) => checked_mul(x, Dec::from_i64(100)),
        None => None,
    }
}

/// Maximum drawdown of the equity curve in percent; `None` on overflow.
fn max_drawdown_pct(curve: &Vec<EquityPoint>) -> (r: Option<Dec>)
    ensures
        drawdown_scan(curve@) matches Some((peak, max_dd)) ==> r == Some(max_dd),
        drawdown_scan(curve@) is None ==> r is None,
{
    let mut peak = Dec::zero();
    let mut max_dd = Dec::zero();
    let n = curve.len();
    let mut i: usize = 0;
    proof {
        assert(curve@.take(0) =~= Seq::<EquityPoint>::empty());
    }
    while i < n
        invariant
            n == curve@.len(),
            i <= n,
            drawdown_scan(curve@.take(i as int)) == Some((peak, max_dd)),
        decreases n - i,
    {
        let equity = curve[i].equity;
        proof {
            assert(curve@.take(i + 1).drop_last() =~= curve@.take(i as int));
        }
        if greater_than(equity, peak) {
            peak = equity;
        }
        if greater_than(peak, Dec::zero()) {
            let diff = match checked_sub(peak, equity) {
                Some(x) => x,
                None => {
                    proof {
                        lemma_scan_none_extends(curve@, i as int + 1);
                    }
                    return None;
                },
            };
            let dd = match percent(checked_div(diff, peak)) {
                Some(x) => x,
                None => {
                    proof {
                        lemma_scan_none_extends(curve@, i as int + 1);
                    }
                    return None;
                },
            };
            if greater_than(dd, max_dd) {
                max_dd = dd;
            }
        }
        i = i + 1;
    }
    proof {
        assert(curve@.take(n as int) =~= curve@);
    }
    Some(max_dd)
}

/// A scan that fails on a prefix fails on the whole curve.
proof fn lemma_scan_none_extends(curve: Seq<EquityPoint>, k: int)
    requires
        0 <= k <= curve.len(),
        drawdown_scan(curve.take(k)) is None,
    ensures
        drawdown_scan(curve) is None,
    decreases curve.len() - k,
{
    if k < curve.len() {
        assert(curve.take(k + 1).drop_last() =~= curve.take(k));
        lemma_scan_none_extends(curve, k + 1);
    } else {
        assert(curve.take(k) =~= curve);
    }
}

fn count_winning(trades: &Vec<ClosedTrade>) -> (r: usize)
    ensures
        r == count_wins(trades@),
{
    let n = trades.len();
    let mut wins: usize = 0;
    let mut i: usize = 0;
    proof {
        assert(trades@.take(0) =~= Seq::<ClosedTrade>::empty());
    }
    while i < n
        invariant
            n == trades@.len(),
            i <= n,
            wins == count_wins(trades@.take(i as int)),
            wins <= i,
        decreases n - i,
    {
        proof {
            assert(trades@.take(i + 1).drop_last() =~= trades@.take(i as int));
        }
        if greater_than(trades[i].net_pnl, Dec::zero()) {
            wins = wins + 1;
        }
        i = i + 1;
    }
    proof {
        assert(trades@.take(n as int) =~= trades@);
    }
    wins
}

/// The report's figures for a run; `None` where the decimal arithmetic
/// overflows.
pub fn summarize(result: &BacktestResult) -> (r: Option<Summary>)
    ensures
        r == summary_spec(result.portfolio.initial_equity, result.portfolio.equity,
            result.portfolio.closed_trades@, result.equity_curve@),
{
    let initial = result.portfolio.initial_equity;
    let final_eq = result.portfolio.equity;
    let total_pnl = match checked_sub(final_eq, initial) {
        Some(x) => x,
        None => return None,
    };
    let total_pnl_pct = if initial.is_zero() {
        Dec::zero()
    } else {
        match percent(checked_div(total_pnl, initial)) {
            Some(x) => x,
            None => return None,
        }
    };
    let num_trades = result.portfolio.closed_trades.len();
    let wins = count_winning(&result.portfolio.closed_trades);
    let win_rate = if num_trades == 0 {
        Dec::zero()
    } else {
        match checked_div(Dec::from_usize(wins), Dec::from_usize(num_trades)) {
            Some(x) => x,
            None => return None,
        }
    };
    let max_dd = match max_drawdown_pct(&result.equity_curve) {
        Some(x) => x,
        None => return None,
    };
    Some(Summary {
        initial_equity: initial,
        final_equity: final_eq,
        total_pnl,
        total_pnl_pct,
        num_trades,
        win_rate,
        max_drawdown_pct: max_dd,
    })
}

/// The texts of a row.
pub open spec fn texts(v: Seq<String>) -> Seq<Seq<char>> {
    v.map_values(|x: String| x@)
}

/// The columns of the trade list.
pub open spec fn trades_header_spec() -> Seq<Seq<char>> {
    seq!["entry_ts_ns"@, "exit_ts_ns"@, "side"@, "qty"@, "entry_price"@, "exit_price"@, "fees"@, "gross_pnl"@, "net_pnl"@]
}

/// One closed trade as a row of the trade list.
pub open spec fn trade_record_spec(t: ClosedTrade) -> Seq<Seq<char>> {
    seq![
        int_text(t.entry_ts_ns as int),
        int_text(t.exit_ts_ns as int),
        position_name(t.side),
        decimal_to_string(t.qty@),
        decimal_to_string(t.entry_price@),
        decimal_to_string(t.exit_price@),
        decimal_to_string(t.fees@),
        decimal_to_string(t.gross_pnl@),
        decimal_to_string(t.net_pnl@),
    ]
}

/// The columns of the equity curve.
pub open spec fn equity_header_spec() -> Seq<Seq<char>> {
    seq!["ts_ns"@, "equity"@, "position_qty"@, "mark_price"@]
}

/// One point of the equity curve as a row.
pub open spec fn equity_record_spec(p: EquityPoint) -> Seq<Seq<char>> {
    seq![
        int_text(p.ts_ns as int),
        decimal_to_string(p.equity@),
        decimal_to_string(p.position_qty@),
        decimal_to_string(p.mark_price@),
    ]
}

/// The header row of the trade list.
pub fn trades_header() -> (r: Vec<String>)
    ensures
        texts(r@) == trades_header_spec(),
{
    let r = vec![
        "entry_ts_ns".to_string(),
        "exit_ts_ns".to_string(),
        "side".to_string(),
        "qty".to_string(),
        "entry_price".to_string(),
        "exit_price".to_string(),
        "fees".to_string(),
        "gross_pnl".to_string(),
        "net_pnl".to_string(),
    ];
    proof {
        assert(texts(r@) =~= trades_header_spec());
    }
    r
}

/// A closed trade as a row of the trade list.
pub fn trade_record(t: &ClosedTrade) -> (r: Vec<String>)
    ensures
        texts(r@) == trade_record_spec(*t),
{
    let r = vec![
        i64_text(t.entry_ts_ns),
        i64_text(t.exit_ts_ns),
        position_str(t.side).to_string(),
        decimal_text(t.qty),
        decimal_text(t.entry_price),
        decimal_text(t.exit_price),
        decimal_text(t.fees),
        decimal_text(t.gross_pnl),
        decimal_text(t.net_pnl),
    ];
    proof {
        assert(texts(r@) =~= trade_record_spec(*t));
    }
    r
}

/// The header row of the equity curve.
pub fn equity_header() -> (r: Vec<String>)
    ensures
        texts(r@) == equity_header_spec(),
{
    let r = vec!["ts_ns".to_string(), "equity".to_string(), "position_qty".to_string(), "mark_price".to_string()];
    proof {
        assert(texts(r@) =~= equity_header_spec());
    }
    r
}

/// A point of the equity curve as a row.
pub fn equity_record(p: &EquityPoint) -> (r: Vec<String>)
    ensures
        texts(r@) == equity_record_spec(*p),
{
    let r = vec![
        i64_text(p.ts_ns),
        decimal_text(p.equity),
        decimal_text(p.position_qty),
        decimal_text(p.mark_price),
    ];
    proof {
        assert(texts(r@) =~= equity_record_spec(*p));
    }
    r
}

} // verus!
