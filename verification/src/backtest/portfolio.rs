//! A single-position backtest portfolio: market orders open or reverse the
//! position, a close books a trade, and marking prices the open position.

use vstd::prelude::*;
use crate::decimal::{Dec, add_spec, sub_spec, mul_spec, div_spec, checked_add, checked_sub, checked_mul, checked_div};
use crate::backtest::types::{BacktestOrder, Fill, Position, Side};

verus! {

/// A finished round trip.
#[derive(Clone, Copy, Debug)]
pub struct ClosedTrade {
    pub entry_ts_ns: i64,
    pub exit_ts_ns: i64,
    pub side: Side,
    pub qty: Dec,
    pub entry_price: Dec,
    pub exit_price: Dec,
    pub fees: Dec,
    pub gross_pnl: Dec,
    pub net_pnl: Dec,
}

/// Equity, position and trade history of one backtest run.
pub struct Portfolio {
    pub initial_equity: Dec,
    pub equity: Dec,
    pub position: Position,
    pub realized_pnl: Dec,
    pub unrealized_pnl: Dec,
    pub fee_bps: Dec,
    pub closed_trades: Vec<ClosedTrade>,
}

/// The mathematical state of a `Portfolio`.
pub struct PortfolioModel {
    pub initial_equity: Dec,
    pub equity: Dec,
    pub position: Position,
    pub realized_pnl: Dec,
    pub unrealized_pnl: Dec,
    pub fee_bps: Dec,
    pub closed_trades: Seq<ClosedTrade>,
}

impl View for Portfolio {
    type V = PortfolioModel;

    open spec fn view(&self) -> PortfolioModel {
        PortfolioModel {
            initial_equity: self.initial_equity,
            equity: self.equity,
            position: self.position,
            realized_pnl: self.realized_pnl,
            unrealized_pnl: self.unrealized_pnl,
            fee_bps: self.fee_bps,
            closed_trades: self.closed_trades@,
        }
    }
}

/// The basis-point divisor, 10000.
pub open spec fn bps_divisor() -> Dec {
    Dec::spec_int(10000)
}

/// Fee of trading `qty` at `price`: `price * qty * fee_bps / 10000`.
pub open spec fn fee_spec(price: Dec, qty: Dec, fee_bps: Dec) -> Option<Dec> {
    let pq = mul_spec(price, qty);
    let scaled = mul_spec(pq->0, fee_bps);
    if pq is Some && scaled is Some {
        div_spec(scaled->0, bps_divisor())
    } else {
        None
    }
}

/// Profit before fees of a round trip: `(exit - entry) * qty` long,
/// `(entry - exit) * qty` short.
pub open spec fn gross_spec(side: Side, entry: Dec, exit: Dec, qty: Dec) -> Option<Dec> {
    let diff = match side {
        Side::Long => sub_spec(exit, entry),
        Side::Short => sub_spec(entry, exit),
    };
    if diff is Some {
        mul_spec(diff->0, qty)
    } else {
        None
    }
}

/// Closing the open position at `price`: books the trade, adds its net
/// profit to the realized total, resets the position and sets the equity
/// to initial plus realized. `None` when flat or when the arithmetic overflows.
pub open spec fn close_spec(m: PortfolioModel, price: Dec, ts_ns: i64) -> Option<(PortfolioModel, Fill)> {
    let qty = m.position.qty;
    let entry = m.position.entry_price;
    let side = m.position.side->0;
    let entry_fee = fee_spec(entry, qty, m.fee_bps);
    let exit_fee = fee_spec(price, qty, m.fee_bps);
    let fees = add_spec(entry_fee->0, exit_fee->0);
    let gross = gross_spec(side, entry, price, qty);
    let net = sub_spec(gross->0, fees->0);
    let realized = add_spec(m.realized_pnl, net->0);
    let equity = add_spec(m.initial_equity, realized->0);
    if m.position.side is Some && entry_fee is Some && exit_fee is Some && fees is Some
        && gross is Some && net is Some && realized is Some && equity is Some {
        let trade = ClosedTrade {
            entry_ts_ns: m.position.entry_ts,
            exit_ts_ns: ts_ns,
            side,
            qty,
            entry_price: entry,
            exit_price: price,
            fees: fees->0,
            gross_pnl: gross->0,
            net_pnl: net->0,
        };
        Some((
            PortfolioModel {
                equity: equity->0,
                position: Position::spec_flat(),
                realized_pnl: realized->0,
                unrealized_pnl: Dec::spec_zero(),
                closed_trades: m.closed_trades.push(trade),
                ..m
            },
            Fill { ts_ns, side, qty, price, fee: exit_fee->0 },
        ))
    } else {
        None
    }
}

/// Opening a `side` position of `qty` at `price`; the fill carries the fee.
/// `None` when the fee overflows.
pub open spec fn open_spec(m: PortfolioModel, side: Side, qty: Dec, price: Dec, ts_ns: i64) -> Option<(PortfolioModel, Fill)> {
    let fee = fee_spec(price, qty, m.fee_bps);
    if fee is Some {
        Some((
            PortfolioModel {
                position: Position { side: Some(side), qty, entry_price: price, entry_ts: ts_ns },
                ..m
            },
            Fill { ts_ns, side, qty, price, fee: fee->0 },
        ))
    } else {
        None
    }
}

/// Executing `order` at `price`: a close closes an open position and does
/// nothing when flat; a market order in the held direction is ignored, one
/// against it closes first and then opens, one from flat opens.
pub open spec fn execute_spec(m: PortfolioModel, order: BacktestOrder, price: Dec, ts_ns: i64) -> Option<(PortfolioModel, Seq<Fill>)> {
    match order {
        BacktestOrder::Close => {
            if m.position.side is None {
                Some((m, Seq::empty()))
            } else {
                match close_spec(m, price, ts_ns) {
                    Some((m1, f)) => Some((m1, seq![f])),
                    None => None,
                }
            }
        },
        BacktestOrder::Market { side, qty } => {
            match m.position.side {
                Some(cur) => {
                    if cur == side {
                        Some((m, Seq::empty()))
                    } else {
                        match close_spec(m, price, ts_ns) {
                            Some((m1, f1)) => match open_spec(m1, side, qty, price, ts_ns) {
                                Some((m2, f2)) => Some((m2, seq![f1, f2])),
                                None => None,
                            },
                            None => None,
                        }
                    }
                },
                None => match open_spec(m, side, qty, price, ts_ns) {
                    Some((m1, f)) => Some((m1, seq![f])),
                    None => None,
                },
            }
        },
    }
}

/// Unrealized profit of the position at `mark_price` (zero when flat).
pub open spec fn unrealized_spec(position: Position, mark_price: Dec) -> Option<Dec> {
    match position.side {
        Some(side) => gross_spec(side, position.entry_price, mark_price, position.qty),
        None => Some(Dec::spec_zero()),
    }
}

/// Marking at `mark_price`: the unrealized profit is recomputed and the
/// equity becomes initial + realized + unrealized.
pub open spec fn mark_spec(m: PortfolioModel, mark_price: Dec) -> Option<PortfolioModel> {
    let unrealized = unrealized_spec(m.position, mark_price);
    let base = add_spec(m.initial_equity, m.realized_pnl);
    let equity = add_spec(base->0, unrealized->0);
    if unrealized is Some && base is Some && equity is Some {
        Some(PortfolioModel { unrealized_pnl: unrealized->0, equity: equity->0, ..m })
    } else {
        None
    }
}

/// Sum of the net profits of `trades`, added left to right from zero.
pub open spec fn sum_net(trades: Seq<ClosedTrade>) -> Option<Dec>
    decreases trades.len(),
{
    if trades.len() == 0 {
        Some(Dec::spec_zero())
    } else {
        let s = sum_net(trades.drop_last());
        if s is Some {
            add_spec(s->0, trades.last().net_pnl)
        } else {
            None
        }
    }
}

/// The realized profit is the sum of the booked trades' net profits.
pub open spec fn pnl_ledger(m: PortfolioModel) -> bool {
    sum_net(m.closed_trades) == Some(m.realized_pnl)
}

/// Booking one more trade adds its net profit to the running sum.
proof fn lemma_sum_net_push(trades: Seq<ClosedTrade>, t: ClosedTrade)
    ensures
        sum_net(trades.push(t)) == (if sum_net(trades) is Some {
            add_spec(sum_net(trades)->0, t.net_pnl)
        } else {
            None
        }),
{
    assert(trades.push(t).drop_last() =~= trades);
}

/// Law: closing keeps the realized profit equal to the sum of the booked
/// trades' net profits.
pub proof fn law_close_keeps_pnl_ledger(m: PortfolioModel, price: Dec, ts_ns: i64)
    requires
        pnl_ledger(m),
        close_spec(m, price, ts_ns) is Some,
    ensures
        close_spec(m, price, ts_ns) matches Some((m1, f)) && pnl_ledger(m1),
{
    let (m1, f) = close_spec(m, price, ts_ns)->0;
    lemma_sum_net_push(m.closed_trades, m1.closed_trades.last());
    assert(m1.closed_trades =~= m.closed_trades.push(m1.closed_trades.last()));
}

/// Law: whatever order executes, the realized profit stays the sum of the
/// booked trades' net profits.
pub proof fn law_execute_keeps_pnl_ledger(m: PortfolioModel, order: BacktestOrder, price: Dec, ts_ns: i64)
    requires
        pnl_ledger(m),
        execute_spec(m, order, price, ts_ns) is Some,
    ensures
        execute_spec(m, order, price, ts_ns) matches Some((m1, fills)) && pnl_ledger(m1),
{
    if m.position.side is Some && close_spec(m, price, ts_ns) is Some {
        law_close_keeps_pnl_ledger(m, price, ts_ns);
    }
}

/// Law: marking never touches the booked trades or the realized profit.
pub proof fn law_mark_keeps_pnl_ledger(m: PortfolioModel, mark_price: Dec)
    requires
        pnl_ledger(m),
        mark_spec(m, mark_price) is Some,
    ensures
        mark_spec(m, mark_price) matches Some(m1) && pnl_ledger(m1)
            && m1.closed_trades == m.closed_trades && m1.position == m.position,
{
}

/// Law: a close while flat fills nothing and changes nothing.
pub proof fn law_close_when_flat_is_noop(m: PortfolioModel, price: Dec, ts_ns: i64)
    requires
        m.position.side is None,
    ensures
        execute_spec(m, BacktestOrder::Close, price, ts_ns) == Some((m, Seq::<Fill>::empty())),
{
}

/// Law: a market order in the direction already held fills nothing and
/// changes nothing.
pub proof fn law_same_side_market_is_ignored(m: PortfolioModel, side: Side, qty: Dec, price: Dec, ts_ns: i64)
    requires
        m.position.side == Some(side),
    ensures
        execute_spec(m, BacktestOrder::Market { side, qty }, price, ts_ns) == Some((m, Seq::<Fill>::empty())),
{
}

/// Law: a market order against the held direction books exactly one trade
/// (the old position, exited at `price`) and leaves a fresh position of the
/// new side, quantity and entry price; it yields the closing and the
/// opening fill, in that order.
pub proof fn law_opposite_market_reverses(m: PortfolioModel, side: Side, qty: Dec, price: Dec, ts_ns: i64)
    requires
        m.position.side is Some,
        m.position.side != Some(side),
        execute_spec(m, BacktestOrder::Market { side, qty }, price, ts_ns) is Some,
    ensures
        execute_spec(m, BacktestOrder::Market { side, qty }, price, ts_ns) matches Some((m2, fills))
            && fills.len() == 2
            && fills[0].side == m.position.side->0 && fills[0].qty == m.position.qty
            && fills[1].side == side && fills[1].qty == qty && fills[1].price == price
            && m2.position == (Position { side: Some(side), qty, entry_price: price, entry_ts: ts_ns })
            && m2.closed_trades.len() == m.closed_trades.len() + 1
            && m2.closed_trades.drop_last() == m.closed_trades
            && m2.closed_trades.last().side == m.position.side->0
            && m2.closed_trades.last().entry_price == m.position.entry_price
            && m2.closed_trades.last().exit_price == price,
{
    let (m1, f1) = close_spec(m, price, ts_ns)->0;
    assert(m1.closed_trades.drop_last() =~= m.closed_trades);
}

/// Law: closing an open position settles it: the portfolio is flat with no
/// unrealized profit, the equity is initial plus realized, and the booked
/// trade's net profit is its gross profit minus the entry and exit fees.
pub proof fn law_close_settles_position(m: PortfolioModel, price: Dec, ts_ns: i64)
    requires
        m.position.side is Some,
        execute_spec(m, BacktestOrder::Close, price, ts_ns) is Some,
    ensures
        execute_spec(m, BacktestOrder::Close, price, ts_ns) matches Some((m1, fills))
            && fills.len() == 1
            && m1.position.side is None
            && m1.unrealized_pnl == Dec::spec_zero()
            && add_spec(m1.initial_equity, m1.realized_pnl) == Some(m1.equity)
            && add_spec(m.realized_pnl, m1.closed_trades.last().net_pnl) == Some(m1.realized_pnl)
            && sub_spec(m1.closed_trades.last().gross_pnl, m1.closed_trades.last().fees)
                == Some(m1.closed_trades.last().net_pnl)
            && gross_spec(m.position.side->0, m.position.entry_price, price, m.position.qty)
                == Some(m1.closed_trades.last().gross_pnl)
            && (fee_spec(m.position.entry_price, m.position.qty, m.fee_bps) matches Some(entry_fee)
            && add_spec(entry_fee, fills[0].fee) == Some(m1.closed_trades.last().fees)),
{
}

/// Law: executing and marking only ever append to the trade history.
pub proof fn law_history_is_append_only(m: PortfolioModel, order: BacktestOrder, price: Dec, ts_ns: i64)
    requires
        execute_spec(m, order, price, ts_ns) is Some,
    ensures
        execute_spec(m, order, price, ts_ns) matches Some((m1, fills))
            && m.closed_trades.len() <= m1.closed_trades.len() <= m.closed_trades.len() + 1
            && m1.closed_trades.subrange(0, m.closed_trades.len() as int) == m.closed_trades
            && m1.initial_equity == m.initial_equity && m1.fee_bps == m.fee_bps,
{
    if m.position.side is Some && close_spec(m, price, ts_ns) is Some {
        let (m1, f) = close_spec(m, price, ts_ns)->0;
        assert(m1.closed_trades.subrange(0, m.closed_trades.len() as int) =~= m.closed_trades);
    }
    assert(m.closed_trades.subrange(0, m.closed_trades.len() as int) =~= m.closed_trades);
}

/// Law: marking a flat portfolio prices it at initial plus realized, with
/// zero unrealized profit.
pub proof fn law_mark_when_flat(m: PortfolioModel, mark_price: Dec)
    requires
        m.position.side is None,
        mark_spec(m, mark_price) is Some,
    ensures
        mark_spec(m, mark_price) matches Some(m1)
            && m1.unrealized_pnl == Dec::spec_zero()
            && (add_spec(m.initial_equity, m.realized_pnl) matches Some(base)
            && add_spec(base, Dec::spec_zero()) == Some(m1.equity)),
{
}

/// A fresh account: flat, with nothing realized or unrealized.
pub open spec fn new_account(initial_equity: Dec, fee_bps: Dec) -> PortfolioModel {
    PortfolioModel {
        initial_equity,
        equity: initial_equity,
        position: Position::spec_flat(),
        realized_pnl: Dec::spec_zero(),
        unrealized_pnl: Dec::spec_zero(),
        fee_bps,
        closed_trades: Seq::empty(),
    }
}

/// A flat account holds the default position and no unrealized profit.
pub open spec fn flat_is_default(m: PortfolioModel) -> bool {
    m.position.side is None ==> m.position == Position::spec_flat() && m.unrealized_pnl == Dec::spec_zero()
}

/// The equity is initial equity plus realized plus unrealized profit, each
/// sum as `Decimal` addition computes it, where a zero unrealized (or, before
/// any mark, a zero realized and unrealized) profit was not added.
pub open spec fn equity_is_sum(m: PortfolioModel) -> bool {
    ||| add_spec(m.initial_equity, m.realized_pnl) matches Some(base) && {
        ||| add_spec(base, m.unrealized_pnl) == Some(m.equity)
        ||| m.unrealized_pnl == Dec::spec_zero() && base == m.equity
    }
    ||| m.realized_pnl == Dec::spec_zero() && m.unrealized_pnl == Dec::spec_zero() && m.equity == m.initial_equity
}

/// Law: a new account is flat with the default position, and its equity is
/// its initial equity.
pub proof fn law_new_account_is_consistent(initial_equity: Dec, fee_bps: Dec)
    ensures
        flat_is_default(new_account(initial_equity, fee_bps)),
        equity_is_sum(new_account(initial_equity, fee_bps)),
{
}

/// Law: executing any order keeps a flat account at the default position
/// with no unrealized profit, and keeps the equity the sum of initial
/// equity, realized and unrealized profit.
pub proof fn law_execute_keeps_equity_sum(m: PortfolioModel, order: BacktestOrder, price: Dec, ts_ns: i64)
    requires
        flat_is_default(m),
        equity_is_sum(m),
        execute_spec(m, order, price, ts_ns) is Some,
    ensures
        execute_spec(m, order, price, ts_ns) matches Some((m1, fills)) && flat_is_default(m1) && equity_is_sum(m1),
{
}

/// Law: marking keeps a flat account at the default position with no
/// unrealized profit, and makes the equity the sum of initial equity,
/// realized and unrealized profit.
pub proof fn law_mark_keeps_equity_sum(m: PortfolioModel, mark_price: Dec)
    requires
        flat_is_default(m),
        mark_spec(m, mark_price) is Some,
    ensures
        mark_spec(m, mark_price) matches Some(m1) && flat_is_default(m1) && equity_is_sum(m1),
{
}

/// Law: closing the position at `price` books one trade of the
/// position's side, quantity and entry, exiting at `price`. Its gross
/// profit is `(price - entry) * qty` for a long position and
/// `(entry - price) * qty` for a short one; its fees are the entry and
/// exit fees, each `price * qty * fee_bps / 10000`; its net profit is gross
/// minus fees. The realized profit grows by the net profit, the equity
/// becomes initial equity plus realized profit, and the account is flat.
pub proof fn law_close_books_trade(m: PortfolioModel, price: Dec, ts_ns: i64)
    requires
        close_spec(m, price, ts_ns) is Some,
    ensures
        close_spec(m, price, ts_ns) matches Some((m1, f)) && {
            let t = m1.closed_trades.last();
            let qty = m.position.qty;
            let entry = m.position.entry_price;
            &&& m.position.side is Some
            &&& m1.closed_trades == m.closed_trades.push(t)
            &&& t.side == m.position.side->0 && t.qty == qty
            &&& f.qty == qty && f.price == price && f.ts_ns == ts_ns && f.side == m.position.side->0
            &&& t.entry_price == entry && t.exit_price == price
            &&& t.entry_ts_ns == m.position.entry_ts && t.exit_ts_ns == ts_ns
            &&& (m.position.side == Some(Side::Long) ==> (sub_spec(price, entry) matches Some(diff)
                && mul_spec(diff, qty) == Some(t.gross_pnl)))
            &&& (m.position.side == Some(Side::Short) ==> (sub_spec(entry, price) matches Some(diff)
                && mul_spec(diff, qty) == Some(t.gross_pnl)))
            &&& (mul_spec(price, qty) matches Some(pq) && mul_spec(pq, m.fee_bps) matches Some(x)
                && div_spec(x, Dec::spec_int(10000)) == Some(f.fee))
            &&& (mul_spec(entry, qty) matches Some(pq) && mul_spec(pq, m.fee_bps) matches Some(x)
                && div_spec(x, Dec::spec_int(10000)) matches Some(entry_fee)
                && add_spec(entry_fee, f.fee) == Some(t.fees))
            &&& sub_spec(t.gross_pnl, t.fees) == Some(t.net_pnl)
            &&& add_spec(m.realized_pnl, t.net_pnl) == Some(m1.realized_pnl)
            &&& add_spec(m.initial_equity, m1.realized_pnl) == Some(m1.equity)
            &&& m1.position.side is None
            &&& m1.unrealized_pnl == Dec::spec_zero()
            &&& m1.initial_equity == m.initial_equity && m1.fee_bps == m.fee_bps
        },
{
}

/// Law: a market order on a flat account opens a position of the
/// order's side and quantity at `price` and time `ts_ns`, with one fill
/// whose fee is `price * qty * fee_bps / 10000`; equity, realized profit
/// and trade history are unchanged.
pub proof fn law_open_from_flat(m: PortfolioModel, side: Side, qty: Dec, price: Dec, ts_ns: i64)
    requires
        m.position.side is None,
        execute_spec(m, BacktestOrder::Market { side, qty }, price, ts_ns) is Some,
    ensures
        execute_spec(m, BacktestOrder::Market { side, qty }, price, ts_ns) matches Some((m1, fills)) && {
            &&& m1.position == Position { side: Some(side), qty, entry_price: price, entry_ts: ts_ns }
            &&& fills.len() == 1 && fills[0].qty == qty && fills[0].price == price && fills[0].side == side
            &&& (mul_spec(price, qty) matches Some(pq) && mul_spec(pq, m.fee_bps) matches Some(x)
                && div_spec(x, Dec::spec_int(10000)) == Some(fills[0].fee))
            &&& m1.equity == m.equity && m1.realized_pnl == m.realized_pnl
            &&& m1.closed_trades == m.closed_trades
        },
{
}

/// Law: marking the account at `mark` sets the unrealized profit to
/// `(mark - entry) * qty` for a long position, `(entry - mark) * qty` for a
/// short one and zero when flat, and the equity to initial equity plus
/// realized plus unrealized profit; nothing else changes.
pub proof fn law_mark_prices_position(m: PortfolioModel, mark: Dec)
    requires
        mark_spec(m, mark) is Some,
    ensures
        mark_spec(m, mark) matches Some(m1) && {
            let qty = m.position.qty;
            let entry = m.position.entry_price;
            &&& (m.position.side == Some(Side::Long) ==> (sub_spec(mark, entry) matches Some(diff)
                && mul_spec(diff, qty) == Some(m1.unrealized_pnl)))
            &&& (m.position.side == Some(Side::Short) ==> (sub_spec(entry, mark) matches Some(diff)
                && mul_spec(diff, qty) == Some(m1.unrealized_pnl)))
            &&& (m.position.side is None ==> m1.unrealized_pnl == Dec::spec_zero())
            &&& (add_spec(m.initial_equity, m.realized_pnl) matches Some(base)
                && add_spec(base, m1.unrealized_pnl) == Some(m1.equity))
            &&& m1.position == m.position && m1.realized_pnl == m.realized_pnl
            &&& m1.closed_trades == m.closed_trades && m1.initial_equity == m.initial_equity
        },
{
}

/// One call on an account: `execute` of an order at a price and time, or
/// `mark` at a price.
pub enum AccountOp {
    Execute { order: BacktestOrder, price: Dec, ts_ns: i64 },
    Mark { price: Dec },
}

/// The account after the calls `ops`, in order, from `m`; `None` where one
/// of them overflows.
pub open spec fn replay(m: PortfolioModel, ops: Seq<AccountOp>) -> Option<PortfolioModel>
    decreases ops.len(),
{
    if ops.len() == 0 {
        Some(m)
    } else {
        match replay(m, ops.drop_last()) {
            None => None,
            Some(m1) => match ops.last() {
                AccountOp::Execute { order, price, ts_ns } => match execute_spec(m1, order, price, ts_ns) {
                    Some((m2, _fills)) => Some(m2),
                    None => None,
                },
                AccountOp::Mark { price } => mark_spec(m1, price),
            },
        }
    }
}

/// Law: every account reached from a new one by any sequence of executions
/// and marks keeps its initial equity, has its realized profit equal to the
/// sum of the booked trades' net profits, holds the default position with
/// no unrealized profit when flat, and has its equity equal to initial
/// equity plus realized plus unrealized profit.
pub proof fn law_reachable_account(initial_equity: Dec, fee_bps: Dec, ops: Seq<AccountOp>)
    ensures
        replay(new_account(initial_equity, fee_bps), ops) matches Some(m) ==> {
            &&& m.initial_equity == initial_equity
            &&& pnl_ledger(m)
            &&& flat_is_default(m)
            &&& equity_is_sum(m)
        },
    decreases ops.len(),
{
    let m0 = new_account(initial_equity, fee_bps);
    if ops.len() == 0 {
        assert(sum_net(m0.closed_trades) == Some(Dec::spec_zero()));
    } else {
        law_reachable_account(initial_equity, fee_bps, ops.drop_last());
        if let Some(m1) = replay(m0, ops.drop_last()) {
            match ops.last() {
                AccountOp::Execute { order, price, ts_ns } => {
                    if execute_spec(m1, order, price, ts_ns) is Some {
                        law_execute_keeps_pnl_ledger(m1, order, price, ts_ns);
                        law_execute_keeps_equity_sum(m1, order, price, ts_ns);
                    }
                },
                AccountOp::Mark { price } => {
                    if mark_spec(m1, price) is Some {
                        law_mark_keeps_pnl_ledger(m1, price);
                        law_mark_keeps_equity_sum(m1, price);
                    }
                },
            }
        }
    }
}

impl Portfolio {
    pub fn new(initial_equity: Dec, fee_bps: Dec) -> (p: Portfolio)
        ensures
            p@ == new_account(initial_equity, fee_bps),
            pnl_ledger(p@),
    {
        let p = Portfolio {
            initial_equity,
            equity: initial_equity,
            position: Position::default(),
            realized_pnl: Dec::zero(),
            unrealized_pnl: Dec::zero(),
            fee_bps,
            closed_trades: Vec::new(),
        };
        assert(p.closed_trades@ =~= Seq::<ClosedTrade>::empty());
        p
    }

    fn fee_of(&self, price: Dec, qty: Dec) -> (r: Option<Dec>)
        ensures
            r == fee_spec(price, qty, self.fee_bps),
    {
        let pq = match checked_mul(price, qty) {
            Some(x) => x,
            None => return None,
        };
        let scaled = match checked_mul(pq, self.fee_bps) {
            Some(x) => x,
            None => return None,
        };
        checked_div(scaled, Dec::from_i64(10000))
    }

    fn gross_of(side: Side, entry: Dec, exit: Dec, qty: Dec) -> (r: Option<Dec>)
        ensures
            r == gross_spec(side, entry, exit, qty),
    {
        let diff = match side {
            Side::Long => checked_sub(exit, entry),
            Side::Short => checked_sub(entry, exit),
        };
        match diff {
            Some(d) => checked_mul(d, qty),
            None => None,
        }
    }

    fn close_at(&mut self, price: Dec, ts_ns: i64) -> (r: Option<Fill>)
        ensures
            match close_spec(old(self)@, price, ts_ns) {
                Some((m, f)) => final(self)@ == m && r == Some(f),
                None => final(self)@ == old(self)@ && r is None,
            },
    {
        let side = match self.position.side {
            Some(s) => s,
            None => return None,
        };
        let qty = self.position.qty;
        let entry_price = self.position.entry_price;
        let entry_ts = self.position.entry_ts;
        let entry_fee = match self.fee_of(entry_price, qty) {
            Some(x) => x,
            None => return None,
        };
        let exit_fee = match self.fee_of(price, qty) {
            Some(x) => x,
            None => return None,
        };
        let fees = match checked_add(entry_fee, exit_fee) {
            Some(x) => x,
            None => return None,
        };
        let gross = match Self::gross_of(side, entry_price, price, qty) {
            Some(x) => x,
            None => return None,
        };
        let net = match checked_sub(gross, fees) {
            Some(x) => x,
            None => return None,
        };
        let realized = match checked_add(self.realized_pnl, net) {
            Some(x) => x,
            None => return None,
        };
        let equity = match checked_add(self.initial_equity, realized) {
            Some(x) => x,
            None => return None,
        };
        self.realized_pnl = realized;
        self.closed_trades.push(ClosedTrade {
            entry_ts_ns: entry_ts,
            exit_ts_ns: ts_ns,
            side,
            qty,
            entry_price,
            exit_price: price,
            fees,
            gross_pnl: gross,
            net_pnl: net,
        });
        self.position = Position::default();
        self.unrealized_pnl = Dec::zero();
        self.equity = equity;
        Some(Fill { ts_ns, side, qty, price, fee: exit_fee })
    }

    /// Executes `order` at `price`, returning the fills; on an arithmetic
    /// overflow returns `None` and leaves the portfolio unchanged.
    pub fn try_execute(&mut self, order: &BacktestOrder, price: Dec, ts_ns: i64) -> (r: Option<Vec<Fill>>)
        ensures
            match execute_spec(old(self)@, *order, price, ts_ns) {
                Some((m, fills)) => final(self)@ == m && (r matches Some(v) && v@ == fills),
                None => final(self)@ == old(self)@ && r is None,
            },
    {
        match order {
            BacktestOrder::Close => {
                if self.position.side.is_none() {
                    let v: Vec<Fill> = Vec::new();
                    assert(v@ =~= Seq::<Fill>::empty());
                    return Some(v);
                }
                match self.close_at(price, ts_ns) {
                    Some(f) => {
                        let mut v: Vec<Fill> = Vec::new();
                        v.push(f);
                        assert(v@ =~= seq![f]);
                        Some(v)
                    },
                    None => None,
                }
            },
            BacktestOrder::Market { side, qty } => {
                let side = *side;
                let qty = *qty;
                let mut fills: Vec<Fill> = Vec::new();
                if let Some(cur) = self.position.side {
                    if cur == side {
                        assert(fills@ =~= Seq::<Fill>::empty());
                        return Some(fills);
                    }
                }
                let fee = match self.fee_of(price, qty) {
                    Some(x) => x,
                    None => return None,
                };
                match self.position.side {
                    Some(cur) => {
                        match self.close_at(price, ts_ns) {
                            Some(f) => fills.push(f),
                            None => return None,
                        }
                    },
                    None => {},
                }
                self.position = Position { side: Some(side), qty, entry_price: price, entry_ts: ts_ns };
                fills.push(Fill { ts_ns, side, qty, price, fee });
                Some(fills)
            },
        }
    }

    /// Executes `order` at `price` and returns the fills.
    pub fn execute(&mut self, order: &BacktestOrder, price: Dec, ts_ns: i64) -> (r: Vec<Fill>)
        requires
            execute_spec(old(self)@, *order, price, ts_ns) is Some,
        ensures
            execute_spec(old(self)@, *order, price, ts_ns) matches Some((m, fills))
                && final(self)@ == m && r@ == fills,
    {
        let r = self.try_execute(order, price, ts_ns);
        r.unwrap()
    }

    /// Marks the position at `mark_price`; on an arithmetic overflow returns
    /// `false` and leaves the portfolio unchanged.
    pub fn try_mark(&mut self, mark_price: Dec) -> (r: bool)
        ensures
            match mark_spec(old(self)@, mark_price) {
                Some(m) => final(self)@ == m && r,
                None => final(self)@ == old(self)@ && !r,
            },
    {
        let unrealized = match self.position.side {
            Some(side) => match Self::gross_of(side, self.position.entry_price, mark_price, self.position.qty) {
                Some(x) => x,
                None => return false,
            },
            None => Dec::zero(),
        };
        let base = match checked_add(self.initial_equity, self.realized_pnl) {
            Some(x) => x,
            None => return false,
        };
        let equity = match checked_add(base, unrealized) {
            Some(x) => x,
            None => return false,
        };
        self.unrealized_pnl = unrealized;
        self.equity = equity;
        true
    }

    /// Marks the position at `mark_price`.
    pub fn mark(&mut self, mark_price: Dec)
        requires
            mark_spec(old(self)@, mark_price) is Some,
        ensures
            final(self)@ == mark_spec(old(self)@, mark_price)->0,
    {
        self.try_mark(mark_price);
    }
}

} // verus!
