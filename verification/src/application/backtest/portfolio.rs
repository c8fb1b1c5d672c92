//! The simulated portfolio behind the backtest order executor: like the
//! plain backtest portfolio, but driven by `Order`s and emitting `Fill`s.

use vstd::prelude::*;
use crate::decimal::{Dec, add_spec, sub_spec, mul_spec, div_spec, checked_add, checked_sub, checked_mul, checked_div};
use crate::backtest::portfolio::fee_spec;
use crate::domain::backtest::Position;
use crate::domain::clock::UtcTime;
use crate::domain::order::{Fill, Order, OrderSide};

verus! {

/// Asset in which simulated fees are charged.
pub const FEE_ASSET: &'static str = "USDT";

/// A finished simulated round trip.
#[derive(Clone, Copy, Debug)]
pub struct ClosedTrade {
    pub entry_ts_ns: i64,
    pub exit_ts_ns: i64,
    pub side: OrderSide,
    pub qty: Dec,
    pub entry_price: Dec,
    pub exit_price: Dec,
    pub fees: Dec,
    pub gross_pnl: Dec,
    pub net_pnl: Dec,
}

/// Equity, position and trade history of a simulated account.
pub struct Portfolio {
    pub initial_equity: Dec,
    pub equity: Dec,
    pub position: Position,
    pub realized_pnl: Dec,
    pub unrealized_pnl: Dec,
    pub fee_bps: Dec,
    pub closed_trades: Vec<ClosedTrade>,
}

/// The mathematical state of a simulated `Portfolio`.
pub struct SimModel {
    pub initial_equity: Dec,
    pub equity: Dec,
    pub position: Position,
    pub realized_pnl: Dec,
    pub unrealized_pnl: Dec,
    pub fee_bps: Dec,
    pub closed_trades: Seq<ClosedTrade>,
}

impl View for Portfolio {
    type V = SimModel;

    open spec fn view(&self) -> SimModel {
        SimModel {
            initial_equity: self.initial_equity,
            equity: self.equity,
            position: self.position,
            realized_pnl: self.realized_pnl,
            unrealized_pnl: self.unrealized_pnl,
            fee_bps: self.fee_bps,
            closed_trades: self.closed_trades@,
        }
    }
}

/// Profit before fees: a buy profits from a rise, a sell from a fall.
pub open spec fn side_gross_spec(side: OrderSide, entry: Dec, exit: Dec, qty: Dec) -> Option<Dec> {
    let diff = match side {
        OrderSide::Buy => sub_spec(exit, entry),
        OrderSide::Sell => sub_spec(entry, exit),
    };
    if diff is Some {
        mul_spec(diff->0, qty)
    } else {
        None
    }
}

/// Closing the simulated position at `price`: books the trade, adds its net
/// profit to the realized total, goes flat and sets the equity to initial
/// plus realized. Also gives the closed quantity and the exit fee of the
/// closing fill. `None` when flat or when the arithmetic overflows.
pub open spec fn close_sim_spec(m: SimModel, price: Dec, ts_ns: i64) -> Option<(SimModel, Dec, Dec)> {
    let qty = m.position.qty;
    let entry = m.position.entry_price;
    let side = m.position.side->0;
    let entry_fee = fee_spec(entry, qty, m.fee_bps);
    let exit_fee = fee_spec(price, qty, m.fee_bps);
    let fees = add_spec(entry_fee->0, exit_fee->0);
    let gross = side_gross_spec(side, entry, price, qty);
    let net = sub_spec(gross->0, fees->0);
    let realized = add_spec(m.realized_pnl, net->0);
    let equity = add_spec(m.initial_equity, realized->0);
    if m.position.side is Some && entry_fee is Some && exit_fee is Some && fees is Some
        && gross is Some && net is Some && realized is Some && equity is Some {
        let trade = ClosedTrade {
            entry_ts_ns: m.position.entry_ts,
            exit_ts_ns: ts_ns,
            side,
            qty,
            entry_price: entry,
            exit_price: price,
            fees: fees->0,
            gross_pnl: gross->0,
            net_pnl: net->0,
        };
        Some((
            SimModel {
                equity: equity->0,
                position: Position::spec_flat(),
                realized_pnl: realized->0,
                unrealized_pnl: Dec::spec_zero(),
                closed_trades: m.closed_trades.push(trade),
                ..m
            },
            qty,
            exit_fee->0,
        ))
    } else {
        None
    }
}

/// Opening a `side` position of `qty` at `price`; also gives the fee.
pub open spec fn open_sim_spec(m: SimModel, side: OrderSide, qty: Dec, price: Dec, ts_ns: i64) -> Option<(SimModel, Dec)> {
    let fee = fee_spec(price, qty, m.fee_bps);
    if fee is Some {
        Some((
            SimModel {
                position: Position { side: Some(side), qty, entry_price: price, entry_ts: ts_ns },
                ..m
            },
            fee->0,
        ))
    } else {
        None
    }
}

/// Simulating an order of `side` and `qty` at `price`: ignored when the
/// held direction is the same; otherwise an open position is closed first
/// and a new one opened. Gives the new state and, per fill, its quantity
/// and fee.
pub open spec fn execute_sim_spec(m: SimModel, side: OrderSide, qty: Dec, price: Dec, ts_ns: i64) -> Option<(SimModel, Seq<(Dec, Dec)>)> {
    match m.position.side {
        Some(cur) => {
            if cur == side {
                Some((m, Seq::empty()))
            } else {
                match close_sim_spec(m, price, ts_ns) {
                    Some((m1, q1, fee1)) => match open_sim_spec(m1, side, qty, price, ts_ns) {
                        Some((m2, fee2)) => Some((m2, seq![(q1, fee1), (qty, fee2)])),
                        None => None,
                    },
                    None => None,
                }
            }
        },
        None => match open_sim_spec(m, side, qty, price, ts_ns) {
            Some((m1, fee)) => Some((m1, seq![(qty, fee)])),
            None => None,
        },
    }
}

/// Simulating an order: a reduce-only order only closes a position held
/// in the other direction (one fill) and is otherwise ignored; any other
/// order is simulated as `execute_sim_spec` says.
pub open spec fn order_sim_spec(m: SimModel, side: OrderSide, qty: Dec, reduce_only: bool, price: Dec, ts_ns: i64) -> Option<(SimModel, Seq<(Dec, Dec)>)> {
    if reduce_only {
        if m.position.side is Some && m.position.side != Some(side) {
            match close_sim_spec(m, price, ts_ns) {
                Some((m1, q, fee)) => Some((m1, seq![(q, fee)])),
                None => None,
            }
        } else {
            Some((m, Seq::empty()))
        }
    } else {
        execute_sim_spec(m, side, qty, price, ts_ns)
    }
}

/// Law: a reduce-only order against the held position closes it and
/// leaves the account flat; it never opens a position.
pub proof fn law_reduce_only_never_opens(m: SimModel, side: OrderSide, qty: Dec, price: Dec, ts_ns: i64)
    ensures
        order_sim_spec(m, side, qty, true, price, ts_ns) matches Some((m1, fills)) ==> (
            fills.len() <= 1
            && (m1.position.side is None || m1 == m)
            && (m.position.side is Some && m.position.side != Some(side) ==> m1.position.side is None && fills.len() == 1)),
{
}

/// Marking at `mark_price`: unrealized profit recomputed, equity becomes
/// initial + realized + unrealized.
pub open spec fn mark_sim_spec(m: SimModel, mark_price: Dec) -> Option<SimModel> {
    let unrealized = match m.position.side {
        Some(side) => side_gross_spec(side, m.position.entry_price, mark_price, m.position.qty),
        None => Some(Dec::spec_zero()),
    };
    let base = add_spec(m.initial_equity, m.realized_pnl);
    let equity = add_spec(base->0, unrealized->0);
    if unrealized is Some && base is Some && equity is Some {
        Some(SimModel { unrealized_pnl: unrealized->0, equity: equity->0, ..m })
    } else {
        None
    }
}

/// `f` is a fill of `order` for `qty` at `price` with `fee` at time `ts_ns`,
/// charged in the fee asset.
pub open spec fn is_sim_fill(f: Fill, order: Order, qty: Dec, price: Dec, fee: Dec, ts_ns: i64) -> bool {
    &&& f.order_id == order.id
    &&& f.symbol@ == order.symbol@
    &&& f.side == order.side
    &&& f.qty == qty
    &&& f.price == price
    &&& f.fee == fee
    &&& f.fee_asset@ == FEE_ASSET@
    &&& f.filled_at.total_nanos() == ts_ns as int
    &&& f.filled_at.nanos < 1_000_000_000
}

/// The fills `fills` match the per-fill quantities and fees `parts`.
pub open spec fn are_sim_fills(fills: Seq<Fill>, parts: Seq<(Dec, Dec)>, order: Order, price: Dec, ts_ns: i64) -> bool {
    &&& fills.len() == parts.len()
    &&& forall|i: int| 0 <= i < fills.len() ==> #[trigger] is_sim_fill(fills[i], order, parts[i].0, price, parts[i].1, ts_ns)
}

/// Sum of the net profits of `trades`, added left to right from zero.
pub open spec fn sum_net(trades: Seq<ClosedTrade>) -> Option<Dec>
    decreases trades.len(),
{
    if trades.len() == 0 {
        Some(Dec::spec_zero())
    } else {
        let s = sum_net(trades.drop_last());
        if s is Some {
            add_spec(s->0, trades.last().net_pnl)
        } else {
            None
        }
    }
}

/// The realized profit is the sum of the booked trades' net profits.
pub open spec fn pnl_ledger(m: SimModel) -> bool {
    sum_net(m.closed_trades) == Some(m.realized_pnl)
}

/// Law: simulating any order keeps the realized profit equal to the sum of
/// the booked trades' net profits, and only appends to the trade history.
pub proof fn law_execute_simulated_keeps_pnl_ledger(m: SimModel, side: OrderSide, qty: Dec, price: Dec, ts_ns: i64)
    requires
        pnl_ledger(m),
        execute_sim_spec(m, side, qty, price, ts_ns) is Some,
    ensures
        execute_sim_spec(m, side, qty, price, ts_ns) matches Some((m1, fills))
            && pnl_ledger(m1)
            && m1.closed_trades.subrange(0, m.closed_trades.len() as int) == m.closed_trades
            && m1.closed_trades.len() <= m.closed_trades.len() + 1,
{
    if m.position.side is Some && m.position.side != Some(side) {
        let (m1, q, f) = close_sim_spec(m, price, ts_ns)->0;
        assert(m1.closed_trades.drop_last() =~= m.closed_trades);
        assert(m1.closed_trades.subrange(0, m.closed_trades.len() as int) =~= m.closed_trades);
    }
    assert(m.closed_trades.subrange(0, m.closed_trades.len() as int) =~= m.closed_trades);
}

/// Law: an order in the direction already held is a no-op; an order
/// against it yields exactly a closing and an opening fill and reverses
/// the position at the order's quantity and price.
pub proof fn law_execute_simulated_direction(m: SimModel, side: OrderSide, qty: Dec, price: Dec, ts_ns: i64)
    ensures
        m.position.side == Some(side) ==> execute_sim_spec(m, side, qty, price, ts_ns) == Some((m, Seq::<(Dec, Dec)>::empty())),
        m.position.side is Some && m.position.side != Some(side) && execute_sim_spec(m, side, qty, price, ts_ns) is Some
            ==> (execute_sim_spec(m, side, qty, price, ts_ns) matches Some((m2, fills))
                && fills.len() == 2
                && fills[0].0 == m.position.qty
                && fills[1].0 == qty
                && m2.position == (Position { side: Some(side), qty, entry_price: price, entry_ts: ts_ns })
                && m2.closed_trades.len() == m.closed_trades.len() + 1
                && m2.closed_trades.last().exit_price == price
                && m2.closed_trades.last().entry_price == m.position.entry_price),
{
}

/// Law: marking changes only the unrealized profit and the equity, which
/// becomes initial + realized + unrealized.
pub proof fn law_mark_sim(m: SimModel, mark_price: Dec)
    requires
        mark_sim_spec(m, mark_price) is Some,
    ensures
        mark_sim_spec(m, mark_price) matches Some(m1)
            && m1.position == m.position
            && m1.closed_trades == m.closed_trades
            && m1.realized_pnl == m.realized_pnl
            && (add_spec(m.initial_equity, m.realized_pnl) matches Some(base)
                && add_spec(base, m1.unrealized_pnl) == Some(m1.equity)),
{
}

/// A flat simulated account holds the default position and no unrealized
/// profit.
pub open spec fn sim_flat_is_default(m: SimModel) -> bool {
    m.position.side is None ==> m.position == Position::spec_flat() && m.unrealized_pnl == Dec::spec_zero()
}

/// The equity is initial equity plus realized plus unrealized profit, each
/// sum as `Decimal` addition computes it, where a zero unrealized (or, before
/// any mark, a zero realized and unrealized) profit was not added.
pub open spec fn sim_equity_is_sum(m: SimModel) -> bool {
    ||| add_spec(m.initial_equity, m.realized_pnl) matches Some(base) && {
        ||| add_spec(base, m.unrealized_pnl) == Some(m.equity)
        ||| m.unrealized_pnl == Dec::spec_zero() && base == m.equity
    }
    ||| m.realized_pnl == Dec::spec_zero() && m.unrealized_pnl == Dec::spec_zero() && m.equity == m.initial_equity
}

/// Law: a fresh simulated account is flat with the default position, and
/// its equity is its initial equity.
pub proof fn law_new_sim_is_consistent(initial_equity: Dec, fee_bps: Dec)
    ensures
        sim_flat_is_default(Portfolio::new_spec(initial_equity, fee_bps)),
        sim_equity_is_sum(Portfolio::new_spec(initial_equity, fee_bps)),
{
}

/// Law: simulating any order, reduce-only or not, keeps a flat account at
/// the default position with no unrealized profit, and keeps the equity the
/// sum of initial equity, realized and unrealized profit.
pub proof fn law_order_sim_keeps_equity_sum(m: SimModel, side: OrderSide, qty: Dec, reduce_only: bool, price: Dec, ts_ns: i64)
    requires
        sim_flat_is_default(m),
        sim_equity_is_sum(m),
        order_sim_spec(m, side, qty, reduce_only, price, ts_ns) is Some,
    ensures
        order_sim_spec(m, side, qty, reduce_only, price, ts_ns) matches Some((m1, fills))
            && sim_flat_is_default(m1) && sim_equity_is_sum(m1),
{
}

/// Law: marking keeps a flat simulated account at the default position with
/// no unrealized profit, and makes the equity the sum of initial equity,
/// realized and unrealized profit.
pub proof fn law_mark_sim_keeps_equity_sum(m: SimModel, mark_price: Dec)
    requires
        sim_flat_is_default(m),
        mark_sim_spec(m, mark_price) is Some,
    ensures
        mark_sim_spec(m, mark_price) matches Some(m1) && sim_flat_is_default(m1) && sim_equity_is_sum(m1),
{
}

/// Law: simulating any order, reduce-only or not, keeps the realized profit
/// equal to the sum of the booked trades' net profits.
pub proof fn law_order_sim_keeps_pnl_ledger(m: SimModel, side: OrderSide, qty: Dec, reduce_only: bool, price: Dec, ts_ns: i64)
    requires
        pnl_ledger(m),
        order_sim_spec(m, side, qty, reduce_only, price, ts_ns) is Some,
    ensures
        order_sim_spec(m, side, qty, reduce_only, price, ts_ns) matches Some((m1, fills)) && pnl_ledger(m1),
{
    if !reduce_only {
        law_execute_simulated_keeps_pnl_ledger(m, side, qty, price, ts_ns);
    } else if m.position.side is Some && m.position.side != Some(side) {
        let (m1, q, f) = close_sim_spec(m, price, ts_ns)->0;
        assert(m1.closed_trades.drop_last() =~= m.closed_trades);
    }
}

/// One call on a simulated account: an order simulated at a price and
/// time, or a mark at a price.
pub enum SimOp {
    Order { side: OrderSide, qty: Dec, reduce_only: bool, price: Dec, ts_ns: i64 },
    Mark { price: Dec },
}

/// The simulated account after the calls `ops`, in order, from `m`; `None`
/// where one of them overflows.
pub open spec fn sim_replay(m: SimModel, ops: Seq<SimOp>) -> Option<SimModel>
    decreases ops.len(),
{
    if ops.len() == 0 {
        Some(m)
    } else {
        match sim_replay(m, ops.drop_last()) {
            None => None,
            Some(m1) => match ops.last() {
                SimOp::Order { side, qty, reduce_only, price, ts_ns } => match order_sim_spec(m1, side, qty, reduce_only, price, ts_ns) {
                    Some((m2, _fills)) => Some(m2),
                    None => None,
                },
                SimOp::Mark { price } => mark_sim_spec(m1, price),
            },
        }
    }
}

/// Law: every simulated account reached from a fresh one by any sequence of
/// orders and marks keeps its initial equity, has its realized profit equal
/// to the sum of the booked trades' net profits, holds the default position
/// with no unrealized profit when flat, and has its equity equal to initial
/// equity plus realized plus unrealized profit.
pub proof fn law_reachable_sim_account(initial_equity: Dec, fee_bps: Dec, ops: Seq<SimOp>)
    ensures
        sim_replay(Portfolio::new_spec(initial_equity, fee_bps), ops) matches Some(m) ==> {
            &&& m.initial_equity == initial_equity
            &&& pnl_ledger(m)
            &&& sim_flat_is_default(m)
            &&& sim_equity_is_sum(m)
        },
    decreases ops.len(),
{
    let m0 = Portfolio::new_spec(initial_equity, fee_bps);
    if ops.len() == 0 {
        assert(sum_net(m0.closed_trades) == Some(Dec::spec_zero()));
    } else {
        law_reachable_sim_account(initial_equity, fee_bps, ops.drop_last());
        if let Some(m1) = sim_replay(m0, ops.drop_last()) {
            match ops.last() {
                SimOp::Order { side, qty, reduce_only, price, ts_ns } => {
                    if order_sim_spec(m1, side, qty, reduce_only, price, ts_ns) is Some {
                        law_order_sim_keeps_pnl_ledger(m1, side, qty, reduce_only, price, ts_ns);
                        law_order_sim_keeps_equity_sum(m1, side, qty, reduce_only, price, ts_ns);
                    }
                },
                SimOp::Mark { price } => {
                    if mark_sim_spec(m1, price) is Some {
                        law_mark_sim_keeps_equity_sum(m1, price);
                    }
                },
            }
        }
    }
}

/// Law: closing the simulated position at `price` books one trade of the
/// position's side, quantity and entry, exiting at `price`. Its gross
/// profit is `(price - entry) * qty` for a buy position and
/// `(entry - price) * qty` for a sell one; its fees are the entry and
/// exit fees, each `price * qty * fee_bps / 10000`; its net profit is gross
/// minus fees. The realized profit grows by the net profit, the equity
/// becomes initial equity plus realized profit, and the account is flat.
pub proof fn law_sim_close_books_trade(m: SimModel, price: Dec, ts_ns: i64)
    requires
        close_sim_spec(m, price, ts_ns) is Some,
    ensures
        close_sim_spec(m, price, ts_ns) matches Some((m1, q, exit_fee)) && {
            let t = m1.closed_trades.last();
            let qty = m.position.qty;
            let entry = m.position.entry_price;
            &&& m.position.side is Some
            &&& m1.closed_trades == m.closed_trades.push(t)
            &&& t.side == m.position.side->0 && t.qty == qty
            &&& q == qty
            &&& t.entry_price == entry && t.exit_price == price
            &&& t.entry_ts_ns == m.position.entry_ts && t.exit_ts_ns == ts_ns
            &&& (m.position.side == Some(OrderSide::Buy) ==> (sub_spec(price, entry) matches Some(diff)
                && mul_spec(diff, qty) == Some(t.gross_pnl)))
            &&& (m.position.side == Some(OrderSide::Sell) ==> (sub_spec(entry, price) matches Some(diff)
                && mul_spec(diff, qty) == Some(t.gross_pnl)))
            &&& (mul_spec(price, qty) matches Some(pq) && mul_spec(pq, m.fee_bps) matches Some(x)
                && div_spec(x, Dec::spec_int(10000)) == Some(exit_fee))
            &&& (mul_spec(entry, qty) matches Some(pq) && mul_spec(pq, m.fee_bps) matches Some(x)
                && div_spec(x, Dec::spec_int(10000)) matches Some(entry_fee)
                && add_spec(entry_fee, exit_fee) == Some(t.fees))
            &&& sub_spec(t.gross_pnl, t.fees) == Some(t.net_pnl)
            &&& add_spec(m.realized_pnl, t.net_pnl) == Some(m1.realized_pnl)
            &&& add_spec(m.initial_equity, m1.realized_pnl) == Some(m1.equity)
            &&& m1.position.side is None
            &&& m1.unrealized_pnl == Dec::spec_zero()
            &&& m1.initial_equity == m.initial_equity && m1.fee_bps == m.fee_bps
        },
{
}

/// Law: a market order on a flat simulated account opens a position of the
/// order's side and quantity at `price` and time `ts_ns`, with one fill
/// whose fee is `price * qty * fee_bps / 10000`; equity, realized profit
/// and trade history are unchanged.
pub proof fn law_sim_open_from_flat(m: SimModel, side: OrderSide, qty: Dec, price: Dec, ts_ns: i64)
    requires
        m.position.side is None,
        order_sim_spec(m, side, qty, false, price, ts_ns) is Some,
    ensures
        order_sim_spec(m, side, qty, false, price, ts_ns) matches Some((m1, fills)) && {
            &&& m1.position == Position { side: Some(side), qty, entry_price: price, entry_ts: ts_ns }
            &&& fills.len() == 1 && fills[0].0 == qty
            &&& (mul_spec(price, qty) matches Some(pq) && mul_spec(pq, m.fee_bps) matches Some(x)
                && div_spec(x, Dec::spec_int(10000)) == Some(fills[0].1))
            &&& m1.equity == m.equity && m1.realized_pnl == m.realized_pnl
            &&& m1.closed_trades == m.closed_trades
        },
{
}

/// Law: marking the simulated account at `mark` sets the unrealized profit to
/// `(mark - entry) * qty` for a buy position, `(entry - mark) * qty` for a
/// sell one and zero when flat, and the equity to initial equity plus
/// realized plus unrealized profit; nothing else changes.
pub proof fn law_sim_mark_prices_position(m: SimModel, mark: Dec)
    requires
        mark_sim_spec(m, mark) is Some,
    ensures
        mark_sim_spec(m, mark) matches Some(m1) && {
            let qty = m.position.qty;
            let entry = m.position.entry_price;
            &&& (m.position.side == Some(OrderSide::Buy) ==> (sub_spec(mark, entry) matches Some(diff)
                && mul_spec(diff, qty) == Some(m1.unrealized_pnl)))
            &&& (m.position.side == Some(OrderSide::Sell) ==> (sub_spec(entry, mark) matches Some(diff)
                && mul_spec(diff, qty) == Some(m1.unrealized_pnl)))
            &&& (m.position.side is None ==> m1.unrealized_pnl == Dec::spec_zero())
            &&& (add_spec(m.initial_equity, m.realized_pnl) matches Some(base)
                && add_spec(base, m1.unrealized_pnl) == Some(m1.equity))
            &&& m1.position == m.position && m1.realized_pnl == m.realized_pnl
            &&& m1.closed_trades == m.closed_trades && m1.initial_equity == m.initial_equity
        },
{
}

impl Portfolio {
    /// The state of a fresh portfolio.
    pub open spec fn new_spec(initial_equity: Dec, fee_bps: Dec) -> SimModel {
        SimModel {
            initial_equity,
            equity: initial_equity,
            position: Position::spec_flat(),
            realized_pnl: Dec::spec_zero(),
            unrealized_pnl: Dec::spec_zero(),
            fee_bps,
            closed_trades: Seq::empty(),
        }
    }

    pub fn new(initial_equity: Dec, fee_bps: Dec) -> (p: Portfolio)
        ensures
            p@ == Portfolio::new_spec(initial_equity, fee_bps),
            pnl_ledger(p@),
    {
        let p = Portfolio {
            initial_equity,
            equity: initial_equity,
            position: Position::default(),
            realized_pnl: Dec::zero(),
            unrealized_pnl: Dec::zero(),
            fee_bps,
            closed_trades: Vec::new(),
        };
        assert(p.closed_trades@ =~= Seq::<ClosedTrade>::empty());
        p
    }

    fn fee_of(&self, price: Dec, qty: Dec) -> (r: Option<Dec>)
        ensures
            r == fee_spec(price, qty, self.fee_bps),
    {
        let pq = match checked_mul(price, qty) {
            Some(x) => x,
            None => return None,
        };
        let scaled = match checked_mul(pq, self.fee_bps) {
            Some(x) => x,
            None => return None,
        };
        checked_div(scaled, Dec::from_i64(10000))
    }

    fn gross_of(side: OrderSide, entry: Dec, exit: Dec, qty: Dec) -> (r: Option<Dec>)
        ensures
            r == side_gross_spec(side, entry, exit, qty),
    {
        let diff = match side {
            OrderSide::Buy => checked_sub(exit, entry),
            OrderSide::Sell => checked_sub(entry, exit),
        };
        match diff {
            Some(d) => checked_mul(d, qty),
            None => None,
        }
    }

    fn make_fill(order: &Order, qty: Dec, price: Dec, fee: Dec, ts_ns: i64) -> (f: Fill)
        ensures
            is_sim_fill(f, *order, qty, price, fee, ts_ns),
    {
        Fill {
            order_id: order.id,
            symbol: order.symbol.clone(),
            side: order.side,
            qty,
            price,
            fee,
            fee_asset: FEE_ASSET.to_string(),
            filled_at: UtcTime::from_nanos(ts_ns),
        }
    }

    fn close_at(&mut self, price: Dec, ts_ns: i64) -> (r: Option<(Dec, Dec)>)
        ensures
            match close_sim_spec(old(self)@, price, ts_ns) {
                Some((m, q, fee)) => final(self)@ == m && r == Some((q, fee)),
                None => final(self)@ == old(self)@ && r is None,
            },
    {
        let side = match self.position.side {
            Some(s) => s,
            None => return None,
        };
        let qty = self.position.qty;
        let entry_price = self.position.entry_price;
        let entry_ts = self.position.entry_ts;
        let entry_fee = match self.fee_of(entry_price, qty) {
            Some(x) => x,
            None => return None,
        };
        let exit_fee = match self.fee_of(price, qty) {
            Some(x) => x,
            None => return None,
        };
        let fees = match checked_add(entry_fee, exit_fee) {
            Some(x) => x,
            None => return None,
        };
        let gross = match Self::gross_of(side, entry_price, price, qty) {
            Some(x) => x,
            None => return None,
        };
        let net = match checked_sub(gross, fees) {
            Some(x) => x,
            None => return None,
        };
        let realized = match checked_add(self.realized_pnl, net) {
            Some(x) => x,
            None => return None,
        };
        let equity = match checked_add(self.initial_equity, realized) {
            Some(x) => x,
            None => return None,
        };
        self.realized_pnl = realized;
        self.closed_trades.push(ClosedTrade {
            entry_ts_ns: entry_ts,
            exit_ts_ns: ts_ns,
            side,
            qty,
            entry_price,
            exit_price: price,
            fees,
            gross_pnl: gross,
            net_pnl: net,
        });
        self.position = Position::default();
        self.unrealized_pnl = Dec::zero();
        self.equity = equity;
        Some((qty, exit_fee))
    }

    /// Simulates `order` at `price`; on an arithmetic overflow returns `None`
    /// and leaves the portfolio unchanged.
    pub fn try_execute_simulated(&mut self, order: &Order, price: Dec, ts_ns: i64) -> (r: Option<Vec<Fill>>)
        ensures
            match order_sim_spec(old(self)@, order.side, order.qty, order.reduce_only, price, ts_ns) {
                Some((m, parts)) => final(self)@ == m && (r matches Some(v) && are_sim_fills(v@, parts, *order, price, ts_ns)),
                None => final(self)@ == old(self)@ && r is None,
            },
    {
        let mut fills: Vec<Fill> = Vec::new();
        if order.reduce_only {
            let against = match self.position.side {
                Some(cur) => cur != order.side,
                None => false,
            };
            if against {
                match self.close_at(price, ts_ns) {
                    Some((q, exit_fee)) => {
                        let f = Self::make_fill(order, q, price, exit_fee, ts_ns);
                        fills.push(f);
                    },
                    None => return None,
                }
            }
            return Some(fills);
        }
        if let Some(cur) = self.position.side {
            if cur == order.side {
                return Some(fills);
            }
        }
        let fee = match self.fee_of(price, order.qty) {
            Some(x) => x,
            None => return None,
        };
        let ghost closing = self.position.side is Some;
        if self.position.side.is_some() {
            match self.close_at(price, ts_ns) {
                Some((q, exit_fee)) => {
                    let f = Self::make_fill(order, q, price, exit_fee, ts_ns);
                    fills.push(f);
                },
                None => return None,
            }
        }
        self.position = Position { side: Some(order.side), qty: order.qty, entry_price: price, entry_ts: ts_ns };
        let f = Self::make_fill(order, order.qty, price, fee, ts_ns);
        fills.push(f);
        Some(fills)
    }

    /// Simulates `order` at `price` and returns its fills.
    pub fn execute_simulated(&mut self, order: &Order, price: Dec, ts_ns: i64) -> (r: Vec<Fill>)
        requires
            order_sim_spec(old(self)@, order.side, order.qty, order.reduce_only, price, ts_ns) is Some,
        ensures
            order_sim_spec(old(self)@, order.side, order.qty, order.reduce_only, price, ts_ns) matches Some((m, parts))
                && final(self)@ == m && are_sim_fills(r@, parts, *order, price, ts_ns),
    {
        let r = self.try_execute_simulated(order, price, ts_ns);
        r.unwrap()
    }

    /// Marks at `mark_price`; on an arithmetic overflow returns `false` and
    /// leaves the portfolio unchanged.
    pub fn try_mark(&mut self, mark_price: Dec) -> (r: bool)
        ensures
            match mark_sim_spec(old(self)@, mark_price) {
                Some(m) => final(self)@ == m && r,
                None => final(self)@ == old(self)@ && !r,
            },
    {
        let unrealized = match self.position.side {
            Some(side) => match Self::gross_of(side, self.position.entry_price, mark_price, self.position.qty) {
                Some(x) => x,
                None => return false,
            },
            None => Dec::zero(),
        };
        let base = match checked_add(self.initial_equity, self.realized_pnl) {
            Some(x) => x,
            None => return false,
        };
        let equity = match checked_add(base, unrealized) {
            Some(x) => x,
            None => return false,
        };
        self.unrealized_pnl = unrealized;
        self.equity = equity;
        true
    }

    /// Marks the position at `mark_price`.
    pub fn mark(&mut self, mark_price: Dec)
        requires
            mark_sim_spec(old(self)@, mark_price) is Some,
        ensures
            final(self)@ == mark_sim_spec(old(self)@, mark_price)->0,
    {
        self.try_mark(mark_price);
    }
}

} // verus!
