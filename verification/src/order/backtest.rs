//! The backtest order executor: market orders queue up and fill against
//! the simulated portfolio on the next tick.

use vstd::prelude::*;
use std::collections::HashMap;
use std::collections::VecDeque;
use vstd::string::StringExecFns;
use vstd::std_specs::iter::IteratorSpec;
use crate::decimal::Dec;
use crate::text::text_eq;
use crate::domain::backtest::Position;
use crate::domain::clock::{utc_now, order_id_text, uuid_hyphenated, UtcTime};
use crate::domain::order::{Fill, Order, OrderError, OrderRequest, OrderSide, OrderStatus, OrderType, is_new_order};
use crate::application::backtest::portfolio::{ClosedTrade, Portfolio, SimModel, order_sim_spec, mark_sim_spec, is_sim_fill};

verus! {

broadcast use {vstd::std_specs::hash::group_hash_axioms, vstd::seq_lib::group_seq_properties};

/// Simulated exchange: orders by identifier, the queue of orders waiting
/// for the next tick, the portfolio they fill against and every fill so far.
pub struct BacktestOrderExecutor {
    pub portfolio: Portfolio,
    pub orders: HashMap<u128, Order>,
    pub pending: VecDeque<u128>,
    pub fills_log: Vec<Fill>,
}

/// The state a `PortfolioSnapshot` copies out of the executor.
#[derive(Clone)]
pub struct PortfolioSnapshot {
    pub equity: Dec,
    pub initial_equity: Dec,
    pub position: Position,
    pub closed_trades: Vec<ClosedTrade>,
}

/// The debug name of an order type.
pub open spec fn order_type_name(t: OrderType) -> Seq<char> {
    match t {
        OrderType::Market => "Market"@,
        OrderType::Limit => "Limit"@,
        OrderType::StopMarket => "StopMarket"@,
        OrderType::StopLimit => "StopLimit"@,
    }
}

/// The debug name of an order status.
pub open spec fn order_status_name(s: OrderStatus) -> Seq<char> {
    match s {
        OrderStatus::New => "New"@,
        OrderStatus::PartiallyFilled => "PartiallyFilled"@,
        OrderStatus::Filled => "Filled"@,
        OrderStatus::Cancelled => "Cancelled"@,
        OrderStatus::Rejected => "Rejected"@,
        OrderStatus::Expired => "Expired"@,
    }
}

/// Message of the refusal of a non-market order.
pub open spec fn market_only_message(t: OrderType) -> Seq<char> {
    "백테스트 v1 Market Only 입력: "@ + order_type_name(t)
}

/// Message of the refusal to cancel an order that is no longer new.
pub open spec fn not_cancellable_message(s: OrderStatus) -> Seq<char> {
    "취소할 수 없는 주문 상태 "@ + order_status_name(s)
}

fn order_type_text(t: OrderType) -> (r: &'static str)
    ensures
        r@ == order_type_name(t),
{
    match t {
        OrderType::Market => "Market",
        OrderType::Limit => "Limit",
        OrderType::StopMarket => "StopMarket",
        OrderType::StopLimit => "StopLimit",
    }
}

fn order_status_text(s: OrderStatus) -> (r: &'static str)
    ensures
        r@ == order_status_name(s),
{
    match s {
        OrderStatus::New => "New",
        OrderStatus::PartiallyFilled => "PartiallyFilled",
        OrderStatus::Filled => "Filled",
        OrderStatus::Cancelled => "Cancelled",
        OrderStatus::Rejected => "Rejected",
        OrderStatus::Expired => "Expired",
    }
}

/// The price an order of `side` fills at: the buy price or the sell price.
pub open spec fn fill_price(side: OrderSide, buy_price: Dec, sell_price: Dec) -> Dec {
    match side {
        OrderSide::Buy => buy_price,
        OrderSide::Sell => sell_price,
    }
}

/// Fill parts of one drained order: its identifier, quantity, fee and price.
pub open spec fn tag_parts(id: u128, price: Dec, parts: Seq<(Dec, Dec)>) -> Seq<(u128, Dec, Dec, Dec)> {
    Seq::new(parts.len(), |j: int| (id, parts[j].0, parts[j].1, price))
}

/// Draining the queued identifiers `ids` in order: each order that exists
/// is simulated at its side's price. Gives the portfolio afterwards and the
/// parts of every fill; `None` when some simulation overflows.
pub open spec fn drain_spec(p: SimModel, orders: Map<u128, Order>, ids: Seq<u128>, buy_price: Dec, sell_price: Dec, ts_ns: i64) -> Option<(SimModel, Seq<(u128, Dec, Dec, Dec)>)>
    decreases ids.len(),
{
    if ids.len() == 0 {
        Some((p, Seq::empty()))
    } else {
        let prev = drain_spec(p, orders, ids.drop_last(), buy_price, sell_price, ts_ns);
        let id = ids.last();
        if prev is None {
            None
        } else if !orders.contains_key(id) {
            prev
        } else {
            let o = orders[id];
            let price = fill_price(o.side, buy_price, sell_price);
            let (p1, parts1) = prev->0;
            match order_sim_spec(p1, o.side, o.qty, o.reduce_only, price, ts_ns) {
                Some((p2, parts)) => Some((p2, parts1 + tag_parts(id, price, parts))),
                None => None,
            }
        }
    }
}

/// `fills` are the fills described by `parts`, for orders as in `orders`.
pub open spec fn are_drain_fills(fills: Seq<Fill>, parts: Seq<(u128, Dec, Dec, Dec)>, orders: Map<u128, Order>, ts_ns: i64) -> bool {
    &&& fills.len() == parts.len()
    &&& forall|j: int| 0 <= j < fills.len() ==> #[trigger] is_sim_fill(fills[j], orders[parts[j].0], parts[j].1, parts[j].3, parts[j].2, ts_ns)
}

/// `o2` is `o1` marked filled in full at `price` (at some later time).
pub open spec fn filled_from(o1: Order, o2: Order, price: Dec) -> bool {
    o2 == Order { status: OrderStatus::Filled, filled_qty: o1.qty, avg_fill_price: Some(price), updated_at: o2.updated_at, ..o1 }
}

/// After draining the identifiers `ids`: every order they name is filled at
/// its side's price, every other order unchanged.
pub open spec fn orders_after_drain(orders: Map<u128, Order>, orders2: Map<u128, Order>, ids: Seq<u128>, buy_price: Dec, sell_price: Dec) -> bool {
    &&& orders2.dom() == orders.dom()
    &&& forall|k: u128| #[trigger] orders.contains_key(k) ==> if ids.contains(k) {
        filled_from(orders[k], orders2[k], fill_price(orders[k].side, buy_price, sell_price))
    } else {
        orders2[k] == orders[k]
    }
}

impl BacktestOrderExecutor {
    pub fn new(initial_equity: Dec, fee_bps: Dec) -> (r: BacktestOrderExecutor)
        ensures
            r.portfolio@ == Portfolio::new_spec(initial_equity, fee_bps),
            r.orders@ == Map::<u128, Order>::empty(),
            r.pending@ == Seq::<u128>::empty(),
            r.fills_log@ == Seq::<Fill>::empty(),
    {
        BacktestOrderExecutor {
            portfolio: Portfolio::new(initial_equity, fee_bps),
            orders: HashMap::new(),
            pending: VecDeque::new(),
            fills_log: Vec::new(),
        }
    }
}

/// `s` without the occurrences of `x`, in order.
pub open spec fn without(s: Seq<u128>, x: u128) -> Seq<u128>
    decreases s.len(),
{
    if s.len() == 0 {
        Seq::empty()
    } else if s.last() == x {
        without(s.drop_last(), x)
    } else {
        without(s.drop_last(), x).push(s.last())
    }
}

/// Law: cancelling leaves the queue as it was with every occurrence of the
/// order taken out, the others in their order.
pub proof fn law_cancel_keeps_queue_order(s: Seq<u128>, x: u128)
    ensures
        without(s, x) == s.filter(|y: u128| y != x),
    decreases s.len(),
{
    reveal_with_fuel(Seq::filter, 1);
    if s.len() > 0 {
        law_cancel_keeps_queue_order(s.drop_last(), x);
    }
}

/// Cancelling takes the order out of the queue and keeps every other
/// queued order.
pub proof fn law_cancel_leaves_queue(s: Seq<u128>, x: u128)
    ensures
        !without(s, x).contains(x),
        forall|y: u128| y != x ==> (#[trigger] without(s, x).contains(y) <==> s.contains(y)),
    decreases s.len(),
{
    if s.len() > 0 {
        law_cancel_leaves_queue(s.drop_last(), x);
        let prev = without(s.drop_last(), x);
        assert forall|y: u128| y != x implies (#[trigger] without(s, x).contains(y) <==> s.contains(y)) by {
            if s.contains(y) {
                let j = choose|j: int| 0 <= j < s.len() && s[j] == y;
                if j < s.len() - 1 {
                    assert(s.drop_last()[j] == y);
                    assert(s.drop_last().contains(y));
                    assert(prev.contains(y));
                    if s.last() != x {
                        assert(without(s, x) == prev.push(s.last()));
                        let k = choose|k: int| 0 <= k < prev.len() && prev[k] == y;
                        assert(without(s, x)[k] == y);
                    }
                } else {
                    assert(without(s, x) == prev.push(s.last()));
                    assert(without(s, x)[prev.len() as int] == y);
                }
            }
            if without(s, x).contains(y) {
                let k = choose|k: int| 0 <= k < without(s, x).len() && without(s, x)[k] == y;
                if s.last() == x {
                    assert(prev.contains(y));
                } else if k < prev.len() {
                    assert(prev[k] == y);
                    assert(prev.contains(y));
                } else {
                    assert(s[s.len() - 1] == y);
                }
                if prev.contains(y) {
                    let j = choose|j: int| 0 <= j < s.drop_last().len() && s.drop_last()[j] == y;
                    assert(s[j] == y);
                }
            }
        }
        if without(s, x).contains(x) {
            let k = choose|k: int| 0 <= k < without(s, x).len() && without(s, x)[k] == x;
            if s.last() != x {
                assert(without(s, x) == prev.push(s.last()));
                if k < prev.len() {
                    assert(prev[k] == x);
                }
            }
        }
    }
}

/// An order waiting in the queue is filled in full at the next drain, at
/// the price of its side.
pub proof fn law_queued_order_fills_at_next_drain(
    orders: Map<u128, Order>,
    orders2: Map<u128, Order>,
    ids: Seq<u128>,
    id: u128,
    buy_price: Dec,
    sell_price: Dec,
)
    requires
        orders_after_drain(orders, orders2, ids, buy_price, sell_price),
        ids.contains(id),
        orders.contains_key(id),
    ensures
        orders2[id].status == OrderStatus::Filled,
        orders2[id].filled_qty == orders[id].qty,
        orders2[id].avg_fill_price == Some(fill_price(orders[id].side, buy_price, sell_price)),
        orders2[id].id == orders[id].id,
{
}

/// Law: a buy fills at the buy price and a sell at the sell price.
pub proof fn law_fill_price_by_side(buy_price: Dec, sell_price: Dec)
    ensures
        fill_price(OrderSide::Buy, buy_price, sell_price) == buy_price,
        fill_price(OrderSide::Sell, buy_price, sell_price) == sell_price,
{
}

/// Law: draining a queue of one order simulates that order on the account,
/// a buy at the buy price and a sell at the sell price, with its side,
/// quantity and reduce-only flag; an identifier with no order changes
/// nothing.
pub proof fn law_drain_one(p: SimModel, orders: Map<u128, Order>, id: u128, buy_price: Dec, sell_price: Dec, ts_ns: i64)
    ensures
        !orders.contains_key(id) ==> drain_spec(p, orders, seq![id], buy_price, sell_price, ts_ns)
            == Some((p, Seq::<(u128, Dec, Dec, Dec)>::empty())),
        orders.contains_key(id) ==> {
            let o = orders[id];
            let price = if o.side == OrderSide::Buy { buy_price } else { sell_price };
            match order_sim_spec(p, o.side, o.qty, o.reduce_only, price, ts_ns) {
                Some((p2, parts)) => drain_spec(p, orders, seq![id], buy_price, sell_price, ts_ns) matches Some((p3, parts3))
                    && p3 == p2 && parts3.len() == parts.len(),
                None => drain_spec(p, orders, seq![id], buy_price, sell_price, ts_ns) is None,
            }
        },
{
    assert(seq![id].drop_last() =~= Seq::<u128>::empty());
    assert(seq![id].last() == id && seq![id].len() == 1);
    assert(drain_spec(p, orders, Seq::<u128>::empty(), buy_price, sell_price, ts_ns) == Some((p, Seq::<(u128, Dec, Dec, Dec)>::empty())));
    let o = orders[id];
    if orders.contains_key(id) {
        let price = fill_price(o.side, buy_price, sell_price);
        if let Some((p2, parts)) = order_sim_spec(p, o.side, o.qty, o.reduce_only, price, ts_ns) {
            assert(Seq::<(u128, Dec, Dec, Dec)>::empty() + tag_parts(id, price, parts) =~= tag_parts(id, price, parts));
        }
    }
}

/// Law: draining `a` and then `b` is draining `a + b`: the queue is worked
/// off in order, each order seeing the account the earlier ones left.
pub proof fn law_drain_in_order(p: SimModel, orders: Map<u128, Order>, a: Seq<u128>, b: Seq<u128>, buy_price: Dec, sell_price: Dec, ts_ns: i64)
    ensures
        drain_spec(p, orders, a + b, buy_price, sell_price, ts_ns) == (match drain_spec(p, orders, a, buy_price, sell_price, ts_ns) {
            None => None,
            Some((p1, parts1)) => match drain_spec(p1, orders, b, buy_price, sell_price, ts_ns) {
                None => None,
                Some((p2, parts2)) => Some((p2, parts1 + parts2)),
            },
        }),
    decreases b.len(),
{
    if b.len() == 0 {
        assert(a + b =~= a);
        if let Some((p1, parts1)) = drain_spec(p, orders, a, buy_price, sell_price, ts_ns) {
            assert(parts1 + Seq::<(u128, Dec, Dec, Dec)>::empty() =~= parts1);
        }
    } else {
        law_drain_in_order(p, orders, a, b.drop_last(), buy_price, sell_price, ts_ns);
        assert((a + b).drop_last() =~= a + b.drop_last());
        assert((a + b).last() == b.last());
        if let Some((p1, parts1)) = drain_spec(p, orders, a, buy_price, sell_price, ts_ns) {
            if let Some((q, partsq)) = drain_spec(p1, orders, b.drop_last(), buy_price, sell_price, ts_ns) {
                let id = b.last();
                if orders.contains_key(id) {
                    let o = orders[id];
                    let price = fill_price(o.side, buy_price, sell_price);
                    if let Some((p2, parts)) = order_sim_spec(q, o.side, o.qty, o.reduce_only, price, ts_ns) {
                        assert(parts1 + partsq + tag_parts(id, price, parts) =~= parts1 + (partsq + tag_parts(id, price, parts)));
                    }
                }
            }
        }
    }
}

/// Draining a prefix that fails fails for every longer prefix.
proof fn lemma_drain_none_extends(p: SimModel, orders: Map<u128, Order>, ids: Seq<u128>, k: int, buy_price: Dec, sell_price: Dec, ts_ns: i64)
    requires
        0 <= k <= ids.len(),
        drain_spec(p, orders, ids.take(k), buy_price, sell_price, ts_ns) is None,
    ensures
        drain_spec(p, orders, ids, buy_price, sell_price, ts_ns) is None,
    decreases ids.len() - k,
{
    if k < ids.len() {
        assert(ids.take(k + 1).drop_last() =~= ids.take(k));
        lemma_drain_none_extends(p, orders, ids, k + 1, buy_price, sell_price, ts_ns);
    } else {
        assert(ids.take(k) =~= ids);
    }
}

impl BacktestOrderExecutor {
    /// Queues a market order for the next tick; other order types are
    /// refused with code -1.
    pub fn submit(&mut self, request: OrderRequest) -> (r: Result<Order, OrderError>)
        ensures
            request.order_type != OrderType::Market ==> {
                &&& r matches Err(OrderError::ExchangeRejected { code, msg })
                &&& code == -1 && msg@ == market_only_message(request.order_type)
                &&& final(self).orders@ == old(self).orders@
                &&& final(self).pending@ == old(self).pending@
            },
            request.order_type == OrderType::Market ==> {
                &&& r matches Ok(o)
                &&& is_new_order(o, request, o.id, o.created_at)
                &&& final(self).orders@ == old(self).orders@.insert(o.id, o)
                &&& final(self).pending@ == old(self).pending@.push(o.id)
            },
            final(self).portfolio@ == old(self).portfolio@,
            final(self).fills_log@ == old(self).fills_log@,
    {
        if request.order_type != OrderType::Market {
            let mut msg = "백테스트 v1 Market Only 입력: ".to_string();
            msg.append(order_type_text(request.order_type));
            return Err(OrderError::ExchangeRejected { code: -1, msg });
        }
        let order = Order::new_from_request(request);
        self.orders.insert(order.id, order.duplicate());
        self.pending.push_back(order.id);
        Ok(order)
    }

    /// Cancels a queued order: unknown identifiers are not found, orders no
    /// longer new are refused with code -1; otherwise the order is marked
    /// cancelled and leaves the queue.
    pub fn cancel(&mut self, order_id: u128) -> (r: Result<Order, OrderError>)
        ensures
            !old(self).orders@.contains_key(order_id) ==> {
                &&& r matches Err(OrderError::NotFound(t))
                &&& t@ == uuid_hyphenated(order_id)
                &&& final(self).orders@ == old(self).orders@
                &&& final(self).pending@ == old(self).pending@
            },
            old(self).orders@.contains_key(order_id) && old(self).orders@[order_id].status != OrderStatus::New ==> {
                &&& r matches Err(OrderError::ExchangeRejected { code, msg })
                &&& code == -1 && msg@ == not_cancellable_message(old(self).orders@[order_id].status)
                &&& final(self).orders@ == old(self).orders@
                &&& final(self).pending@ == old(self).pending@
            },
            old(self).orders@.contains_key(order_id) && old(self).orders@[order_id].status == OrderStatus::New ==> {
                &&& r matches Ok(c)
                &&& c == (Order { status: OrderStatus::Cancelled, updated_at: c.updated_at, ..old(self).orders@[order_id] })
                &&& final(self).orders@ == old(self).orders@.insert(order_id, c)
                &&& final(self).pending@ == without(old(self).pending@, order_id)
            },
            final(self).portfolio@ == old(self).portfolio@,
            final(self).fills_log@ == old(self).fills_log@,
    {
        let o = match self.orders.get(&order_id) {
            Some(o) => o.duplicate(),
            None => return Err(OrderError::NotFound(order_id_text(order_id))),
        };
        if o.status != OrderStatus::New {
            let mut msg = "취소할 수 없는 주문 상태 ".to_string();
            msg.append(order_status_text(o.status));
            return Err(OrderError::ExchangeRejected { code: -1, msg });
        }
        let mut c = o;
        c.status = OrderStatus::Cancelled;
        c.updated_at = utc_now();
        self.orders.insert(order_id, c.duplicate());
        let mut kept: VecDeque<u128> = VecDeque::new();
        let n = self.pending.len();
        let mut i: usize = 0;
        while i < n
            invariant
                n == self.pending@.len(),
                i <= n,
                kept@ == without(self.pending@.take(i as int), order_id),
            decreases n - i,
        {
            let x = self.pending[i];
            proof {
                assert(self.pending@.take(i + 1).drop_last() =~= self.pending@.take(i as int));
            }
            if x != order_id {
                kept.push_back(x);
            }
            i = i + 1;
        }
        proof {
            assert(self.pending@.take(n as int) =~= self.pending@);
        }
        self.pending = kept;
        Ok(c)
    }

    /// The order with this identifier.
    pub fn query(&self, order_id: u128) -> (r: Result<Order, OrderError>)
        ensures
            self.orders@.contains_key(order_id) ==> r == Ok::<Order, OrderError>(self.orders@[order_id]),
            !self.orders@.contains_key(order_id) ==> (r matches Err(OrderError::NotFound(t)) && t@ == uuid_hyphenated(order_id)),
    {
        match self.orders.get(&order_id) {
            Some(o) => Ok(o.duplicate()),
            None => Err(OrderError::NotFound(order_id_text(order_id))),
        }
    }

    /// Marks the simulated position at `mark_price`; on an arithmetic
    /// overflow returns `false` and changes nothing.
    pub fn try_mark(&mut self, mark_price: Dec) -> (r: bool)
        ensures
            match mark_sim_spec(old(self).portfolio@, mark_price) {
                Some(m) => final(self).portfolio@ == m && r,
                None => final(self).portfolio@ == old(self).portfolio@ && !r,
            },
            final(self).orders@ == old(self).orders@,
            final(self).pending@ == old(self).pending@,
            final(self).fills_log@ == old(self).fills_log@,
    {
        self.portfolio.try_mark(mark_price)
    }

    /// Marks the simulated position at `mark_price`.
    pub fn mark(&mut self, mark_price: Dec)
        requires
            mark_sim_spec(old(self).portfolio@, mark_price) is Some,
        ensures
            final(self).portfolio@ == mark_sim_spec(old(self).portfolio@, mark_price)->0,
            final(self).orders@ == old(self).orders@,
            final(self).pending@ == old(self).pending@,
            final(self).fills_log@ == old(self).fills_log@,
    {
        self.portfolio.mark(mark_price);
    }

    /// The current equity.
    pub fn equity(&self) -> (r: Dec)
        ensures
            r == self.portfolio@.equity,
    {
        self.portfolio.equity
    }

    /// The current position.
    pub fn position(&self) -> (r: Position)
        ensures
            r == self.portfolio@.position,
    {
        self.portfolio.position
    }

    /// A copy of equity, position and trade history.
    pub fn snapshot(&self) -> (r: PortfolioSnapshot)
        ensures
            r.equity == self.portfolio@.equity,
            r.initial_equity == self.portfolio@.initial_equity,
            r.position == self.portfolio@.position,
            r.closed_trades@ == self.portfolio@.closed_trades,
    {
        let mut trades: Vec<ClosedTrade> = Vec::new();
        let n = self.portfolio.closed_trades.len();
        let mut i: usize = 0;
        while i < n
            invariant
                n == self.portfolio.closed_trades@.len(),
                i <= n,
                trades@ == self.portfolio.closed_trades@.take(i as int),
            decreases n - i,
        {
            trades.push(self.portfolio.closed_trades[i]);
            proof {
                assert(trades@ =~= self.portfolio.closed_trades@.take(i + 1));
            }
            i = i + 1;
        }
        proof {
            assert(self.portfolio.closed_trades@.take(n as int) =~= self.portfolio.closed_trades@);
        }
        PortfolioSnapshot {
            equity: self.portfolio.equity,
            initial_equity: self.portfolio.initial_equity,
            position: self.portfolio.position,
            closed_trades: trades,
        }
    }
}

impl BacktestOrderExecutor {
    /// Fills every queued order at the price of its side (buys at
    /// `buy_price`, sells at `sell_price`), in queue order, and empties the
    /// queue. If a simulation would overflow, returns `None`: the orders
    /// before it are filled as described, it and the rest stay queued.
    pub fn try_drain_pending(&mut self, buy_price: Dec, sell_price: Dec, ts_ns: i64) -> (r: Option<Vec<Fill>>)
        ensures
            r matches Some(fills) ==> {
                &&& drain_spec(old(self).portfolio@, old(self).orders@, old(self).pending@, buy_price, sell_price, ts_ns) matches Some((pm, parts))
                &&& final(self).portfolio@ == pm
                &&& are_drain_fills(fills@, parts, old(self).orders@, ts_ns)
                &&& final(self).fills_log@ == old(self).fills_log@ + fills@
                &&& orders_after_drain(old(self).orders@, final(self).orders@, old(self).pending@, buy_price, sell_price)
                &&& final(self).pending@ == Seq::<u128>::empty()
            },
            r is None ==> drain_spec(old(self).portfolio@, old(self).orders@, old(self).pending@, buy_price, sell_price, ts_ns) is None,
            r is None ==> {
                &&& exists|k: int| 0 <= k < old(self).pending@.len() && {
                    &&& #[trigger] drain_spec(old(self).portfolio@, old(self).orders@, old(self).pending@.take(k), buy_price, sell_price, ts_ns) matches Some((pm, parts))
                    &&& drain_spec(old(self).portfolio@, old(self).orders@, old(self).pending@.take(k + 1), buy_price, sell_price, ts_ns) is None
                    &&& final(self).portfolio@ == pm
                    &&& final(self).fills_log@.len() == old(self).fills_log@.len() + parts.len()
                    &&& final(self).fills_log@.take(old(self).fills_log@.len() as int) == old(self).fills_log@
                    &&& are_drain_fills(final(self).fills_log@.skip(old(self).fills_log@.len() as int), parts, old(self).orders@, ts_ns)
                    &&& orders_after_drain(old(self).orders@, final(self).orders@, old(self).pending@.take(k), buy_price, sell_price)
                    &&& final(self).pending@ == old(self).pending@.skip(k)
                }
            },
    {
        let ghost p0 = self.portfolio@;
        let ghost orders0 = self.orders@;
        let ghost log0 = self.fills_log@;
        let ghost pend0 = self.pending@;
        let mut ids: Vec<u128> = Vec::new();
        while self.pending.len() > 0
            invariant
                ids@ + self.pending@ == pend0,
                self.portfolio@ == p0,
                self.orders@ == orders0,
                self.fills_log@ == log0,
            decreases self.pending@.len(),
        {
            let id = self.pending.pop_front().unwrap();
            ids.push(id);
            proof {
                assert(ids@ + self.pending@ =~= pend0);
            }
        }
        assert(ids@ =~= pend0);
        let mut result: Vec<Fill> = Vec::new();
        let n = ids.len();
        let mut i: usize = 0;
        proof {
            assert(ids@.take(0) =~= Seq::<u128>::empty());
            assert(result@ =~= Seq::<Fill>::empty());
            assert(log0 + result@ =~= log0);
        }
        while i < n
            invariant
                n == ids@.len(),
                ids@ == pend0,
                i <= n,
                p0 == old(self).portfolio@,
                orders0 == old(self).orders@,
                pend0 == old(self).pending@,
                log0 == old(self).fills_log@,
                drain_spec(p0, orders0, ids@.take(i as int), buy_price, sell_price, ts_ns) matches Some((pm, parts))
                    && self.portfolio@ == pm && are_drain_fills(result@, parts, orders0, ts_ns),
                self.fills_log@ == log0 + result@,
                orders_after_drain(orders0, self.orders@, ids@.take(i as int), buy_price, sell_price),
                self.pending@ == Seq::<u128>::empty(),
            decreases n - i,
        {
            let id = ids[i];
            let ghost (_pm_prev, prev_parts) = drain_spec(p0, orders0, ids@.take(i as int), buy_price, sell_price, ts_ns)->0;
            proof {
                assert(ids@.take(i + 1).drop_last() =~= ids@.take(i as int));
                assert(ids@.take(i + 1).last() == id);
                assert(ids@.take(i + 1) =~= ids@.take(i as int).push(id));
            }
            let found = match self.orders.get(&id) {
                Some(o) => Some(o.duplicate()),
                None => None,
            };
            match found {
                None => {
                    proof {
                        assert forall|k: u128| #[trigger] orders0.contains_key(k) implies
                            (if ids@.take(i + 1).contains(k) {
                                filled_from(orders0[k], self.orders@[k], fill_price(orders0[k].side, buy_price, sell_price))
                            } else {
                                self.orders@[k] == orders0[k]
                            }) by {
                        }
                    }
                },
                Some(order) => {
                    proof {
                        assert(self.orders@.dom().contains(id));
                        assert(orders0.contains_key(id));
                        assert(order == self.orders@[id]);
                        assert(order.side == orders0[id].side && order.qty == orders0[id].qty
                            && order.id == orders0[id].id && order.symbol == orders0[id].symbol);
                    }
                    let price = match order.side {
                        OrderSide::Buy => buy_price,
                        OrderSide::Sell => sell_price,
                    };
                    let ghost pm_before = self.portfolio@;
                    match self.portfolio.try_execute_simulated(&order, price, ts_ns) {
                        None => {
                            let ghost port_now = self.portfolio@;
                            let ghost orders_now = self.orders@;
                            let ghost log_now = self.fills_log@;
                            let mut rest: VecDeque<u128> = VecDeque::new();
                            let mut j: usize = i;
                            while j < n
                                invariant
                                    n == ids@.len(),
                                    i <= j <= n,
                                    rest@ == ids@.subrange(i as int, j as int),
                                    self.portfolio@ == port_now,
                                    self.orders@ == orders_now,
                                    self.fills_log@ == log_now,
                                decreases n - j,
                            {
                                rest.push_back(ids[j]);
                                proof {
                                    assert(rest@ =~= ids@.subrange(i as int, j + 1));
                                }
                                j = j + 1;
                            }
                            self.pending = rest;
                            proof {
                                assert(pend0.take(i as int) == ids@.take(i as int));
                                assert(pend0.take(i + 1) == ids@.take(i + 1));
                                assert(drain_spec(p0, orders0, pend0.take(i + 1), buy_price, sell_price, ts_ns) is None);
                                assert(ids@.subrange(i as int, n as int) =~= pend0.skip(i as int));
                                assert(self.fills_log@.take(log0.len() as int) =~= log0);
                                assert(self.fills_log@.skip(log0.len() as int) =~= result@);
                                lemma_drain_none_extends(p0, orders0, pend0, i + 1, buy_price, sell_price, ts_ns);
                                let kk: int = i as int;
                                assert(drain_spec(p0, orders0, pend0.take(kk), buy_price, sell_price, ts_ns) matches Some((pm, parts)) && {
                                    &&& drain_spec(p0, orders0, pend0.take(kk + 1), buy_price, sell_price, ts_ns) is None
                                    &&& self.portfolio@ == pm
                                    &&& self.fills_log@.len() == log0.len() + parts.len()
                                    &&& self.fills_log@.take(log0.len() as int) == log0
                                    &&& are_drain_fills(self.fills_log@.skip(log0.len() as int), parts, orders0, ts_ns)
                                    &&& orders_after_drain(orders0, self.orders@, pend0.take(kk), buy_price, sell_price)
                                    &&& self.pending@ == pend0.skip(kk)
                                });
                            }
                            return None;
                        },
                        Some(fills) => {
                            let ghost (_pm_o, parts_o) = order_sim_spec(pm_before, order.side, order.qty, order.reduce_only, price, ts_ns)->0;
                            let ghost result_before = result@;
                            let ghost port_now = self.portfolio@;
                            let ghost orders_now = self.orders@;
                            let m = fills.len();
                            let mut t: usize = 0;
                            while t < m
                                invariant
                                    m == fills@.len(),
                                    t <= m,
                                    self.portfolio@ == port_now,
                                    self.orders@ == orders_now,
                                    self.pending@ == Seq::<u128>::empty(),
                                    result@ == result_before + fills@.take(t as int),
                                    self.fills_log@ == log0 + result@,
                                decreases m - t,
                            {
                                result.push(fills[t].duplicate());
                                self.fills_log.push(fills[t].duplicate());
                                proof {
                                    assert(result@ =~= result_before + fills@.take(t + 1));
                                    assert(self.fills_log@ =~= log0 + result@);
                                }
                                t = t + 1;
                            }
                            proof {
                                assert(fills@.take(m as int) =~= fills@);
                            }
                            let mut o2 = order;
                            o2.status = OrderStatus::Filled;
                            o2.filled_qty = o2.qty;
                            o2.avg_fill_price = Some(price);
                            o2.updated_at = utc_now();
                            self.orders.insert(id, o2);
                            proof {
                                assert(self.orders@.dom() =~= orders0.dom());
                                let parts_new = prev_parts + tag_parts(id, price, parts_o);
                                assert forall|j: int| 0 <= j < result@.len() implies
                                    #[trigger] is_sim_fill(result@[j], orders0[parts_new[j].0], parts_new[j].1, parts_new[j].3, parts_new[j].2, ts_ns) by {
                                    if j >= result_before.len() {
                                        let jj = j - result_before.len();
                                        assert(fills@[jj] == result@[j]);
                                        assert(is_sim_fill(fills@[jj], order, parts_o[jj].0, price, parts_o[jj].1, ts_ns));
                                    } else {
                                        assert(result@[j] == result_before[j]);
                                    }
                                }
                                assert forall|k: u128| #[trigger] orders0.contains_key(k) implies
                                    (if ids@.take(i + 1).contains(k) {
                                        filled_from(orders0[k], self.orders@[k], fill_price(orders0[k].side, buy_price, sell_price))
                                    } else {
                                        self.orders@[k] == orders0[k]
                                    }) by {
                                    if k != id {
                                    }
                                }
                            }
                        },
                    }
                },
            }
            i = i + 1;
        }
        proof {
            assert(ids@.take(n as int) =~= ids@);
        }
        Some(result)
    }

    /// Fills every queued order at the price of its side (buys at
    /// `buy_price`, sells at `sell_price`), in queue order, empties the
    /// queue and returns the fills.
    pub fn drain_pending(&mut self, buy_price: Dec, sell_price: Dec, ts_ns: i64) -> (r: Vec<Fill>)
        requires
            drain_spec(old(self).portfolio@, old(self).orders@, old(self).pending@, buy_price, sell_price, ts_ns) is Some,
        ensures
            drain_spec(old(self).portfolio@, old(self).orders@, old(self).pending@, buy_price, sell_price, ts_ns) matches Some((pm, parts))
                && final(self).portfolio@ == pm
                && are_drain_fills(r@, parts, old(self).orders@, ts_ns)
                && final(self).fills_log@ == old(self).fills_log@ + r@
                && orders_after_drain(old(self).orders@, final(self).orders@, old(self).pending@, buy_price, sell_price)
                && final(self).pending@ == Seq::<u128>::empty(),
    {
        let r = self.try_drain_pending(buy_price, sell_price, ts_ns);
        r.unwrap()
    }
}

/// `o` is an order of `symbol` still new.
pub open spec fn is_open_for(o: Order, symbol: Seq<char>) -> bool {
    o.symbol@ == symbol && o.status == OrderStatus::New
}

/// The open orders of `symbol` among those keyed by `keys`, in key order.
pub open spec fn open_among(m: Map<u128, Order>, keys: Seq<u128>, symbol: Seq<char>) -> Seq<Order>
    decreases keys.len(),
{
    if keys.len() == 0 {
        Seq::empty()
    } else {
        let prev = open_among(m, keys.drop_last(), symbol);
        let o = m[keys.last()];
        if is_open_for(o, symbol) {
            prev.push(o)
        } else {
            prev
        }
    }
}

/// Law: the open orders among `keys` are, in key order, the orders of
/// `symbol` whose status is new.
pub proof fn law_open_orders_in_key_order(m: Map<u128, Order>, keys: Seq<u128>, symbol: Seq<char>)
    ensures
        open_among(m, keys, symbol) == keys.map_values(|k: u128| m[k]).filter(|o: Order| o.symbol@ == symbol && o.status == OrderStatus::New),
    decreases keys.len(),
{
    reveal_with_fuel(Seq::filter, 1);
    if keys.len() > 0 {
        law_open_orders_in_key_order(m, keys.drop_last(), symbol);
        assert(keys.map_values(|k: u128| m[k]).drop_last() =~= keys.drop_last().map_values(|k: u128| m[k]));
    }
}

proof fn lemma_open_among(m: Map<u128, Order>, keys: Seq<u128>, symbol: Seq<char>, o: Order)
    ensures
        open_among(m, keys, symbol).contains(o) <==>
            (is_open_for(o, symbol) && exists|j: int| 0 <= j < keys.len() && o == m[#[trigger] keys[j]]),
    decreases keys.len(),
{
    if keys.len() > 0 {
        let prefix = keys.drop_last();
        let last = keys.len() - 1;
        lemma_open_among(m, prefix, symbol, o);
        if open_among(m, keys, symbol).contains(o) {
            if open_among(m, prefix, symbol).contains(o) {
                let j = choose|j: int| 0 <= j < prefix.len() && o == m[#[trigger] prefix[j]];
                assert(prefix[j] == keys[j]);
            } else {
                assert(o == m[keys[last]]);
            }
        }
        if is_open_for(o, symbol) && exists|j: int| 0 <= j < keys.len() && o == m[#[trigger] keys[j]] {
            let j = choose|j: int| 0 <= j < keys.len() && o == m[#[trigger] keys[j]];
            if j < last {
                assert(prefix[j] == keys[j]);
                assert(open_among(m, prefix, symbol).contains(o));
            } else {
                assert(open_among(m, keys, symbol) == open_among(m, prefix, symbol).push(o));
                assert(open_among(m, keys, symbol)[open_among(m, prefix, symbol).len() as int] == o);
            }
        }
    }
}

impl BacktestOrderExecutor {
    /// The orders of `symbol` that are still new.
    pub fn open_orders(&self, symbol: &str) -> (r: Result<Vec<Order>, OrderError>)
        ensures
            r matches Ok(v) && forall|o: Order| #[trigger] v@.contains(o) <==>
                (self.orders@.values().contains(o) && is_open_for(o, symbol@)),
            r matches Ok(v) && exists|keys: Seq<u128>| {
                &&& keys.no_duplicates()
                &&& keys.to_set() == self.orders@.dom()
                &&& v@ == #[trigger] open_among(self.orders@, keys, symbol@)
            },
    {
        let mut out: Vec<Order> = Vec::new();
        let ghost m = self.orders@;
        let ghost keys = vstd::std_specs::hash::spec_keys_iter(&self.orders).remaining().unref();
        let ghost mut seen: int = 0;
        for k in it: self.orders.keys()
            invariant
                m == self.orders@,
                seen == it.index(),
                it.seq().unref() == keys,
                keys.to_set() == m.dom(),
                out@ == open_among(m, it.seq().unref().take(it.index()), symbol@),
        {
            proof {
                assert(it.seq().unref().take(it.index() + 1).drop_last() =~= it.seq().unref().take(it.index()));
                assert(it.seq().unref()[it.index()] == *k);
                assert(it.seq().unref().to_set().contains(*k));
            }
            let o = self.orders.get(k).unwrap();
            if text_eq(o.symbol.as_str(), symbol) && o.status == OrderStatus::New {
                out.push(o.duplicate());
            }
            proof {
                seen = seen + 1;
            }
        }
        proof {
            assert(keys.take(keys.len() as int) =~= keys);
            assert(keys.no_duplicates());
            assert(out@ == open_among(m, keys, symbol@));
            assert forall|o: Order| #[trigger] out@.contains(o) <==> (m.values().contains(o) && is_open_for(o, symbol@)) by {
                lemma_open_among(m, keys, symbol@, o);
                if m.values().contains(o) {
                    let kk = choose|kk: u128| m.contains_key(kk) && m[kk] == o;
                    assert(keys.to_set().contains(kk));
                    let j = choose|j: int| 0 <= j < keys.len() && keys[j] == kk;
                    assert(o == m[keys[j]]);
                }
                if out@.contains(o) {
                    let j = choose|j: int| 0 <= j < keys.len() && o == m[#[trigger] keys[j]];
                    assert(keys.to_set().contains(keys[j]));
                    assert(m.contains_key(keys[j]));
                }
            }
        }
        Ok(out)
    }
}

} // verus!
