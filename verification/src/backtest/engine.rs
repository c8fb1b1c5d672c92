//! The backtest replay: bars and depth snapshots merged in time order,
//! queued orders filled at the next event, the account marked at every
//! event, and the open position closed at the end.

use vstd::prelude::*;
use crate::decimal::{Dec, add_spec, div_spec, checked_add, checked_div};
use crate::backtest::types::{Bar, DepthSnapshot, Event};
use crate::application::backtest::strategy::{Context, ContextView, Strategy, StrategyStep};
use crate::domain::order::{Order, OrderRequest, OrderSide, OrderStatus, OrderType, is_new_order};
use crate::domain::backtest::Position;
use crate::application::backtest::portfolio::{Portfolio, SimModel, mark_sim_spec, close_sim_spec};
use crate::order::backtest::{drain_spec, orders_after_drain};
use crate::order::backtest::{BacktestOrderExecutor, PortfolioSnapshot};

verus! {

/// Parameters of one backtest run.
pub struct BacktestConfig {
    pub symbol: String,
    pub from_ns: i64,
    pub to_ns: i64,
    pub bar_interval: String,
    pub depth_every: String,
    pub initial_equity: Dec,
    pub fee_bps: Dec,
    pub depth_freshness_sec: i64,
}

/// The account at one event.
#[derive(Clone, Copy, Debug)]
pub struct EquityPoint {
    pub ts_ns: i64,
    pub equity: Dec,
    pub position_qty: Dec,
    pub mark_price: Dec,
}

/// Final account and equity curve of a run.
pub struct BacktestResult {
    pub portfolio: PortfolioSnapshot,
    pub equity_curve: Vec<EquityPoint>,
}

/// Bars and depth snapshots interleaved by timestamp; on equal timestamps
/// the bar comes first, and each input keeps its own order.
pub open spec fn merge_spec(bars: Seq<Bar>, depths: Seq<DepthSnapshot>) -> Seq<Event>
    decreases bars.len() + depths.len(),
{
    if bars.len() > 0 && (depths.len() == 0 || bars[0].ts_ns <= depths[0].ts_ns) {
        seq![Event::Bar(bars[0])] + merge_spec(bars.drop_first(), depths)
    } else if depths.len() > 0 {
        seq![Event::Depth(depths[0])] + merge_spec(bars, depths.drop_first())
    } else {
        Seq::empty()
    }
}

/// Every bar and snapshot is at `lo` or later.
pub open spec fn all_from(bars: Seq<Bar>, depths: Seq<DepthSnapshot>, lo: int) -> bool {
    &&& forall|i: int| 0 <= i < bars.len() ==> lo <= #[trigger] bars[i].ts_ns
    &&& forall|i: int| 0 <= i < depths.len() ==> lo <= #[trigger] depths[i].ts_ns
}

/// Bars in non-decreasing time order.
pub open spec fn bars_sorted(bars: Seq<Bar>) -> bool {
    forall|i: int, j: int| 0 <= i <= j < bars.len() ==> bars[i].ts_ns <= bars[j].ts_ns
}

/// Snapshots in non-decreasing time order.
pub open spec fn depths_sorted(depths: Seq<DepthSnapshot>) -> bool {
    forall|i: int, j: int| 0 <= i <= j < depths.len() ==> depths[i].ts_ns <= depths[j].ts_ns
}

/// Events in non-decreasing time order.
pub open spec fn events_sorted(events: Seq<Event>) -> bool {
    forall|i: int, j: int| 0 <= i <= j < events.len() ==> events[i].spec_ts_ns() <= events[j].spec_ts_ns()
}

/// Law: merging loses and invents nothing: it has one event per bar and per
/// snapshot.
pub proof fn law_merge_len(bars: Seq<Bar>, depths: Seq<DepthSnapshot>)
    ensures
        merge_spec(bars, depths).len() == bars.len() + depths.len(),
    decreases bars.len() + depths.len(),
{
    if bars.len() > 0 && (depths.len() == 0 || bars[0].ts_ns <= depths[0].ts_ns) {
        law_merge_len(bars.drop_first(), depths);
    } else if depths.len() > 0 {
        law_merge_len(bars, depths.drop_first());
    }
}

proof fn lemma_merge_from(bars: Seq<Bar>, depths: Seq<DepthSnapshot>, lo: int)
    requires
        all_from(bars, depths, lo),
    ensures
        forall|k: int| 0 <= k < merge_spec(bars, depths).len() ==> lo <= #[trigger] merge_spec(bars, depths)[k].spec_ts_ns(),
    decreases bars.len() + depths.len(),
{
    let m = merge_spec(bars, depths);
    if bars.len() > 0 && (depths.len() == 0 || bars[0].ts_ns <= depths[0].ts_ns) {
        let rest = bars.drop_first();
        assert(all_from(rest, depths, lo)) by {
            assert forall|i: int| 0 <= i < rest.len() implies lo <= #[trigger] rest[i].ts_ns by {
                assert(rest[i] == bars[i + 1]);
            }
        }
        lemma_merge_from(rest, depths, lo);
        assert forall|k: int| 0 <= k < m.len() implies lo <= #[trigger] m[k].spec_ts_ns() by {
            if k > 0 {
                assert(m[k] == merge_spec(rest, depths)[k - 1]);
            }
        }
    } else if depths.len() > 0 {
        let rest = depths.drop_first();
        assert(all_from(bars, rest, lo)) by {
            assert forall|i: int| 0 <= i < rest.len() implies lo <= #[trigger] rest[i].ts_ns by {
                assert(rest[i] == depths[i + 1]);
            }
        }
        lemma_merge_from(bars, rest, lo);
        assert forall|k: int| 0 <= k < m.len() implies lo <= #[trigger] m[k].spec_ts_ns() by {
            if k > 0 {
                assert(m[k] == merge_spec(bars, rest)[k - 1]);
            }
        }
    }
}

/// Law: merging time-ordered bars and time-ordered snapshots replays the
/// events in time order.
pub proof fn law_merge_sorted(bars: Seq<Bar>, depths: Seq<DepthSnapshot>)
    requires
        bars_sorted(bars),
        depths_sorted(depths),
    ensures
        events_sorted(merge_spec(bars, depths)),
    decreases bars.len() + depths.len(),
{
    let m = merge_spec(bars, depths);
    if bars.len() > 0 && (depths.len() == 0 || bars[0].ts_ns <= depths[0].ts_ns) {
        let rest = bars.drop_first();
        let h = bars[0].ts_ns as int;
        assert(bars_sorted(rest)) by {
            assert forall|i: int, j: int| 0 <= i <= j < rest.len() implies rest[i].ts_ns <= rest[j].ts_ns by {
                assert(rest[i] == bars[i + 1] && rest[j] == bars[j + 1]);
            }
        }
        law_merge_sorted(rest, depths);
        assert(all_from(rest, depths, h)) by {
            assert forall|i: int| 0 <= i < rest.len() implies h <= #[trigger] rest[i].ts_ns by {
                assert(rest[i] == bars[i + 1]);
            }
            assert forall|i: int| 0 <= i < depths.len() implies h <= #[trigger] depths[i].ts_ns by {
                assert(depths[0].ts_ns <= depths[i].ts_ns);
            }
        }
        lemma_merge_from(rest, depths, h);
        let r = merge_spec(rest, depths);
        assert forall|i: int, j: int| 0 <= i <= j < m.len() implies m[i].spec_ts_ns() <= m[j].spec_ts_ns() by {
            if i == 0 {
                if j > 0 {
                    assert(m[j] == r[j - 1]);
                }
            } else {
                assert(m[i] == r[i - 1] && m[j] == r[j - 1]);
            }
        }
    } else if depths.len() > 0 {
        let rest = depths.drop_first();
        let h = depths[0].ts_ns as int;
        assert(depths_sorted(rest)) by {
            assert forall|i: int, j: int| 0 <= i <= j < rest.len() implies rest[i].ts_ns <= rest[j].ts_ns by {
                assert(rest[i] == depths[i + 1] && rest[j] == depths[j + 1]);
            }
        }
        law_merge_sorted(bars, rest);
        assert(all_from(bars, rest, h)) by {
            assert forall|i: int| 0 <= i < rest.len() implies h <= #[trigger] rest[i].ts_ns by {
                assert(rest[i] == depths[i + 1]);
            }
            assert forall|i: int| 0 <= i < bars.len() implies h <= #[trigger] bars[i].ts_ns by {
                assert(bars[0].ts_ns <= bars[i].ts_ns);
            }
        }
        lemma_merge_from(bars, rest, h);
        let r = merge_spec(bars, rest);
        assert forall|i: int, j: int| 0 <= i <= j < m.len() implies m[i].spec_ts_ns() <= m[j].spec_ts_ns() by {
            if i == 0 {
                if j > 0 {
                    assert(m[j] == r[j - 1]);
                }
            } else {
                assert(m[i] == r[i - 1] && m[j] == r[j - 1]);
            }
        }
    }
}

/// Interleaves bars and depth snapshots by timestamp, bars first on ties.
pub fn merge_events(bars: Vec<Bar>, depths: Vec<DepthSnapshot>) -> (out: Vec<Event>)
    ensures
        out@ == merge_spec(bars@, depths@),
{
    let mut out: Vec<Event> = Vec::new();
    let nb = bars.len();
    let nd = depths.len();
    let mut i: usize = 0;
    let mut j: usize = 0;
    proof {
        assert(bars@.skip(0) =~= bars@);
        assert(depths@.skip(0) =~= depths@);
        assert(out@ + merge_spec(bars@, depths@) =~= merge_spec(bars@, depths@));
    }
    while i < nb || j < nd
        invariant
            nb == bars@.len(),
            nd == depths@.len(),
            i <= nb,
            j <= nd,
            out@ + merge_spec(bars@.skip(i as int), depths@.skip(j as int)) == merge_spec(bars@, depths@),
        decreases nb + nd - i - j,
    {
        let ghost bs = bars@.skip(i as int);
        let ghost ds = depths@.skip(j as int);
        let ghost rest = merge_spec(bs, ds);
        if i < nb && (j >= nd || bars[i].ts_ns <= depths[j].ts_ns) {
            proof {
                assert(bs.drop_first() =~= bars@.skip(i + 1));
                assert(bs[0] == bars@[i as int]);
                if j < nd {
                    assert(ds[0] == depths@[j as int]);
                }
            }
            out.push(Event::Bar(bars[i].duplicate()));
            proof {
                assert(out@ + merge_spec(bars@.skip(i + 1), ds) =~= merge_spec(bars@, depths@));
            }
            i = i + 1;
        } else {
            proof {
                assert(ds.drop_first() =~= depths@.skip(j + 1));
                assert(ds[0] == depths@[j as int]);
                if i < nb {
                    assert(bs[0] == bars@[i as int]);
                }
            }
            out.push(Event::Depth(depths[j].duplicate()));
            proof {
                assert(out@ + merge_spec(bs, depths@.skip(j + 1)) =~= merge_spec(bars@, depths@));
            }
            j = j + 1;
        }
    }
    proof {
        assert(bars@.skip(nb as int) =~= Seq::<Bar>::empty());
        assert(depths@.skip(nd as int) =~= Seq::<DepthSnapshot>::empty());
        assert(out@ + Seq::<Event>::empty() =~= out@);
    }
    out
}

/// The best price on the book an order of `side` trades against: asks for
/// buys, bids for sells.
pub open spec fn book_price(d: DepthSnapshot, side: OrderSide) -> Dec {
    match side {
        OrderSide::Buy => d.ask1_price,
        OrderSide::Sell => d.bid1_price,
    }
}

/// The fill price for `side` at event `ev`: the book of the last snapshot
/// when it is at most `fresh_ns` old, else the bar's open or the event's
/// own book.
pub open spec fn pick_price_spec(ev: Event, last_depth: Option<DepthSnapshot>, now_ns: i64, fresh_ns: i64, side: OrderSide) -> Dec {
    if last_depth is Some && now_ns - last_depth->0.ts_ns <= fresh_ns {
        book_price(last_depth->0, side)
    } else {
        match ev {
            Event::Bar(b) => b.open,
            Event::Depth(d) => book_price(d, side),
        }
    }
}

/// Law: an order waiting for event `ev` fills, with a snapshot at most
/// `fresh_ns` old, at that snapshot's best ask (buy) or best bid (sell);
/// otherwise at the open of the bar `ev`, for either side, or at the best
/// ask or bid of the snapshot `ev`.
pub proof fn law_fill_price(ev: Event, last_depth: Option<DepthSnapshot>, now_ns: i64, fresh_ns: i64, side: OrderSide)
    ensures
        last_depth matches Some(d) ==> (now_ns - d.ts_ns <= fresh_ns ==> pick_price_spec(ev, last_depth, now_ns, fresh_ns, side)
            == (if side == OrderSide::Buy { d.ask1_price } else { d.bid1_price })),
        (last_depth is None || now_ns - last_depth->0.ts_ns > fresh_ns) ==> (ev matches Event::Bar(b)
            ==> pick_price_spec(ev, last_depth, now_ns, fresh_ns, side) == b.open),
        (last_depth is None || now_ns - last_depth->0.ts_ns > fresh_ns) ==> (ev matches Event::Depth(d)
            ==> pick_price_spec(ev, last_depth, now_ns, fresh_ns, side)
                == (if side == OrderSide::Buy { d.ask1_price } else { d.bid1_price })),
{
}

/// The mark price of an event: a bar's close, or the mid of a snapshot's
/// best bid and ask; `None` when the mid overflows.
pub open spec fn mark_price_spec(ev: Event) -> Option<Dec> {
    match ev {
        Event::Bar(b) => Some(b.close),
        Event::Depth(d) => {
            let sum = add_spec(d.bid1_price, d.ask1_price);
            if sum is Some {
                div_spec(sum->0, Dec::spec_int(2))
            } else {
                None
            }
        },
    }
}

fn pick_price(ev: &Event, last_depth: &Option<DepthSnapshot>, now_ns: i64, fresh_ns: i64, side: OrderSide) -> (r: Dec)
    ensures
        r == pick_price_spec(*ev, *last_depth, now_ns, fresh_ns, side),
{
    if let Some(d) = last_depth {
        if (now_ns as i128) - (d.ts_ns as i128) <= fresh_ns as i128 {
            return match side {
                OrderSide::Buy => d.ask1_price,
                OrderSide::Sell => d.bid1_price,
            };
        }
    }
    match ev {
        Event::Bar(b) => b.open,
        Event::Depth(d) => match side {
            OrderSide::Buy => d.ask1_price,
            OrderSide::Sell => d.bid1_price,
        },
    }
}

fn event_mark_price(ev: &Event) -> (r: Option<Dec>)
    ensures
        r == mark_price_spec(*ev),
{
    match ev {
        Event::Bar(b) => Some(b.close),
        Event::Depth(d) => match checked_add(d.bid1_price, d.ask1_price) {
            Some(sum) => checked_div(sum, Dec::from_i64(2)),
            None => None,
        },
    }
}

/// `secs` seconds in nanoseconds, clamped to the range of `i64` as
/// `i64::saturating_mul` does.
pub open spec fn fresh_ns_spec(secs: i64) -> i64 {
    let ns = secs * 1_000_000_000;
    if ns > i64::MAX {
        i64::MAX
    } else if ns < i64::MIN {
        i64::MIN
    } else {
        ns as i64
    }
}

/// Law: the freshness window is the configured seconds in nanoseconds,
/// saturated at the bounds of `i64`; it grows with the seconds.
pub proof fn law_freshness_window(secs: i64, secs2: i64)
    ensures
        i64::MIN <= secs * 1_000_000_000 <= i64::MAX ==> fresh_ns_spec(secs) as int == secs * 1_000_000_000,
        secs * 1_000_000_000 > i64::MAX ==> fresh_ns_spec(secs) == i64::MAX,
        secs * 1_000_000_000 < i64::MIN ==> fresh_ns_spec(secs) == i64::MIN,
        secs <= secs2 ==> fresh_ns_spec(secs) <= fresh_ns_spec(secs2),
{
    if secs <= secs2 {
        assert(secs * 1_000_000_000 <= secs2 * 1_000_000_000) by (nonlinear_arith)
            requires secs <= secs2;
    }
}

fn saturating_secs_to_ns(secs: i64) -> (r: i64)
    ensures
        r == fresh_ns_spec(secs),
{
    match secs.checked_mul(1_000_000_000) {
        Some(v) => v,
        None => if secs > 0 {
            i64::MAX
        } else {
            i64::MIN
        },
    }
}

/// A fresh, empty context for the strategy.
fn context_for(now_ns: i64, executor: &BacktestOrderExecutor) -> (ctx: Context)
    ensures
        ctx.now_ns == now_ns,
        ctx.equity == executor.portfolio@.equity,
        ctx.position == executor.portfolio@.position,
        ctx.requests@ == Seq::<OrderRequest>::empty(),
{
    Context { now_ns, equity: executor.equity(), position: executor.position(), requests: Vec::new() }
}

/// The market requests among `reqs`, in order: the ones the simulated
/// executor accepts.
pub open spec fn market_requests(reqs: Seq<OrderRequest>) -> Seq<OrderRequest>
    decreases reqs.len(),
{
    if reqs.len() == 0 {
        Seq::empty()
    } else {
        let prev = market_requests(reqs.drop_last());
        if reqs.last().order_type == OrderType::Market {
            prev.push(reqs.last())
        } else {
            prev
        }
    }
}

/// `m` with the orders `made` inserted by identifier, in order.
pub open spec fn insert_all(m: Map<u128, Order>, made: Seq<Order>) -> Map<u128, Order>
    decreases made.len(),
{
    if made.len() == 0 {
        m
    } else {
        insert_all(m, made.drop_last()).insert(made.last().id, made.last())
    }
}

/// The identifiers of `made`, in order.
pub open spec fn ids_of(made: Seq<Order>) -> Seq<u128> {
    made.map_values(|o: Order| o.id)
}

/// Submitting `reqs` to an executor holding `orders0` and queue `pend0`
/// made the fresh orders `made`, one per market request in order, and left
/// `orders1` and `pend1`: each made order stored under its identifier and
/// queued after the earlier ones.
pub open spec fn queued_requests(
    orders0: Map<u128, Order>,
    pend0: Seq<u128>,
    reqs: Seq<OrderRequest>,
    orders1: Map<u128, Order>,
    pend1: Seq<u128>,
    made: Seq<Order>,
) -> bool {
    &&& made.len() == market_requests(reqs).len()
    &&& forall|k: int| 0 <= k < made.len() ==> is_new_order(#[trigger] made[k], market_requests(reqs)[k], made[k].id, made[k].created_at)
    &&& pend1 == pend0 + ids_of(made)
    &&& orders1 == insert_all(orders0, made)
}

/// Hands the strategy's requests to the executor, in order; refusals (the
/// requests that are not market orders) are ignored as the strategy cannot
/// see them. Each market request becomes a fresh order, stored and queued.
fn submit_all(executor: &mut BacktestOrderExecutor, ctx: Context) -> (made: Ghost<Seq<Order>>)
    ensures
        final(executor).portfolio@ == old(executor).portfolio@,
        final(executor).fills_log@ == old(executor).fills_log@,
        queued_requests(
            old(executor).orders@,
            old(executor).pending@,
            ctx.requests@,
            final(executor).orders@,
            final(executor).pending@,
            made@,
        ),
{
    let requests = ctx.requests;
    let ghost reqs = requests@;
    let ghost orders0 = executor.orders@;
    let ghost pend0 = executor.pending@;
    let ghost mut made: Seq<Order> = Seq::empty();
    let n = requests.len();
    let mut i: usize = 0;
    proof {
        assert(reqs.take(0) =~= Seq::<OrderRequest>::empty());
        assert(ids_of(made) =~= Seq::<u128>::empty());
        assert(pend0 + ids_of(made) =~= pend0);
    }
    while i < n
        invariant
            i <= n,
            n == requests@.len(),
            reqs == requests@,
            orders0 == old(executor).orders@,
            pend0 == old(executor).pending@,
            executor.portfolio@ == old(executor).portfolio@,
            executor.fills_log@ == old(executor).fills_log@,
            queued_requests(orders0, pend0, reqs.take(i as int), executor.orders@, executor.pending@, made),
        decreases n - i,
    {
        let req = requests[i].duplicate();
        proof {
            assert(reqs.take(i + 1).drop_last() =~= reqs.take(i as int));
            assert(reqs.take(i + 1).last() == reqs[i as int]);
        }
        let ghost mreq_before = market_requests(reqs.take(i as int));
        let r = executor.submit(req);
        proof {
            if reqs[i as int].order_type == OrderType::Market {
                let o = r->Ok_0;
                let made2 = made.push(o);
                assert(made2.drop_last() =~= made);
                assert(ids_of(made2) =~= ids_of(made).push(o.id));
                assert(pend0 + ids_of(made2) =~= (pend0 + ids_of(made)).push(o.id));
                assert(market_requests(reqs.take(i + 1)) == mreq_before.push(reqs[i as int]));
                assert forall|k: int| 0 <= k < made2.len() implies is_new_order(
                    #[trigger] made2[k],
                    market_requests(reqs.take(i + 1))[k],
                    made2[k].id,
                    made2[k].created_at,
                ) by {
                    if k < made.len() {
                        assert(made2[k] == made[k]);
                        assert(market_requests(reqs.take(i + 1))[k] == mreq_before[k]);
                    }
                }
                made = made2;
            } else {
                assert(market_requests(reqs.take(i + 1)) == mreq_before);
            }
        }
        i = i + 1;
    }
    proof {
        assert(reqs.take(n as int) =~= reqs);
        assert(queued_requests(orders0, pend0, ctx.requests@, executor.orders@, executor.pending@, made));
    }
    Ghost(made)
}

/// Draining never changes the initial equity.
proof fn lemma_drain_keeps_initial(p: crate::application::backtest::portfolio::SimModel, orders: Map<u128, crate::domain::order::Order>, ids: Seq<u128>, buy_price: Dec, sell_price: Dec, ts_ns: i64)
    requires
        crate::order::backtest::drain_spec(p, orders, ids, buy_price, sell_price, ts_ns) is Some,
    ensures
        crate::order::backtest::drain_spec(p, orders, ids, buy_price, sell_price, ts_ns) matches Some((p2, parts))
            && p2.initial_equity == p.initial_equity,
    decreases ids.len(),
{
    if ids.len() > 0 {
        lemma_drain_keeps_initial(p, orders, ids.drop_last(), buy_price, sell_price, ts_ns);
    }
}

/// The curve points so far carry the events' timestamps and mark prices.
pub open spec fn curve_matches(curve: Seq<EquityPoint>, events: Seq<Event>) -> bool {
    &&& curve.len() <= events.len()
    &&& forall|k: int| 0 <= k < curve.len() ==> {
        &&& (#[trigger] curve[k]).ts_ns == events[k].spec_ts_ns()
        &&& mark_price_spec(events[k]) == Some(curve[k].mark_price)
    }
}

/// The state of the simulated executor that the replay follows.
pub struct ExecState {
    pub portfolio: SimModel,
    pub orders: Map<u128, Order>,
    pub pending: Seq<u128>,
}

/// The state of an executor.
pub open spec fn exec_state_of(e: BacktestOrderExecutor) -> ExecState {
    ExecState { portfolio: e.portfolio@, orders: e.orders@, pending: e.pending@ }
}

/// A fresh executor for the run's configuration.
pub open spec fn fresh_exec(cfg: BacktestConfig) -> ExecState {
    ExecState {
        portfolio: Portfolio::new_spec(cfg.initial_equity, cfg.fee_bps),
        orders: Map::empty(),
        pending: Seq::empty(),
    }
}

/// The latest book snapshot among the first `i` events.
pub open spec fn depth_before(events: Seq<Event>, i: int) -> Option<DepthSnapshot>
    decreases i,
{
    if i <= 0 {
        None
    } else {
        match events[i - 1] {
            Event::Depth(d) => Some(d),
            Event::Bar(_) => depth_before(events, i - 1),
        }
    }
}

/// From `t` to `s` the requests `reqs` were handed to the executor, in
/// order: the portfolio is untouched and each market request became a fresh
/// order, stored and queued.
#[verifier::opaque]
pub open spec fn submitted(t: ExecState, s: ExecState, reqs: Seq<OrderRequest>) -> bool {
    &&& s.portfolio == t.portfolio
    &&& exists|made: Seq<Order>| #[trigger] queued_requests(t.orders, t.pending, reqs, s.orders, s.pending, made)
}

/// Queuing `reqs` as the orders `made` hands them over.
proof fn lemma_submitted(t: ExecState, s: ExecState, reqs: Seq<OrderRequest>, made: Seq<Order>)
    requires
        s.portfolio == t.portfolio,
        queued_requests(t.orders, t.pending, reqs, s.orders, s.pending, made),
    ensures
        submitted(t, s, reqs),
{
    reveal(submitted);
}

/// The context the strategy sees at time `now_ns` on account `p`, with no
/// request submitted yet.
pub open spec fn ctx_at(now_ns: i64, p: SimModel) -> ContextView {
    ContextView { now_ns, equity: p.equity, position: p.position, requests: Seq::empty() }
}

/// The strategy's step on event `ev`: `on_bar` for a bar, `on_depth` for a
/// book snapshot.
pub open spec fn event_step<S: Strategy>(st: S, ev: Event, ctx: ContextView) -> StrategyStep<S> {
    match ev {
        Event::Bar(b) => st.bar_step(b, ctx),
        Event::Depth(d) => st.depth_step(d, ctx),
    }
}

/// Before the first event the strategy's `on_start` stepped from `init` to
/// `st0`, seeing the fresh account at the first event's time, and its
/// requests took the fresh executor to `pre0`.
pub open spec fn started<S: Strategy>(events: Seq<Event>, cfg: BacktestConfig, init: S, pre0: ExecState, st0: S) -> bool {
    let fresh = fresh_exec(cfg);
    let step = init.start_step(ctx_at(events[0].spec_ts_ns(), fresh.portfolio));
    &&& st0 == step.next
    &&& submitted(fresh, pre0, step.requests)
}

/// The fill prices of event `ev` for buys and sells.
pub open spec fn event_prices(ev: Event, ld: Option<DepthSnapshot>, fresh: i64) -> (Dec, Dec) {
    (
        pick_price_spec(ev, ld, ev.spec_ts_ns(), fresh, OrderSide::Buy),
        pick_price_spec(ev, ld, ev.spec_ts_ns(), fresh, OrderSide::Sell),
    )
}

/// The portfolio after draining the queue of `s` at these prices.
pub open spec fn drained_portfolio(s: ExecState, buy: Dec, sell: Dec, ts_ns: i64) -> SimModel {
    let (pm, _parts) = drain_spec(s.portfolio, s.orders, s.pending, buy, sell, ts_ns)->0;
    pm
}

/// At event `ev` the queue of `s` was drained at the event's prices, the
/// account marked at its mark price, and `t` is the result.
#[verifier::opaque]
pub open spec fn drained_and_marked(s: ExecState, ev: Event, ld: Option<DepthSnapshot>, fresh: i64, t: ExecState) -> bool {
    let (buy, sell) = event_prices(ev, ld, fresh);
    &&& drain_spec(s.portfolio, s.orders, s.pending, buy, sell, ev.spec_ts_ns()) is Some
    &&& mark_price_spec(ev) is Some
    &&& mark_sim_spec(drained_portfolio(s, buy, sell, ev.spec_ts_ns()), mark_price_spec(ev)->0)
        == Some(t.portfolio)
    &&& orders_after_drain(s.orders, t.orders, s.pending, buy, sell)
    &&& t.pending == Seq::<u128>::empty()
}

/// At event `ev` the drain, the mark price or the mark overflows.
#[verifier::opaque]
pub open spec fn step_fails(s: ExecState, ev: Event, ld: Option<DepthSnapshot>, fresh: i64) -> bool {
    let (buy, sell) = event_prices(ev, ld, fresh);
    ||| drain_spec(s.portfolio, s.orders, s.pending, buy, sell, ev.spec_ts_ns()) is None
    ||| mark_price_spec(ev) is None
    ||| mark_sim_spec(drained_portfolio(s, buy, sell, ev.spec_ts_ns()), mark_price_spec(ev)->0) is None
}

/// An event whose drain and mark went through.
proof fn lemma_step_ok(s: ExecState, ev: Event, ld: Option<DepthSnapshot>, fresh: i64, t: ExecState, pm: SimModel, mark: Dec)
    requires
        drain_spec(s.portfolio, s.orders, s.pending, event_prices(ev, ld, fresh).0, event_prices(ev, ld, fresh).1, ev.spec_ts_ns()) matches Some((p, _parts)) && p == pm,
        mark_price_spec(ev) == Some(mark),
        mark_sim_spec(pm, mark) == Some(t.portfolio),
        orders_after_drain(s.orders, t.orders, s.pending, event_prices(ev, ld, fresh).0, event_prices(ev, ld, fresh).1),
        t.pending == Seq::<u128>::empty(),
    ensures
        drained_and_marked(s, ev, ld, fresh, t),
        !step_fails(s, ev, ld, fresh),
{
    reveal(drained_and_marked);
    reveal(step_fails);
}

/// An event whose drain overflows.
proof fn lemma_step_drain_fails(s: ExecState, ev: Event, ld: Option<DepthSnapshot>, fresh: i64)
    requires
        drain_spec(s.portfolio, s.orders, s.pending, event_prices(ev, ld, fresh).0, event_prices(ev, ld, fresh).1, ev.spec_ts_ns()) is None,
    ensures
        step_fails(s, ev, ld, fresh),
{
    reveal(step_fails);
}

/// An event whose drain went through but whose mark overflows.
proof fn lemma_step_mark_fails(s: ExecState, ev: Event, ld: Option<DepthSnapshot>, fresh: i64, pm: SimModel)
    requires
        drain_spec(s.portfolio, s.orders, s.pending, event_prices(ev, ld, fresh).0, event_prices(ev, ld, fresh).1, ev.spec_ts_ns()) matches Some((p, _parts)) && p == pm,
        mark_price_spec(ev) is None || mark_sim_spec(pm, mark_price_spec(ev)->0) is None,
    ensures
        step_fails(s, ev, ld, fresh),
{
    reveal(step_fails);
}

/// A drained and marked event had a mark price.
proof fn lemma_step_mark(s: ExecState, ev: Event, ld: Option<DepthSnapshot>, fresh: i64, t: ExecState)
    requires
        drained_and_marked(s, ev, ld, fresh, t),
    ensures
        mark_price_spec(ev) is Some,
{
    reveal(drained_and_marked);
}

/// The trace of a run that stopped at event `k`.
proof fn lemma_trace_stopped<S: Strategy>(events: Seq<Event>, cfg: BacktestConfig, init: S, fin: S, tr: RunTrace<S>)
    requires
        tr.pre.len() == tr.post.len() + 1,
        tr.strat.len() == tr.post.len() + 1,
        tr.post.len() < events.len(),
        started(events, cfg, init, tr.pre[0], tr.strat[0]),
        steps_followed(events, fresh_ns_spec(cfg.depth_freshness_sec), tr.pre, tr.post, tr.strat),
        step_fails(tr.pre[tr.post.len() as int], events[tr.post.len() as int], depth_before(events, tr.post.len() as int), fresh_ns_spec(cfg.depth_freshness_sec)),
        fin == tr.strat[tr.post.len() as int],
    ensures
        run_trace(events, cfg, init, fin, tr, None),
{
    reveal(run_trace);
}

/// The trace of a run that passed every event.
proof fn lemma_trace_complete<S: Strategy>(events: Seq<Event>, cfg: BacktestConfig, init: S, fin: S, tr: RunTrace<S>, r: Option<BacktestResult>)
    requires
        tr.pre.len() == tr.post.len() + 1,
        tr.strat.len() == tr.post.len() + 1,
        tr.post.len() == events.len(),
        started(events, cfg, init, tr.pre[0], tr.strat[0]),
        steps_followed(events, fresh_ns_spec(cfg.depth_freshness_sec), tr.pre, tr.post, tr.strat),
        run_end(events, cfg, tr, fin, r),
    ensures
        run_trace(events, cfg, init, fin, tr, r),
{
    reveal(run_trace);
}

/// Event `j` of the replay: its queue was drained and the account marked
/// from `pre[j]` to `post[j]`; then the strategy stepped from `st[j]` to
/// `st[j + 1]` on the event, seeing `post[j]` at the event's time, and the
/// requests of that step took `post[j]` to `pre[j + 1]`.
pub open spec fn step_followed<S: Strategy>(events: Seq<Event>, fresh: i64, pre: Seq<ExecState>, post: Seq<ExecState>, st: Seq<S>, j: int) -> bool {
    let ev = events[j];
    let step = event_step(st[j], ev, ctx_at(ev.spec_ts_ns(), post[j].portfolio));
    &&& drained_and_marked(pre[j], ev, depth_before(events, j), fresh, post[j])
    &&& st[j + 1] == step.next
    &&& submitted(post[j], pre[j + 1], step.requests)
}

/// Each of the first `post.len()` events was replayed as `step_followed`
/// says.
#[verifier::opaque]
pub open spec fn steps_followed<S: Strategy>(events: Seq<Event>, fresh: i64, pre: Seq<ExecState>, post: Seq<ExecState>, st: Seq<S>) -> bool {
    forall|j: int| 0 <= j < post.len() ==> #[trigger] step_followed(events, fresh, pre, post, st, j)
}

/// No event has been replayed yet.
proof fn lemma_steps_empty<S: Strategy>(events: Seq<Event>, fresh: i64, pre: Seq<ExecState>, st: Seq<S>)
    ensures
        steps_followed(events, fresh, pre, Seq::<ExecState>::empty(), st),
{
    reveal(steps_followed);
}

/// What the replay of event `j` did.
proof fn lemma_steps_at<S: Strategy>(events: Seq<Event>, fresh: i64, pre: Seq<ExecState>, post: Seq<ExecState>, st: Seq<S>, j: int)
    requires
        steps_followed(events, fresh, pre, post, st),
        0 <= j < post.len(),
    ensures
        step_followed(events, fresh, pre, post, st, j),
{
    reveal(steps_followed);
}

/// One more event drained, marked and stepped by the strategy, whose
/// requests were then queued, extends the trace.
proof fn lemma_trace_extend<S: Strategy>(
    events: Seq<Event>,
    fresh: i64,
    pre: Seq<ExecState>,
    post: Seq<ExecState>,
    st: Seq<S>,
    ti: ExecState,
    snew: ExecState,
    stnew: S,
)
    requires
        pre.len() == post.len() + 1,
        st.len() == post.len() + 1,
        post.len() < events.len(),
        steps_followed(events, fresh, pre, post, st),
        drained_and_marked(pre[post.len() as int], events[post.len() as int], depth_before(events, post.len() as int), fresh, ti),
        stnew == event_step(st[post.len() as int], events[post.len() as int], ctx_at(events[post.len() as int].spec_ts_ns(), ti.portfolio)).next,
        submitted(ti, snew, event_step(st[post.len() as int], events[post.len() as int], ctx_at(events[post.len() as int].spec_ts_ns(), ti.portfolio)).requests),
    ensures
        steps_followed(events, fresh, pre.push(snew), post.push(ti), st.push(stnew)),
        pre.push(snew)[0] == pre[0],
        st.push(stnew)[0] == st[0],
{
    reveal(steps_followed);
    let pre2 = pre.push(snew);
    let post2 = post.push(ti);
    let st2 = st.push(stnew);
    let i = post.len() as int;
    assert forall|j: int| 0 <= j < post2.len() implies #[trigger] step_followed(events, fresh, pre2, post2, st2, j) by {
        if j < i {
            assert(step_followed(events, fresh, pre, post, st, j));
            assert(pre2[j] == pre[j] && post2[j] == post[j] && pre2[j + 1] == pre[j + 1]);
            assert(st2[j] == st[j] && st2[j + 1] == st[j + 1]);
        } else {
            assert(pre2[j] == pre[i]);
            assert(post2[j] == ti);
            assert(pre2[j + 1] == snew);
            assert(st2[j] == st[i] && st2[j + 1] == stnew);
        }
    }
}

/// Handing requests over leaves the portfolio as it was.
proof fn lemma_submitted_portfolio(t: ExecState, s: ExecState, reqs: Seq<OrderRequest>)
    requires
        submitted(t, s, reqs),
    ensures
        s.portfolio == t.portfolio,
{
    reveal(submitted);
}

/// `o` is the reduce-only market order that closes `pos` at the end of the
/// run.
pub open spec fn close_order_for(o: Order, cfg: BacktestConfig, pos: Position) -> bool {
    &&& o.symbol@ == cfg.symbol@
    &&& o.order_type == OrderType::Market
    &&& o.side == pos.side->0.spec_opposite()
    &&& o.qty == pos.qty
    &&& o.reduce_only
    &&& o.status == OrderStatus::New
}

/// The states a run went through: `pre[j]` before event `j` (after the
/// strategy's earlier requests were queued), `post[j]` after event `j`
/// was drained and marked, `strat[j]` the strategy before its step on event
/// `j` (`strat[0]` after `on_start`), and the order that closed the last
/// position.
pub struct RunTrace<S> {
    pub pre: Seq<ExecState>,
    pub post: Seq<ExecState>,
    pub strat: Seq<S>,
    pub close_order: Option<Order>,
}

/// `res` reports the states `post` with final portfolio `pf`; `closed`
/// says whether an end-of-run order was filled.
#[verifier::opaque]
pub open spec fn result_is(res: BacktestResult, post: Seq<ExecState>, pf: SimModel, closed: bool) -> bool {
    let n = post.len();
    &&& res.portfolio.equity == pf.equity
    &&& res.portfolio.initial_equity == pf.initial_equity
    &&& res.portfolio.position == pf.position
    &&& res.portfolio.closed_trades@ == pf.closed_trades
    &&& res.equity_curve@.len() == n
    &&& forall|j: int| 0 <= j < n - 1 ==> (#[trigger] res.equity_curve@[j]).equity == post[j].portfolio.equity
        && res.equity_curve@[j].position_qty == post[j].portfolio.position.qty
    &&& res.equity_curve@[n - 1].equity == pf.equity
    &&& res.equity_curve@[n - 1].position_qty == (if closed { Dec::spec_zero() } else { post[n - 1].portfolio.position.qty })
}

/// The end of a run whose every event went through: a flat account is
/// reported as it stands; an open position gets a reduce-only closing
/// order, queued after the strategy's last requests and drained at the
/// last mark price, `None` exactly when that drain overflows. Unless it
/// overflowed, the strategy's `on_finish` then stepped to `fin`, seeing the
/// final account at the last event's time.
#[verifier::opaque]
pub open spec fn run_end<S: Strategy>(events: Seq<Event>, cfg: BacktestConfig, tr: RunTrace<S>, fin: S, r: Option<BacktestResult>) -> bool {
    let n = events.len();
    let last = events[n - 1];
    let t = tr.post[n - 1];
    let s = tr.pre[n as int];
    let st = tr.strat[n as int];
    if t.portfolio.position.side is None {
        &&& r matches Some(res) && result_is(res, tr.post, t.portfolio, false)
        &&& fin == st.finish_step(ctx_at(last.spec_ts_ns(), t.portfolio)).next
    } else {
        let o = tr.close_order->0;
        let mark = mark_price_spec(last)->0;
        &&& tr.close_order is Some
        &&& close_order_for(o, cfg, t.portfolio.position)
        &&& match drain_spec(s.portfolio, s.orders.insert(o.id, o), s.pending.push(o.id), mark, mark, last.spec_ts_ns()) {
            None => r is None && fin == st,
            Some((pf, _parts)) => r matches Some(res) && result_is(res, tr.post, pf, true)
                && fin == st.finish_step(ctx_at(last.spec_ts_ns(), pf)).next,
        }
    }
}

/// The run over non-empty `events`, with the strategy starting at `init`
/// and ending at `fin`, followed the trace `tr` and returned `r`:
/// `on_start` stepped the strategy and its requests were queued; each event
/// drained the queue at its prices and marked the account, then the
/// strategy stepped on it (`on_bar` or `on_depth`) and its requests were
/// queued; the first event whose drain or mark overflows ends the run with
/// `None`; a run that passes every event ends as `run_end` says.
#[verifier::opaque]
pub open spec fn run_trace<S: Strategy>(events: Seq<Event>, cfg: BacktestConfig, init: S, fin: S, tr: RunTrace<S>, r: Option<BacktestResult>) -> bool {
    let n = events.len() as int;
    let fresh = fresh_ns_spec(cfg.depth_freshness_sec);
    let k = tr.post.len() as int;
    &&& tr.pre.len() == k + 1
    &&& tr.strat.len() == k + 1
    &&& k <= n
    &&& started(events, cfg, init, tr.pre[0], tr.strat[0])
    &&& steps_followed(events, fresh, tr.pre, tr.post, tr.strat)
    &&& k < n ==> r is None && step_fails(tr.pre[k], events[k], depth_before(events, k), fresh) && fin == tr.strat[k]
    &&& k == n ==> run_end(events, cfg, tr, fin, r)
}

/// Law: an account is marked at the close of a bar, and at the mid
/// `(bid + ask) / 2` of a snapshot's best bid and ask.
pub proof fn law_mark_price(ev: Event)
    ensures
        ev matches Event::Bar(b) ==> mark_price_spec(ev) == Some(b.close),
        ev matches Event::Depth(d) ==> mark_price_spec(ev) == (match add_spec(d.bid1_price, d.ask1_price) {
            Some(sum) => div_spec(sum, Dec::spec_int(2)),
            None => None,
        }),
{
}

/// Fills the queued orders at the event's prices, marks the account at the
/// event's mark price and gives the curve point; `None` exactly when the
/// drain, the mark price or the mark overflows.
pub fn drain_and_mark(executor: &mut BacktestOrderExecutor, ev: &Event, last_depth: &Option<DepthSnapshot>, fresh_ns: i64) -> (pt: Option<EquityPoint>)
    ensures
        pt is None ==> step_fails(exec_state_of(*old(executor)), *ev, *last_depth, fresh_ns),
        pt matches Some(p) ==> {
            &&& drained_and_marked(exec_state_of(*old(executor)), *ev, *last_depth, fresh_ns, exec_state_of(*final(executor)))
            &&& p.ts_ns == ev.spec_ts_ns()
            &&& mark_price_spec(*ev) == Some(p.mark_price)
            &&& p.equity == final(executor).portfolio@.equity
            &&& p.position_qty == final(executor).portfolio@.position.qty
            &&& final(executor).portfolio@.initial_equity == old(executor).portfolio@.initial_equity
        },
{
    let ts = ev.ts_ns();
    let buy_price = pick_price(ev, last_depth, ts, fresh_ns, OrderSide::Buy);
    let sell_price = pick_price(ev, last_depth, ts, fresh_ns, OrderSide::Sell);
    let ghost si = exec_state_of(*executor);
    proof {
        assert(event_prices(*ev, *last_depth, fresh_ns) == (buy_price, sell_price));
    }
    match executor.try_drain_pending(buy_price, sell_price, ts) {
        Some(_) => {},
        None => {
            proof {
                lemma_step_drain_fails(si, *ev, *last_depth, fresh_ns);
            }
            return None;
        },
    }
    let ghost pm = executor.portfolio@;
    proof {
        lemma_drain_keeps_initial(si.portfolio, si.orders, si.pending, buy_price, sell_price, ts);
    }
    let mark = match event_mark_price(ev) {
        Some(m) => m,
        None => {
            proof {
                lemma_step_mark_fails(si, *ev, *last_depth, fresh_ns, pm);
            }
            return None;
        },
    };
    if !executor.try_mark(mark) {
        proof {
            lemma_step_mark_fails(si, *ev, *last_depth, fresh_ns, pm);
        }
        return None;
    }
    proof {
        lemma_step_ok(si, *ev, *last_depth, fresh_ns, exec_state_of(*executor), pm, mark);
    }
    Some(EquityPoint { ts_ns: ts, equity: executor.equity(), position_qty: executor.position().qty, mark_price: mark })
}

/// Replays the merged events: `on_start` sees the fresh account; at each
/// event the queued orders fill (at the fresh book, or the event's price),
/// the account is marked at the event's mark price and recorded, and the
/// strategy's `on_bar` or `on_depth` sees the event, its requests queued
/// for the next event. At the end an open position is closed by a
/// reduce-only order at the last mark price, and `on_finish` runs. `None`
/// exactly where the decimal arithmetic overflows.
#[verifier::rlimit(100)]
pub fn run<S: Strategy>(bars: Vec<Bar>, depths: Vec<DepthSnapshot>, cfg: &BacktestConfig, strategy: &mut S) -> (r: Option<BacktestResult>)
    ensures
        merge_spec(bars@, depths@).len() == 0 ==> (r matches Some(res) && {
            &&& res.equity_curve@.len() == 0
            &&& res.portfolio.initial_equity == cfg.initial_equity
            &&& res.portfolio.equity == cfg.initial_equity
            &&& res.portfolio.position.side is None
            &&& res.portfolio.closed_trades@.len() == 0
        }),
        merge_spec(bars@, depths@).len() == 0 ==> *final(strategy) == *old(strategy),
        r matches Some(res) ==> {
            &&& res.equity_curve@.len() == merge_spec(bars@, depths@).len()
            &&& curve_matches(res.equity_curve@, merge_spec(bars@, depths@))
            &&& res.portfolio.initial_equity == cfg.initial_equity
            &&& res.equity_curve@.len() > 0 ==> res.equity_curve@.last().equity == res.portfolio.equity
        },
        merge_spec(bars@, depths@).len() > 0 ==> exists|tr: RunTrace<S>|
            #[trigger] run_trace(merge_spec(bars@, depths@), *cfg, *old(strategy), *final(strategy), tr, r),
{
    let ghost merged = merge_spec(bars@, depths@);
    let ghost init = *strategy;
    let events = merge_events(bars, depths);
    let n = events.len();
    if n == 0 {
        let executor = BacktestOrderExecutor::new(cfg.initial_equity, cfg.fee_bps);
        return Some(BacktestResult { portfolio: executor.snapshot(), equity_curve: Vec::new() });
    }
    let mut executor = BacktestOrderExecutor::new(cfg.initial_equity, cfg.fee_bps);
    let mut equity_curve: Vec<EquityPoint> = Vec::new();
    let mut last_depth: Option<DepthSnapshot> = None;
    let fresh_ns = saturating_secs_to_ns(cfg.depth_freshness_sec);
    let ghost s0 = exec_state_of(executor);
    let ghost mut pre: Seq<ExecState> = Seq::empty();
    let ghost mut post: Seq<ExecState> = Seq::empty();
    let ghost mut strat: Seq<S> = Seq::empty();

    let mut ctx = context_for(events[0].ts_ns(), &executor);
    let ghost c0 = ctx@;
    proof {
        assert(s0 == fresh_exec(*cfg));
        assert(c0 == ctx_at(events@[0].spec_ts_ns(), s0.portfolio));
    }
    strategy.on_start(&mut ctx);
    let ghost reqs0 = ctx.requests@;
    proof {
        assert(reqs0 =~= init.start_step(c0).requests);
    }
    let made0 = submit_all(&mut executor, ctx);
    proof {
        lemma_submitted(s0, exec_state_of(executor), reqs0, made0@);
        pre = seq![exec_state_of(executor)];
        strat = seq![*strategy];
        lemma_steps_empty(events@, fresh_ns, pre, strat);
    }

    let mut i: usize = 0;
    while i < n
        invariant
            n == events@.len(),
            events@ == merged,
            merged == merge_spec(bars@, depths@),
            n > 0,
            i <= n,
            equity_curve@.len() == i,
            curve_matches(equity_curve@, events@),
            executor.portfolio@.initial_equity == cfg.initial_equity,
            i > 0 ==> equity_curve@.last().equity == executor.portfolio@.equity,
            fresh_ns == fresh_ns_spec(cfg.depth_freshness_sec),
            last_depth == depth_before(events@, i as int),
            pre.len() == i + 1,
            post.len() == i,
            strat.len() == i + 1,
            pre[i as int] == exec_state_of(executor),
            strat[i as int] == *strategy,
            init == *old(strategy),
            started(events@, *cfg, init, pre[0], strat[0]),
            steps_followed(events@, fresh_ns, pre, post, strat),
            forall|j: int| 0 <= j < i ==> (#[trigger] equity_curve@[j]).equity == post[j].portfolio.equity
                && equity_curve@[j].position_qty == post[j].portfolio.position.qty,
        decreases n - i,
    {
        let ev = &events[i];
        let ts = ev.ts_ns();
        let point = match drain_and_mark(&mut executor, ev, &last_depth, fresh_ns) {
            Some(pt) => pt,
            None => {
                proof {
                    lemma_trace_stopped(merged, *cfg, init, *strategy, RunTrace { pre, post, strat, close_order: None });
                }
                return None;
            },
        };
        equity_curve.push(point);
        let ghost ti = exec_state_of(executor);
        let ghost sti = *strategy;
        let mut ctx = context_for(ts, &executor);
        let ghost c = ctx@;
        proof {
            assert(c == ctx_at(events@[i as int].spec_ts_ns(), ti.portfolio));
        }
        match ev {
            Event::Bar(b) => strategy.on_bar(b, &mut ctx),
            Event::Depth(d) => {
                strategy.on_depth(d, &mut ctx);
                last_depth = Some(d.duplicate());
            },
        }
        let ghost reqs = ctx.requests@;
        proof {
            assert(reqs =~= event_step(sti, events@[i as int], c).requests);
            assert(*strategy == event_step(sti, events@[i as int], c).next);
        }
        let made = submit_all(&mut executor, ctx);
        proof {
            lemma_submitted(ti, exec_state_of(executor), reqs, made@);
            lemma_trace_extend(events@, fresh_ns, pre, post, strat, ti, exec_state_of(executor), *strategy);
            let post2 = post.push(ti);
            assert forall|j: int| 0 <= j < i + 1 implies (#[trigger] equity_curve@[j]).equity == post2[j].portfolio.equity
                && equity_curve@[j].position_qty == post2[j].portfolio.position.qty by {
                if j < i {
                    assert(post2[j] == post[j]);
                }
            }
            pre = pre.push(exec_state_of(executor));
            post = post2;
            strat = strat.push(*strategy);
        }
        i = i + 1;
    }

    let last = &events[n - 1];
    let ghost t = post[n - 1];
    let ghost s = pre[n as int];
    let ghost mut close_o: Option<Order> = None;
    let ghost mut closed = false;
    proof {
        lemma_steps_at(events@, fresh_ns, pre, post, strat, n - 1);
        lemma_step_mark(pre[n - 1], events@[n - 1], depth_before(events@, n - 1), fresh_ns, post[n - 1]);
        let ev = events@[n - 1];
        lemma_submitted_portfolio(t, s, event_step(strat[n - 1], ev, ctx_at(ev.spec_ts_ns(), t.portfolio)).requests);
    }
    if let Some(cur_side) = executor.position().side {
        let close_price = match event_mark_price(last) {
            Some(m) => m,
            None => {
                proof {
                    assert(false);
                }
                return None;
            },
        };
        let qty = executor.position().qty;
        let mut request = OrderRequest::default();
        request.symbol = cfg.symbol.clone();
        request.order_type = OrderType::Market;
        request.side = cur_side.opposite();
        request.qty = qty;
        request.reduce_only = true;
        let submitted_close = executor.submit(request);
        proof {
            close_o = Some(submitted_close->Ok_0);
            closed = true;
            assert(close_order_for(close_o->0, *cfg, t.portfolio.position));
        }
        let ghost before = executor.portfolio@;
        let ghost orders_before = executor.orders@;
        let ghost pending_before = executor.pending@;
        match executor.try_drain_pending(close_price, close_price, last.ts_ns()) {
            Some(_) => {},
            None => {
                proof {
                    let tr = RunTrace { pre, post, strat, close_order: close_o };
                    assert(run_end(merged, *cfg, tr, *strategy, None)) by {
                        reveal(run_end);
                    }
                    lemma_trace_complete(merged, *cfg, init, *strategy, tr, None);
                }
                return None;
            },
        }
        proof {
            lemma_drain_keeps_initial(before, orders_before, pending_before, close_price, close_price, last.spec_ts_ns());
        }
        let k = equity_curve.len() - 1;
        let p = equity_curve[k];
        let ghost curve_before = equity_curve@;
        equity_curve.set(k, EquityPoint { equity: executor.equity(), position_qty: Dec::zero(), ..p });
        proof {
            assert forall|j: int| 0 <= j < equity_curve@.len() implies
                (#[trigger] equity_curve@[j]).ts_ns == curve_before[j].ts_ns && equity_curve@[j].mark_price == curve_before[j].mark_price
                && (j < k ==> equity_curve@[j] == curve_before[j]) by {
            }
        }
    }
    let ghost pf = executor.portfolio@;
    let ghost stn = *strategy;

    let mut ctx = context_for(last.ts_ns(), &executor);
    let ghost cf = ctx@;
    proof {
        assert(cf == ctx_at(events@[n - 1].spec_ts_ns(), pf));
    }
    strategy.on_finish(&mut ctx);
    submit_all(&mut executor, ctx);

    let result = Some(BacktestResult { portfolio: executor.snapshot(), equity_curve });
    proof {
        let tr = RunTrace { pre, post, strat, close_order: close_o };
        assert(result_is(result->0, post, pf, closed)) by {
            reveal(result_is);
        }
        assert(*strategy == stn.finish_step(cf).next);
        assert(run_end(merged, *cfg, tr, *strategy, result)) by {
            reveal(run_end);
        }
        lemma_trace_complete(merged, *cfg, init, *strategy, tr, result);
    }
    result
}

/// Law: when the strategy queued nothing at the last event, the end-of-run
/// order leaves the account flat: a reduce-only order closes and never
/// reopens.
pub proof fn law_end_close_flattens(s: ExecState, o: Order, pos: Position, cfg: BacktestConfig, price: Dec, ts_ns: i64)
    requires
        s.pending == Seq::<u128>::empty(),
        s.portfolio.position == pos,
        pos.side is Some,
        close_order_for(o, cfg, pos),
    ensures
        drain_spec(s.portfolio, s.orders.insert(o.id, o), s.pending.push(o.id), price, price, ts_ns) matches Some((pf, _parts))
            ==> pf.position.side is None,
{
    let ids = s.pending.push(o.id);
    let orders = s.orders.insert(o.id, o);
    assert(ids.drop_last() =~= Seq::<u128>::empty());
    assert(drain_spec(s.portfolio, orders, ids.drop_last(), price, price, ts_ns) == Some((s.portfolio, Seq::<(u128, Dec, Dec, Dec)>::empty())));
    assert(ids.last() == o.id);
    assert(orders.contains_key(o.id) && orders[o.id] == o);
    let cur = pos.side->0;
    assert(cur.spec_opposite() != cur);
    assert(s.portfolio.position.side != Some(o.side));
    if let Some((m1, q, fee)) = close_sim_spec(s.portfolio, price, ts_ns) {
        assert(m1.position.side is None);
    }
}

} // verus!
