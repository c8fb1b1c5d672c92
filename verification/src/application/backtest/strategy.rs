//! The strategy interface of the order-driven backtest: a strategy sees
//! each event with the executor's equity and position, and hands back the
//! order requests it wants submitted.

use vstd::prelude::*;
use crate::decimal::Dec;
use crate::domain::backtest::{Bar, DepthSnapshot, Position};
use crate::domain::order::OrderRequest;

verus! {

/// What a strategy sees of the simulated account, and the requests it
/// submits, in order.
pub struct Context {
    pub now_ns: i64,
    pub equity: Dec,
    pub position: Position,
    pub requests: Vec<OrderRequest>,
}

impl Context {
    /// Submits an order request to the executor.
    pub fn submit(&mut self, request: OrderRequest)
        ensures
            final(self).requests@ == old(self).requests@.push(request),
            final(self).now_ns == old(self).now_ns,
            final(self).equity == old(self).equity,
            final(self).position == old(self).position,
    {
        self.requests.push(request);
    }
}

/// What a strategy sees in a context: the time, the account and the
/// requests submitted so far.
pub struct ContextView {
    pub now_ns: i64,
    pub equity: Dec,
    pub position: Position,
    pub requests: Seq<OrderRequest>,
}

impl View for Context {
    type V = ContextView;

    open spec fn view(&self) -> ContextView {
        ContextView { now_ns: self.now_ns, equity: self.equity, position: self.position, requests: self.requests@ }
    }
}

/// One step of a strategy: its next state and the requests it submits, in
/// order.
pub struct StrategyStep<S> {
    pub next: S,
    pub requests: Seq<OrderRequest>,
}

/// A trading strategy driven by the order-driven backtest, implemented by
/// users. Each callback is described by a step: from the strategy's state
/// and what it sees, its next state and the requests it submits, in order.
pub trait Strategy: Sized {
    /// The state after `on_start` and the requests it submits.
    spec fn start_step(&self, ctx: ContextView) -> StrategyStep<Self>;

    /// The state after `on_bar` on `bar` and the requests it submits.
    spec fn bar_step(&self, bar: Bar, ctx: ContextView) -> StrategyStep<Self>;

    /// The state after `on_depth` on `snap` and the requests it submits.
    spec fn depth_step(&self, snap: DepthSnapshot, ctx: ContextView) -> StrategyStep<Self>;

    /// The state after `on_finish` and the requests it submits.
    spec fn finish_step(&self, ctx: ContextView) -> StrategyStep<Self>;

    /// Called once before the first event.
    fn on_start(&mut self, ctx: &mut Context)
        ensures
            *final(self) == old(self).start_step(old(ctx)@).next,
            final(ctx).requests@ == old(ctx).requests@ + old(self).start_step(old(ctx)@).requests,
    ;

    /// Called for each bar, after the bar's fills and mark.
    fn on_bar(&mut self, bar: &Bar, ctx: &mut Context)
        ensures
            *final(self) == old(self).bar_step(*bar, old(ctx)@).next,
            final(ctx).requests@ == old(ctx).requests@ + old(self).bar_step(*bar, old(ctx)@).requests,
    ;

    /// Called for each book snapshot, after the snapshot's fills and mark.
    fn on_depth(&mut self, snap: &DepthSnapshot, ctx: &mut Context)
        ensures
            *final(self) == old(self).depth_step(*snap, old(ctx)@).next,
            final(ctx).requests@ == old(ctx).requests@ + old(self).depth_step(*snap, old(ctx)@).requests,
    ;

    /// Called once after the last event and the closing of the position.
    fn on_finish(&mut self, ctx: &mut Context)
        ensures
            *final(self) == old(self).finish_step(old(ctx)@).next,
            final(ctx).requests@ == old(ctx).requests@ + old(self).finish_step(old(ctx)@).requests,
    ;
}

} // verus!
