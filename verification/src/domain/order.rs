//! Orders, fills and order requests of the live and simulated executors.

use vstd::prelude::*;
use crate::decimal::Dec;
use crate::domain::clock::{UtcTime, utc_now, new_order_id, order_id_text, uuid_hyphenated};

verus! {

#[derive(Clone, Copy, Debug, PartialEq, Eq, Structural)]
pub enum OrderType {
    Market,
    Limit,
    StopMarket,
    StopLimit,
}

impl Default for OrderType {
    fn default() -> (r: OrderType)
        ensures
            r == OrderType::Market,
    {
        OrderType::Market
    }
}

#[derive(Clone, Copy, Debug, PartialEq, Eq, Structural)]
pub enum OrderSide {
    Buy,
    Sell,
}

impl Default for OrderSide {
    fn default() -> (r: OrderSide)
        ensures
            r == OrderSide::Buy,
    {
        OrderSide::Buy
    }
}

impl OrderSide {
    /// The other side.
    pub open spec fn spec_opposite(self) -> OrderSide {
        match self {
            OrderSide::Buy => OrderSide::Sell,
            OrderSide::Sell => OrderSide::Buy,
        }
    }

    pub fn opposite(self) -> (r: OrderSide)
        ensures
            r == self.spec_opposite(),
    {
        match self {
            OrderSide::Buy => OrderSide::Sell,
            OrderSide::Sell => OrderSide::Buy,
        }
    }
}

#[derive(Clone, Copy, Debug, PartialEq, Eq, Structural)]
pub enum OrderStatus {
    New,
    PartiallyFilled,
    Filled,
    Cancelled,
    Rejected,
    Expired,
}

#[derive(Clone, Copy, Debug, PartialEq, Eq, Structural)]
pub enum TimeInForce {
    Gtc,
    Ioc,
    Fok,
}

impl Default for TimeInForce {
    fn default() -> (r: TimeInForce)
        ensures
            r == TimeInForce::Gtc,
    {
        TimeInForce::Gtc
    }
}

/// An order as the executors track it; `id` is the 128-bit value of its UUID.
#[derive(Clone, Debug)]
pub struct Order {
    pub id: u128,
    pub client_order_id: String,
    pub exchange_order_id: Option<i64>,
    pub symbol: String,
    pub order_type: OrderType,
    pub side: OrderSide,
    pub status: OrderStatus,
    pub qty: Dec,
    pub price: Option<Dec>,
    pub stop_price: Option<Dec>,
    pub filled_qty: Dec,
    pub avg_fill_price: Option<Dec>,
    pub time_in_force: TimeInForce,
    pub reduce_only: bool,
    pub post_only: bool,
    pub created_at: UtcTime,
    pub updated_at: UtcTime,
}

/// One execution of an order.
#[derive(Clone, Debug)]
pub struct Fill {
    pub order_id: u128,
    pub symbol: String,
    pub side: OrderSide,
    pub qty: Dec,
    pub price: Dec,
    pub fee: Dec,
    pub fee_asset: String,
    pub filled_at: UtcTime,
}

/// What a strategy or user asks to trade.
#[derive(Clone, Debug)]
pub struct OrderRequest {
    pub symbol: String,
    pub order_type: OrderType,
    pub side: OrderSide,
    pub qty: Dec,
    pub price: Option<Dec>,
    pub stop_price: Option<Dec>,
    pub client_order_id: Option<String>,
    pub time_in_force: TimeInForce,
    pub reduce_only: bool,
    pub post_only: bool,
}

impl Default for OrderRequest {
    fn default() -> (r: OrderRequest)
        ensures
            r.symbol@ == Seq::<char>::empty(),
            r.order_type == OrderType::Market,
            r.side == OrderSide::Buy,
            r.qty == Dec::spec_zero(),
            r.price is None,
            r.stop_price is None,
            r.client_order_id is None,
            r.time_in_force == TimeInForce::Gtc,
            !r.reduce_only,
            !r.post_only,
    {
        OrderRequest {
            symbol: String::new(),
            order_type: OrderType::Market,
            side: OrderSide::Buy,
            qty: Dec::zero(),
            price: None,
            stop_price: None,
            client_order_id: None,
            time_in_force: TimeInForce::Gtc,
            reduce_only: false,
            post_only: false,
        }
    }
}

/// Why an order operation failed.
#[derive(Clone, Debug)]
pub enum OrderError {
    NotFound(String),
    InsufficientMargin,
    ExchangeRejected { code: i32, msg: String },
    Storage(String),
    Connection(String),
}

/// `o` is the fresh order for `req` with identifier `id` made at `now`: new,
/// nothing filled, the request's terms copied, and the client identifier
/// the request's or, when it has none, the text of `id`.
pub open spec fn is_new_order(o: Order, req: OrderRequest, id: u128, now: UtcTime) -> bool {
    &&& o.id == id
    &&& o.client_order_id@ == (match req.client_order_id {
        Some(c) => c@,
        None => uuid_hyphenated(id),
    })
    &&& o.exchange_order_id is None
    &&& o.symbol@ == req.symbol@
    &&& o.order_type == req.order_type
    &&& o.side == req.side
    &&& o.status == OrderStatus::New
    &&& o.qty == req.qty
    &&& o.price == req.price
    &&& o.stop_price == req.stop_price
    &&& o.filled_qty == Dec::spec_zero()
    &&& o.avg_fill_price is None
    &&& o.time_in_force == req.time_in_force
    &&& o.reduce_only == req.reduce_only
    &&& o.post_only == req.post_only
    &&& o.created_at == now
    &&& o.updated_at == now
}

impl Order {
    /// The fresh order for `req` with identifier `id`, made at `now`.
    pub fn from_request_at(req: OrderRequest, id: u128, now: UtcTime) -> (o: Order)
        ensures
            is_new_order(o, req, id, now),
    {
        let client_order_id = match req.client_order_id {
            Some(c) => c,
            None => order_id_text(id),
        };
        Order {
            id,
            client_order_id,
            exchange_order_id: None,
            symbol: req.symbol,
            order_type: req.order_type,
            side: req.side,
            status: OrderStatus::New,
            qty: req.qty,
            price: req.price,
            stop_price: req.stop_price,
            filled_qty: Dec::zero(),
            avg_fill_price: None,
            time_in_force: req.time_in_force,
            reduce_only: req.reduce_only,
            post_only: req.post_only,
            created_at: now,
            updated_at: now,
        }
    }

    /// A fresh order for `req`, with a new version-7 identifier (its leading
    /// bits the current millisecond, the rest random) and the current time.
    pub fn new_from_request(req: OrderRequest) -> (o: Order)
        ensures
            is_new_order(o, req, o.id, o.created_at),
    {
        let now = utc_now();
        let id = new_order_id();
        Order::from_request_at(req, id, now)
    }

    /// A field-for-field copy.
    pub fn duplicate(&self) -> (r: Order)
        ensures
            r == *self,
    {
        Order {
            id: self.id,
            client_order_id: self.client_order_id.clone(),
            exchange_order_id: self.exchange_order_id,
            symbol: self.symbol.clone(),
            order_type: self.order_type,
            side: self.side,
            status: self.status,
            qty: self.qty,
            price: self.price,
            stop_price: self.stop_price,
            filled_qty: self.filled_qty,
            avg_fill_price: self.avg_fill_price,
            time_in_force: self.time_in_force,
            reduce_only: self.reduce_only,
            post_only: self.post_only,
            created_at: self.created_at,
            updated_at: self.updated_at,
        }
    }
}

impl OrderRequest {
    /// A field-for-field copy.
    pub fn duplicate(&self) -> (r: OrderRequest)
        ensures
            r == *self,
    {
        let client_order_id = match &self.client_order_id {
            Some(c) => Some(c.clone()),
            None => None,
        };
        OrderRequest {
            symbol: self.symbol.clone(),
            order_type: self.order_type,
            side: self.side,
            qty: self.qty,
            price: self.price,
            stop_price: self.stop_price,
            client_order_id,
            time_in_force: self.time_in_force,
            reduce_only: self.reduce_only,
            post_only: self.post_only,
        }
    }
}

impl Fill {
    /// A field-for-field copy.
    pub fn duplicate(&self) -> (r: Fill)
        ensures
            r == *self,
    {
        Fill {
            order_id: self.order_id,
            symbol: self.symbol.clone(),
            side: self.side,
            qty: self.qty,
            price: self.price,
            fee: self.fee,
            fee_asset: self.fee_asset.clone(),
            filled_at: self.filled_at,
        }
    }
}

} // verus!
