//! Decisions of the live order executor: the signed requests it sends, how
//! it reads the exchange's replies, and how replies and account events
//! change the orders it tracks. Sending, waiting and storage happen around
//! these functions.

use vstd::prelude::*;
use vstd::string::StringExecFns;
use crate::decimal::{Dec, decimal_text, decimal_to_string, parse_decimal, decimal_from_str, opt_dec};
use crate::domain::clock::{UtcTime, utc_now, utc_from_millis, chrono_from_millis, time_of, in_chrono_range, new_order_id, order_id_text, uuid_hyphenated};
use crate::domain::order::{Fill, Order, OrderError, OrderRequest, OrderSide, OrderStatus};
use crate::order::signing::{sign, hex_lower, hmac_sha256, nat_text, int_text, u64_text, i64_text, timestamp_ms};
use crate::text::text_eq;

verus! {

// ---------------------------------------------------------------------
// Replies
// ---------------------------------------------------------------------

/// What the executor reads of a reply's `result`.
#[derive(Clone, Debug)]
pub struct ReplyResult {
    /// `result.orderId` as an `i64`.
    pub order_id: Option<i64>,
    /// `result.status` as a string.
    pub status: Option<String>,
    /// When `result` is an array, each entry's `orderId` as an `i64`.
    pub entries: Option<Vec<Option<i64>>>,
}

/// A reply of the exchange's WebSocket API, as plain values.
#[derive(Clone, Debug)]
pub struct ExchangeReply {
    /// The reply's `status` as an unsigned number.
    pub status: Option<u64>,
    /// `error.code` as an `i64`.
    pub error_code: Option<i64>,
    /// `error.msg` as a string.
    pub error_msg: Option<String>,
    pub result: ReplyResult,
}

/// How waiting for a reply ended.
#[derive(Clone, Debug)]
pub enum WaitOutcome {
    /// The request could not be handed to the connection; the error's text.
    SendFailed(String),
    Replied(ExchangeReply),
    /// The reply channel closed without a reply.
    ChannelClosed,
    /// No reply came in time.
    TimedOut,
}

/// What a text frame of the order connection holds, as
/// `serde_json::from_str::<serde_json::Value>` parses it: the reply's `id`
/// when it is a string, and the reply read field by field as
/// `ExchangeReply` and `ReplyResult` describe; `None` where the text is not
/// JSON or `id` is not a string.
pub uninterp spec fn order_frame(text: Seq<char>) -> Option<(String, ExchangeReply)>;

/// Calls `serde_json::from_str` on a frame of the order connection and
/// reads its `id`, `status`, `error.code`, `error.msg` and `result` fields
/// with `serde_json::Value`'s indexing and `as_str`, `as_u64`, `as_i64` and
/// `as_array`: the result is what serde_json gives for this text.
#[verifier::external_body]
fn decode_order_frame(text: &str) -> (r: Option<(String, ExchangeReply)>)
    ensures
        r == order_frame(text@),
{
    let v: serde_json::Value = serde_json::from_str(text).ok()?;
    let res = &v["result"];
    let entries = res.as_array().map(|a| a.iter().map(|o| o["orderId"].as_i64()).collect());
    let result = ReplyResult { order_id: res["orderId"].as_i64(), status: res["status"].as_str().map(str::to_string), entries };
    let error_msg = v["error"]["msg"].as_str().map(str::to_string);
    let reply = ExchangeReply { status: v["status"].as_u64(), error_code: v["error"]["code"].as_i64(), error_msg, result };
    Some((v["id"].as_str()?.to_string(), reply))
}

/// `k` is the first waiting request whose identifier is `id`.
pub open spec fn first_waiter(pending: Seq<String>, id: Seq<char>, k: int) -> bool {
    &&& 0 <= k < pending.len()
    &&& pending[k]@ == id
    &&& forall|j: int| 0 <= j < k ==> (#[trigger] pending[j])@ != id
}

/// The waiting request, among the identifiers `pending`, that a reply with
/// identifier `id` answers: the first with that identifier, or `None` when
/// no request waits for it.
pub fn route_reply(pending: &Vec<String>, id: &str) -> (r: Option<usize>)
    ensures
        match r {
            Some(k) => first_waiter(pending@, id@, k as int),
            None => forall|j: int| 0 <= j < pending@.len() ==> (#[trigger] pending@[j])@ != id@,
        },
{
    let n = pending.len();
    let mut k: usize = 0;
    while k < n
        invariant
            n == pending@.len(),
            k <= n,
            forall|j: int| 0 <= j < k ==> (#[trigger] pending@[j])@ != id@,
        decreases n - k,
    {
        if text_eq(pending[k].as_str(), id) {
            return Some(k);
        }
        k = k + 1;
    }
    None
}

/// Where a frame of the order connection goes: the reply it holds and the
/// waiting request it answers, `None` when it holds no reply with a string
/// identifier or no request waits for that identifier.
pub fn route_order_frame(pending: &Vec<String>, text: &str) -> (r: Option<(usize, ExchangeReply)>)
    ensures
        match order_frame(text@) {
            None => r is None,
            Some((id, reply)) => match r {
                Some((k, rep)) => first_waiter(pending@, id@, k as int) && rep == reply,
                None => forall|j: int| 0 <= j < pending@.len() ==> (#[trigger] pending@[j])@ != id@,
            },
        },
{
    match decode_order_frame(text) {
        None => None,
        Some((id, reply)) => match route_reply(pending, id.as_str()) {
            Some(k) => Some((k, reply)),
            None => None,
        },
    }
}

/// `e` is a connection error with text `msg`.
pub open spec fn is_connection_error(e: OrderError, msg: Seq<char>) -> bool {
    e matches OrderError::Connection(m) && m@ == msg
}

/// What a request yields for the way its wait ended: connection errors for
/// a failed send, a closed channel or a timeout; a refusal with the error's
/// code (truncated to 32 bits, -1 when absent) and message (`unknown` when
/// absent) for any reply whose status is not 200; the result otherwise.
pub open spec fn settled(outcome: WaitOutcome, r: Result<ReplyResult, OrderError>) -> bool {
    match outcome {
        WaitOutcome::SendFailed(m) => r matches Err(e) && is_connection_error(e, m@),
        WaitOutcome::ChannelClosed => r matches Err(e) && is_connection_error(e, "channel closed"@),
        WaitOutcome::TimedOut => r matches Err(e) && is_connection_error(e, "timeout"@),
        WaitOutcome::Replied(reply) => if reply.status == Some(200u64) {
            r == Ok::<ReplyResult, OrderError>(reply.result)
        } else {
            &&& r matches Err(OrderError::ExchangeRejected { code, msg })
            &&& code == (match reply.error_code {
                Some(c) => c,
                None => -1i64,
            }) as i32
            &&& msg@ == (match reply.error_msg {
                Some(m) => m@,
                None => "unknown"@,
            })
        },
    }
}

/// Law: a reply with status 200 yields its result; any other reply is a
/// refusal carrying the reply's error code (-1 when absent) and message
/// (`unknown` when absent); a wait that ended without a reply is a
/// connection error.
pub proof fn law_settle_outcomes(outcome: WaitOutcome, r: Result<ReplyResult, OrderError>)
    requires
        settled(outcome, r),
    ensures
        outcome matches WaitOutcome::Replied(reply) ==> (reply.status == Some(200u64) <==> r is Ok),
        outcome matches WaitOutcome::Replied(reply) ==> (reply.status == Some(200u64) ==> r == Ok::<ReplyResult, OrderError>(reply.result)),
        outcome matches WaitOutcome::Replied(reply) ==> (reply.status != Some(200u64) ==> (r matches Err(OrderError::ExchangeRejected { code, msg })
            && (reply.error_code matches Some(c) ==> code == c as i32)
            && (reply.error_code is None ==> code == -1i32)
            && (reply.error_msg matches Some(m) ==> msg@ == m@)
            && (reply.error_msg is None ==> msg@ == "unknown"@))),
        !(outcome is Replied) ==> (r matches Err(e) && e is Connection),
{
}

/// The result of a request, or the error its wait ended in.
pub fn settle(outcome: WaitOutcome) -> (r: Result<ReplyResult, OrderError>)
    ensures
        settled(outcome, r),
{
    match outcome {
        WaitOutcome::SendFailed(m) => Err(OrderError::Connection(m)),
        WaitOutcome::ChannelClosed => Err(OrderError::Connection("channel closed".to_string())),
        WaitOutcome::TimedOut => Err(OrderError::Connection("timeout".to_string())),
        WaitOutcome::Replied(reply) => {
            let accepted = match reply.status {
                Some(s) => s == 200,
                None => false,
            };
            if accepted {
                Ok(reply.result)
            } else {
                let code: i64 = match reply.error_code {
                    Some(c) => c,
                    None => -1,
                };
                let msg = match reply.error_msg {
                    Some(m) => m,
                    None => "unknown".to_string(),
                };
                Err(OrderError::ExchangeRejected { code: code as i32, msg })
            }
        },
    }
}

// ---------------------------------------------------------------------
// Signed requests
// ---------------------------------------------------------------------

/// The account's API key and signing secret.
#[derive(Clone, Debug)]
pub struct ApiCredentials {
    pub api_key: String,
    pub secret: String,
}

/// A signed request of the WebSocket API, field by field; a field that is
/// `None` is not sent.
#[derive(Clone, Debug)]
pub struct SignedRequest {
    pub id: String,
    pub method: String,
    pub symbol: String,
    pub side: Option<String>,
    pub order_type: Option<String>,
    pub quantity: Option<Dec>,
    pub order_id: Option<i64>,
    pub timestamp: u64,
    pub api_key: String,
    pub signature: String,
}

/// A request about one order already at the exchange.
#[derive(Clone, Copy, Debug, PartialEq, Eq, Structural)]
pub enum OrderQuery {
    Cancel,
    Status,
}

/// The exchange's name of a side: the side's name in upper case.
pub open spec fn side_code(side: OrderSide) -> Seq<char> {
    match side {
        OrderSide::Buy => "BUY"@,
        OrderSide::Sell => "SELL"@,
    }
}

/// The method name of a request about one order.
pub open spec fn query_method(q: OrderQuery) -> Seq<char> {
    match q {
        OrderQuery::Cancel => "order.cancel"@,
        OrderQuery::Status => "order.status"@,
    }
}

/// The signed parameters of a market order.
pub open spec fn place_params(symbol: Seq<char>, side: OrderSide, qty: Dec, ts: u64) -> Seq<char> {
    "symbol="@ + symbol + "&side="@ + side_code(side) + "&type=MARKET&quantity="@
        + decimal_to_string(qty@) + "&timestamp="@ + nat_text(ts as nat)
}

/// The signed parameters of a request about one order.
pub open spec fn order_params(symbol: Seq<char>, exchange_id: i64, ts: u64) -> Seq<char> {
    "symbol="@ + symbol + "&orderId="@ + int_text(exchange_id as int) + "&timestamp="@ + nat_text(ts as nat)
}

/// The signed parameters of a request for a symbol's open orders.
pub open spec fn open_orders_params(symbol: Seq<char>, ts: u64) -> Seq<char> {
    "symbol="@ + symbol + "&timestamp="@ + nat_text(ts as nat)
}

/// Law: sides are sent as `BUY` and `SELL`; the requests about one order
/// are `order.cancel` and `order.status`.
pub proof fn law_request_names()
    ensures
        side_code(OrderSide::Buy) == "BUY"@,
        side_code(OrderSide::Sell) == "SELL"@,
        query_method(OrderQuery::Cancel) == "order.cancel"@,
        query_method(OrderQuery::Status) == "order.status"@,
{
}

/// Law: a market order is signed over
/// `symbol=<symbol>&side=<BUY|SELL>&type=MARKET&quantity=<qty>&timestamp=<ts>`.
pub proof fn law_place_params_text(symbol: Seq<char>, qty: Dec, ts: u64)
    ensures
        place_params(symbol, OrderSide::Buy, qty, ts) == "symbol="@ + symbol + "&side=BUY&type=MARKET&quantity="@
            + decimal_to_string(qty@) + "&timestamp="@ + nat_text(ts as nat),
        place_params(symbol, OrderSide::Sell, qty, ts) == "symbol="@ + symbol + "&side=SELL&type=MARKET&quantity="@
            + decimal_to_string(qty@) + "&timestamp="@ + nat_text(ts as nat),
{
    reveal_strlit("&side=");
    reveal_strlit("BUY");
    reveal_strlit("SELL");
    reveal_strlit("&type=MARKET&quantity=");
    reveal_strlit("&side=BUY&type=MARKET&quantity=");
    reveal_strlit("&side=SELL&type=MARKET&quantity=");
    let a = "symbol="@ + symbol;
    assert(a + "&side="@ + "BUY"@ + "&type=MARKET&quantity="@ + decimal_to_string(qty@) + "&timestamp="@ + nat_text(ts as nat)
        =~= a + "&side=BUY&type=MARKET&quantity="@ + decimal_to_string(qty@) + "&timestamp="@ + nat_text(ts as nat));
    assert(a + "&side="@ + "SELL"@ + "&type=MARKET&quantity="@ + decimal_to_string(qty@) + "&timestamp="@ + nat_text(ts as nat)
        =~= a + "&side=SELL&type=MARKET&quantity="@ + decimal_to_string(qty@) + "&timestamp="@ + nat_text(ts as nat));
}

/// The signature of `params` under the account's secret.
pub open spec fn signature_of(creds: ApiCredentials, params: Seq<char>) -> Seq<char> {
    hex_lower(hmac_sha256(creds.secret@, params))
}

/// `r` places the market order `req` under request identifier `id` at `ts`.
pub open spec fn is_place_request(r: SignedRequest, creds: ApiCredentials, req: OrderRequest, id: u128, ts: u64) -> bool {
    &&& r.id@ == uuid_hyphenated(id)
    &&& r.method@ == "order.place"@
    &&& r.symbol@ == req.symbol@
    &&& r.side matches Some(s) && s@ == side_code(req.side)
    &&& r.order_type matches Some(t) && t@ == "MARKET"@
    &&& r.quantity == Some(req.qty)
    &&& r.order_id is None
    &&& r.timestamp == ts
    &&& r.api_key@ == creds.api_key@
    &&& r.signature@ == signature_of(creds, place_params(req.symbol@, req.side, req.qty, ts))
}

/// `r` asks `q` about the exchange's order `exchange_id` of `symbol`, under
/// request identifier `id` at `ts`.
pub open spec fn is_order_request(
    r: SignedRequest,
    creds: ApiCredentials,
    q: OrderQuery,
    symbol: Seq<char>,
    exchange_id: i64,
    id: u128,
    ts: u64,
) -> bool {
    &&& r.id@ == uuid_hyphenated(id)
    &&& r.method@ == query_method(q)
    &&& r.symbol@ == symbol
    &&& r.side is None
    &&& r.order_type is None
    &&& r.quantity is None
    &&& r.order_id == Some(exchange_id)
    &&& r.timestamp == ts
    &&& r.api_key@ == creds.api_key@
    &&& r.signature@ == signature_of(creds, order_params(symbol, exchange_id, ts))
}

/// `r` asks for the open orders of `symbol`, under request identifier `id`
/// at `ts`.
pub open spec fn is_open_orders_request(r: SignedRequest, creds: ApiCredentials, symbol: Seq<char>, id: u128, ts: u64) -> bool {
    &&& r.id@ == uuid_hyphenated(id)
    &&& r.method@ == "openOrders.status"@
    &&& r.symbol@ == symbol
    &&& r.side is None
    &&& r.order_type is None
    &&& r.quantity is None
    &&& r.order_id is None
    &&& r.timestamp == ts
    &&& r.api_key@ == creds.api_key@
    &&& r.signature@ == signature_of(creds, open_orders_params(symbol, ts))
}

fn side_text(side: OrderSide) -> (r: String)
    ensures
        r@ == side_code(side),
{
    match side {
        OrderSide::Buy => "BUY".to_string(),
        OrderSide::Sell => "SELL".to_string(),
    }
}

/// The text `a` followed by `b`.
fn joined(mut a: String, b: &str) -> (r: String)
    ensures
        r@ == a@ + b@,
{
    a.append(b);
    a
}

/// The parameters of a market order, in the order the exchange signs them.
pub fn place_params_text(symbol: &str, side: OrderSide, qty: Dec, ts: u64) -> (r: String)
    ensures
        r@ == place_params(symbol@, side, qty, ts),
{
    let s = joined("symbol=".to_string(), symbol);
    let s = joined(s, "&side=");
    let side = side_text(side);
    let s = joined(s, side.as_str());
    let s = joined(s, "&type=MARKET&quantity=");
    let q = decimal_text(qty);
    let s = joined(s, q.as_str());
    let s = joined(s, "&timestamp=");
    let t = u64_text(ts);
    joined(s, t.as_str())
}

/// The parameters of a request about one order.
pub fn order_params_text(symbol: &str, exchange_id: i64, ts: u64) -> (r: String)
    ensures
        r@ == order_params(symbol@, exchange_id, ts),
{
    let s = joined("symbol=".to_string(), symbol);
    let s = joined(s, "&orderId=");
    let e = i64_text(exchange_id);
    let s = joined(s, e.as_str());
    let s = joined(s, "&timestamp=");
    let t = u64_text(ts);
    joined(s, t.as_str())
}

/// The parameters of a request for a symbol's open orders.
pub fn open_orders_params_text(symbol: &str, ts: u64) -> (r: String)
    ensures
        r@ == open_orders_params(symbol@, ts),
{
    let s = joined("symbol=".to_string(), symbol);
    let s = joined(s, "&timestamp=");
    let t = u64_text(ts);
    joined(s, t.as_str())
}

/// The signed request placing the market order `req`, identified by `id`
/// and stamped `ts`.
pub fn place_request_at(creds: &ApiCredentials, req: &OrderRequest, id: u128, ts: u64) -> (r: SignedRequest)
    ensures
        is_place_request(r, *creds, *req, id, ts),
{
    let params = place_params_text(req.symbol.as_str(), req.side, req.qty, ts);
    let signature = sign(creds.secret.as_str(), params.as_str());
    SignedRequest {
        id: order_id_text(id),
        method: "order.place".to_string(),
        symbol: req.symbol.clone(),
        side: Some(side_text(req.side)),
        order_type: Some("MARKET".to_string()),
        quantity: Some(req.qty),
        order_id: None,
        timestamp: ts,
        api_key: creds.api_key.clone(),
        signature,
    }
}

/// The signed request asking `q` about the exchange's order `exchange_id`,
/// identified by `id` and stamped `ts`.
pub fn order_request_at(
    creds: &ApiCredentials,
    q: OrderQuery,
    symbol: &str,
    exchange_id: i64,
    id: u128,
    ts: u64,
) -> (r: SignedRequest)
    ensures
        is_order_request(r, *creds, q, symbol@, exchange_id, id, ts),
{
    let params = order_params_text(symbol, exchange_id, ts);
    let signature = sign(creds.secret.as_str(), params.as_str());
    let method = match q {
        OrderQuery::Cancel => "order.cancel".to_string(),
        OrderQuery::Status => "order.status".to_string(),
    };
    SignedRequest {
        id: order_id_text(id),
        method,
        symbol: symbol.to_string(),
        side: None,
        order_type: None,
        quantity: None,
        order_id: Some(exchange_id),
        timestamp: ts,
        api_key: creds.api_key.clone(),
        signature,
    }
}

/// The signed request for the open orders of `symbol`, identified by `id`
/// and stamped `ts`.
pub fn open_orders_request_at(creds: &ApiCredentials, symbol: &str, id: u128, ts: u64) -> (r: SignedRequest)
    ensures
        is_open_orders_request(r, *creds, symbol@, id, ts),
{
    let params = open_orders_params_text(symbol, ts);
    let signature = sign(creds.secret.as_str(), params.as_str());
    SignedRequest {
        id: order_id_text(id),
        method: "openOrders.status".to_string(),
        symbol: symbol.to_string(),
        side: None,
        order_type: None,
        quantity: None,
        order_id: None,
        timestamp: ts,
        api_key: creds.api_key.clone(),
        signature,
    }
}

/// The request placing `req` as the order identified by `order_id`,
/// stamped with the current time.
pub fn place_request(creds: &ApiCredentials, req: &OrderRequest, order_id: u128) -> (r: SignedRequest)
    ensures
        is_place_request(r, *creds, *req, order_id, r.timestamp),
{
    let ts = timestamp_ms();
    place_request_at(creds, req, order_id, ts)
}

/// A request asking `q` about the exchange's order `exchange_id`, with a
/// fresh identifier and the current time.
pub fn order_request(creds: &ApiCredentials, q: OrderQuery, symbol: &str, exchange_id: i64) -> (r: SignedRequest)
    ensures
        exists|id: u128| is_order_request(r, *creds, q, symbol@, exchange_id, id, r.timestamp),
{
    let id = new_order_id();
    let ts = timestamp_ms();
    order_request_at(creds, q, symbol, exchange_id, id, ts)
}

/// A request for the open orders of `symbol`, with a fresh identifier and
/// the current time.
pub fn open_orders_request(creds: &ApiCredentials, symbol: &str) -> (r: SignedRequest)
    ensures
        exists|id: u128| is_open_orders_request(r, *creds, symbol@, id, r.timestamp),
{
    let id = new_order_id();
    let ts = timestamp_ms();
    open_orders_request_at(creds, symbol, id, ts)
}

// ---------------------------------------------------------------------
// Orders after a reply
// ---------------------------------------------------------------------

/// `t` holds exactly the text `lit`.
pub open spec fn is_text(t: Option<String>, lit: Seq<char>) -> bool {
    t matches Some(s) && s@ == lit
}

/// The order status an exchange status text names, for the statuses the
/// executor follows.
pub open spec fn exchange_status(t: Option<String>) -> Option<OrderStatus> {
    if is_text(t, "FILLED"@) {
        Some(OrderStatus::Filled)
    } else if is_text(t, "PARTIALLY_FILLED"@) {
        Some(OrderStatus::PartiallyFilled)
    } else if is_text(t, "CANCELED"@) {
        Some(OrderStatus::Cancelled)
    } else if is_text(t, "EXPIRED"@) {
        Some(OrderStatus::Expired)
    } else if is_text(t, "REJECTED"@) {
        Some(OrderStatus::Rejected)
    } else {
        None
    }
}

/// Law: the exchange's status texts name the order statuses the executor
/// follows: `FILLED`, `PARTIALLY_FILLED`, `CANCELED`, `EXPIRED` and
/// `REJECTED`; `NEW` and a missing status name none.
pub proof fn law_exchange_status_names(t: Option<String>)
    ensures
        is_text(t, "FILLED"@) ==> exchange_status(t) == Some(OrderStatus::Filled),
        is_text(t, "PARTIALLY_FILLED"@) ==> exchange_status(t) == Some(OrderStatus::PartiallyFilled),
        is_text(t, "CANCELED"@) ==> exchange_status(t) == Some(OrderStatus::Cancelled),
        is_text(t, "EXPIRED"@) ==> exchange_status(t) == Some(OrderStatus::Expired),
        is_text(t, "REJECTED"@) ==> exchange_status(t) == Some(OrderStatus::Rejected),
        is_text(t, "NEW"@) ==> exchange_status(t) is None,
        t is None ==> exchange_status(t) is None,
{
    reveal_strlit("FILLED");
    reveal_strlit("PARTIALLY_FILLED");
    reveal_strlit("CANCELED");
    reveal_strlit("EXPIRED");
    reveal_strlit("REJECTED");
    reveal_strlit("NEW");
    if let Some(x) = t {
        let v = x@;
        if v == "PARTIALLY_FILLED"@ {
            assert(v.len() != "FILLED"@.len());
        }
        if v == "CANCELED"@ {
            assert(v[0] != "FILLED"@[0] && v.len() != "PARTIALLY_FILLED"@.len());
        }
        if v == "EXPIRED"@ {
            assert(v[0] != "FILLED"@[0] && v.len() != "PARTIALLY_FILLED"@.len() && v[0] != "CANCELED"@[0]);
        }
        if v == "REJECTED"@ {
            assert(v[0] != "FILLED"@[0] && v.len() != "PARTIALLY_FILLED"@.len() && v[0] != "CANCELED"@[0]
                && v[0] != "EXPIRED"@[0]);
        }
        if v == "NEW"@ {
            assert(v.len() != "FILLED"@.len() && v.len() != "PARTIALLY_FILLED"@.len() && v.len() != "CANCELED"@.len()
                && v.len() != "EXPIRED"@.len() && v.len() != "REJECTED"@.len());
        }
    }
}

/// Whether `t` holds exactly the text `lit`.
pub fn text_is(t: &Option<String>, lit: &str) -> (r: bool)
    ensures
        r == is_text(*t, lit@),
{
    match t {
        Some(s) => text_eq(s.as_str(), lit),
        None => false,
    }
}

/// The order status an exchange status text names, if the executor
/// follows it.
pub fn status_from_exchange(t: &Option<String>) -> (r: Option<OrderStatus>)
    ensures
        r == exchange_status(*t),
{
    if text_is(t, "FILLED") {
        Some(OrderStatus::Filled)
    } else if text_is(t, "PARTIALLY_FILLED") {
        Some(OrderStatus::PartiallyFilled)
    } else if text_is(t, "CANCELED") {
        Some(OrderStatus::Cancelled)
    } else if text_is(t, "EXPIRED") {
        Some(OrderStatus::Expired)
    } else if text_is(t, "REJECTED") {
        Some(OrderStatus::Rejected)
    } else {
        None
    }
}

/// The tracked order that a lookup by identifier found, or the error that
/// names the identifier it did not find.
pub fn require_found(found: Option<Order>, id: u128) -> (r: Result<Order, OrderError>)
    ensures
        found matches Some(o) ==> r == Ok::<Order, OrderError>(o),
        found is None ==> (r matches Err(OrderError::NotFound(m)) && m@ == uuid_hyphenated(id)),
{
    match found {
        Some(o) => Ok(o),
        None => Err(OrderError::NotFound(order_id_text(id))),
    }
}

/// The exchange's identifier of `order`; an order the exchange never
/// acknowledged has none, and the error says so.
pub fn exchange_id_of(order: &Order) -> (r: Result<i64, OrderError>)
    ensures
        order.exchange_order_id matches Some(e) ==> r == Ok::<i64, OrderError>(e),
        order.exchange_order_id is None ==> (r matches Err(OrderError::NotFound(m))
            && m@ == "exchange_order_id 없음"@),
{
    match order.exchange_order_id {
        Some(e) => Ok(e),
        None => Err(OrderError::NotFound("exchange_order_id 없음".to_string())),
    }
}

/// The order as the exchange accepted it: its identifier at the exchange
/// recorded, its status new.
pub fn accept_placed(order: Order, result: &ReplyResult) -> (r: Order)
    ensures
        r == (Order { exchange_order_id: result.order_id, status: OrderStatus::New, ..order }),
{
    let mut o = order;
    o.exchange_order_id = result.order_id;
    o.status = OrderStatus::New;
    o
}

/// The order after a cancel reply at `now`, and whether it changed: a reply
/// whose status is `CANCELED` marks it cancelled; any other leaves it.
pub fn apply_cancel_reply_at(order: Order, result: &ReplyResult, now: UtcTime) -> (r: (Order, bool))
    ensures
        is_text(result.status, "CANCELED"@) ==> r == (Order { status: OrderStatus::Cancelled, updated_at: now, ..order }, true),
        !is_text(result.status, "CANCELED"@) ==> r == (order, false),
{
    if text_is(&result.status, "CANCELED") {
        let mut o = order;
        o.status = OrderStatus::Cancelled;
        o.updated_at = now;
        (o, true)
    } else {
        (order, false)
    }
}

/// The order after a cancel reply, stamped with the current time when it
/// changed.
pub fn apply_cancel_reply(order: Order, result: &ReplyResult) -> (r: (Order, bool))
    ensures
        is_text(result.status, "CANCELED"@) ==> r == (Order { status: OrderStatus::Cancelled, updated_at: r.0.updated_at, ..order }, true),
        !is_text(result.status, "CANCELED"@) ==> r == (order, false),
{
    let now = utc_now();
    apply_cancel_reply_at(order, result, now)
}

/// The status an order has after a status reply: the one the reply names
/// when the executor follows it, otherwise the status it had.
pub open spec fn queried_status(t: Option<String>, current: OrderStatus) -> OrderStatus {
    match exchange_status(t) {
        Some(s) => s,
        None => current,
    }
}

/// The order after a status reply at `now`.
pub fn apply_status_reply_at(order: Order, result: &ReplyResult, now: UtcTime) -> (r: Order)
    ensures
        r == (Order { status: queried_status(result.status, order.status), updated_at: now, ..order }),
{
    let status = match status_from_exchange(&result.status) {
        Some(s) => s,
        None => order.status,
    };
    let mut o = order;
    o.status = status;
    o.updated_at = now;
    o
}

/// The order after a status reply, stamped with the current time.
pub fn apply_status_reply(order: Order, result: &ReplyResult) -> (r: Order)
    ensures
        r == (Order { status: queried_status(result.status, order.status), updated_at: r.updated_at, ..order }),
{
    let now = utc_now();
    apply_status_reply_at(order, result, now)
}

// ---------------------------------------------------------------------
// Open orders against the exchange's list
// ---------------------------------------------------------------------

/// The entries of a reply's array, as a sequence.
pub open spec fn entries_view(e: Option<Vec<Option<i64>>>) -> Option<Seq<Option<i64>>> {
    match e {
        Some(v) => Some(v@),
        None => None,
    }
}

/// The exchange lists the order `id` among the entries.
pub open spec fn listed(entries: Option<Seq<Option<i64>>>, id: i64) -> bool {
    entries matches Some(es) && es.contains(Some(id))
}

/// A tracked order that the exchange acknowledged but no longer lists.
pub open spec fn vanished(o: Order, entries: Option<Seq<Option<i64>>>) -> bool {
    o.exchange_order_id matches Some(e) && !listed(entries, e)
}

/// The order after comparing it with the exchange's list at `now`: one that
/// vanished has expired.
pub open spec fn reconciled(o: Order, entries: Option<Seq<Option<i64>>>, now: UtcTime) -> Order {
    if vanished(o, entries) {
        Order { status: OrderStatus::Expired, updated_at: now, ..o }
    } else {
        o
    }
}

/// A status under which an order can still trade.
pub open spec fn is_open_status(s: OrderStatus) -> bool {
    s == OrderStatus::New || s == OrderStatus::PartiallyFilled
}

/// The orders that vanished, expired, in their order.
pub open spec fn expired_orders(db: Seq<Order>, entries: Option<Seq<Option<i64>>>, now: UtcTime) -> Seq<Order>
    decreases db.len(),
{
    if db.len() == 0 {
        Seq::empty()
    } else {
        let rest = expired_orders(db.drop_last(), entries, now);
        if vanished(db.last(), entries) {
            rest.push(reconciled(db.last(), entries, now))
        } else {
            rest
        }
    }
}

/// The orders, compared with the exchange's list, that are still open.
pub open spec fn still_open(db: Seq<Order>, entries: Option<Seq<Option<i64>>>, now: UtcTime) -> Seq<Order>
    decreases db.len(),
{
    if db.len() == 0 {
        Seq::empty()
    } else {
        let rest = still_open(db.drop_last(), entries, now);
        let o = reconciled(db.last(), entries, now);
        if is_open_status(o.status) {
            rest.push(o)
        } else {
            rest
        }
    }
}

/// What comparing the tracked open orders with the exchange's list gives:
/// the orders to store as expired, and those still open.
#[derive(Clone, Debug)]
pub struct Reconciliation {
    pub expired: Vec<Order>,
    pub open: Vec<Order>,
}

/// Whether the exchange lists the order `id`.
pub fn is_listed(entries: &Option<Vec<Option<i64>>>, id: i64) -> (r: bool)
    ensures
        r == listed(entries_view(*entries), id),
{
    match entries {
        None => false,
        Some(es) => {
            let n = es.len();
            let mut i: usize = 0;
            while i < n
                invariant
                    n == es@.len(),
                    i <= n,
                    entries_view(*entries) == Some(es@),
                    forall|j: int| 0 <= j < i ==> es@[j] != Some(id),
                decreases n - i,
            {
                let hit = match es[i] {
                    Some(v) => v == id,
                    None => false,
                };
                if hit {
                    proof {
                        assert(es@[i as int] == Some(id));
                        assert(es@.contains(Some(id)));
                    }
                    return true;
                }
                i = i + 1;
            }
            false
        },
    }
}

/// The tracked open orders `db` compared with the exchange's list at `now`:
/// each order the exchange acknowledged but no longer lists expires; the
/// orders still new or partly filled are returned.
pub fn reconcile_open_orders_at(db: &Vec<Order>, entries: &Option<Vec<Option<i64>>>, now: UtcTime) -> (r: Reconciliation)
    ensures
        r.expired@ == expired_orders(db@, entries_view(*entries), now),
        r.open@ == still_open(db@, entries_view(*entries), now),
{
    let ghost es = entries_view(*entries);
    let mut expired: Vec<Order> = Vec::new();
    let mut open: Vec<Order> = Vec::new();
    let n = db.len();
    let mut i: usize = 0;
    while i < n
        invariant
            n == db@.len(),
            i <= n,
            es == entries_view(*entries),
            expired@ == expired_orders(db@.take(i as int), es, now),
            open@ == still_open(db@.take(i as int), es, now),
        decreases n - i,
    {
        proof {
            assert(db@.take(i + 1).drop_last() =~= db@.take(i as int));
            assert(db@.take(i + 1).last() == db@[i as int]);
        }
        let mut o = db[i].duplicate();
        let gone = match o.exchange_order_id {
            Some(e) => !is_listed(entries, e),
            None => false,
        };
        if gone {
            o.status = OrderStatus::Expired;
            o.updated_at = now;
            expired.push(o.duplicate());
        }
        if o.status == OrderStatus::New || o.status == OrderStatus::PartiallyFilled {
            open.push(o);
        }
        i = i + 1;
    }
    proof {
        assert(db@.take(n as int) =~= db@);
    }
    Reconciliation { expired, open }
}

/// The tracked open orders compared with the exchange's reply, expiring
/// vanished orders at the current time.
pub fn reconcile_open_orders(db: &Vec<Order>, result: &ReplyResult) -> (r: Reconciliation)
    ensures
        exists|now: UtcTime|
            r.expired@ == expired_orders(db@, entries_view(result.entries), now)
            && r.open@ == still_open(db@, entries_view(result.entries), now),
{
    let now = utc_now();
    reconcile_open_orders_at(db, &result.entries, now)
}

/// Reconciliation returns only orders that can still trade, and none that
/// the exchange acknowledged but no longer lists.
pub proof fn law_reconciled_orders_are_live(db: Seq<Order>, entries: Option<Seq<Option<i64>>>, now: UtcTime)
    ensures
        forall|k: int| 0 <= k < still_open(db, entries, now).len() ==> {
            let o = #[trigger] still_open(db, entries, now)[k];
            &&& is_open_status(o.status)
            &&& !vanished(o, entries)
        },
    decreases db.len(),
{
    if db.len() > 0 {
        law_reconciled_orders_are_live(db.drop_last(), entries, now);
    }
}

/// Every order that reconciliation expires is one the exchange acknowledged
/// and no longer lists, and it comes out expired.
pub proof fn law_expired_orders_vanished(db: Seq<Order>, entries: Option<Seq<Option<i64>>>, now: UtcTime)
    ensures
        forall|k: int| 0 <= k < expired_orders(db, entries, now).len() ==> {
            let o = #[trigger] expired_orders(db, entries, now)[k];
            &&& o.status == OrderStatus::Expired
            &&& o.updated_at == now
            &&& o.exchange_order_id matches Some(e) && !listed(entries, e)
        },
    decreases db.len(),
{
    if db.len() > 0 {
        law_expired_orders_vanished(db.drop_last(), entries, now);
    }
}

// ---------------------------------------------------------------------
// Account events
// ---------------------------------------------------------------------

/// The order part of an `ORDER_TRADE_UPDATE` account event, field by field
/// as the exchange names them.
#[derive(Clone, Debug)]
pub struct OrderTradeUpdate {
    /// `i`: the order's identifier at the exchange.
    pub exchange_order_id: Option<i64>,
    /// `x`: the execution type; `TRADE` for a fill.
    pub execution_type: Option<String>,
    /// `X`: the order's status.
    pub order_status: Option<String>,
    /// `S`: the side, `BUY` or `SELL`.
    pub side: Option<String>,
    /// `l`: quantity of this fill.
    pub last_qty: Option<String>,
    /// `L`: price of this fill.
    pub last_price: Option<String>,
    /// `n`: fee of this fill.
    pub fee: Option<String>,
    /// `N`: asset the fee was paid in.
    pub fee_asset: Option<String>,
    /// `T`: trade time in milliseconds since the epoch.
    pub trade_time_ms: Option<i64>,
    /// `z`: quantity filled so far.
    pub cumulative_qty: Option<String>,
    /// `ap`: average fill price.
    pub avg_price: Option<String>,
}

/// What a text frame of the user-data stream holds, as
/// `serde_json::from_str::<serde_json::Value>` parses it: the event type
/// `e` when it is a string, and the order part `o` read field by field as
/// `OrderTradeUpdate` describes; `None` where the text is not JSON.
pub uninterp spec fn account_frame(text: Seq<char>) -> Option<(Option<String>, OrderTradeUpdate)>;

/// Calls `serde_json::from_str` on a frame of the user-data stream and
/// reads `e` and the fields of `o` with `serde_json::Value`'s indexing and
/// `as_str` and `as_i64`: the result is what serde_json gives for this
/// text.
#[verifier::external_body]
fn decode_account_frame(text: &str) -> (r: Option<(Option<String>, OrderTradeUpdate)>)
    ensures
        r == account_frame(text@),
{
    let v: serde_json::Value = serde_json::from_str(text).ok()?;
    let o = &v["o"];
    let field = |k: &str| o[k].as_str().map(str::to_string);
    Some((v["e"].as_str().map(str::to_string), OrderTradeUpdate {
        exchange_order_id: o["i"].as_i64(), execution_type: field("x"), order_status: field("X"), side: field("S"),
        last_qty: field("l"), last_price: field("L"), fee: field("n"), fee_asset: field("N"),
        trade_time_ms: o["T"].as_i64(), cumulative_qty: field("z"), avg_price: field("ap"),
    }))
}

/// Whether an account event of this type is handed on: only
/// `ORDER_TRADE_UPDATE` is.
pub fn forwards_update(event_type: &Option<String>) -> (r: bool)
    ensures
        r == is_text(*event_type, "ORDER_TRADE_UPDATE"@),
{
    match event_type {
        Some(t) => {
            let lit = "ORDER_TRADE_UPDATE";
            proof {
                reveal_strlit("ORDER_TRADE_UPDATE");
            }
            text_eq(t.as_str(), lit)
        },
        None => false,
    }
}

/// The order update a frame of the user-data stream hands on: the `o` part
/// of an `ORDER_TRADE_UPDATE` event, `None` for any other frame.
pub fn order_trade_update_of(text: &str) -> (r: Option<OrderTradeUpdate>)
    ensures
        r == (match account_frame(text@) {
            Some((e, upd)) => if is_text(e, "ORDER_TRADE_UPDATE"@) { Some(upd) } else { None },
            None => None,
        }),
{
    match decode_account_frame(text) {
        Some((e, upd)) => if forwards_update(&e) { Some(upd) } else { None },
        None => None,
    }
}

/// What an account event does: the fill to record, if it reports one, and
/// the order to store, if it reports a status the executor follows.
#[derive(Clone, Debug)]
pub struct TradeUpdateEffect {
    pub fill: Option<Fill>,
    pub updated: Option<Order>,
}

/// The decimal a text field spells, reading a missing field as `0` and an
/// unreadable one as zero.
pub open spec fn dec_or_zero(t: Option<String>) -> Dec {
    let text = match t {
        Some(s) => s@,
        None => "0"@,
    };
    match opt_dec(decimal_from_str(text)) {
        Some(d) => d,
        None => Dec::spec_zero(),
    }
}

/// When a fill happened: its trade time where chrono has an instant for
/// it (a missing time read as 0), otherwise `now`.
pub open spec fn trade_time(ms: Option<i64>, now: UtcTime) -> UtcTime {
    let ms = match ms {
        Some(v) => v,
        None => 0i64,
    };
    match time_of(chrono_from_millis(ms)) {
        Some(t) => t,
        None => now,
    }
}

/// The trade time of an event in milliseconds, 0 when it has none.
pub open spec fn trade_ms(ms: Option<i64>) -> i64 {
    match ms {
        Some(v) => v,
        None => 0i64,
    }
}

/// A fill of a trade at a time chrono can represent happened at that time.
pub open spec fn fill_at_trade_time(r: TradeUpdateEffect, upd: OrderTradeUpdate) -> bool {
    r.fill is Some && in_chrono_range(trade_ms(upd.trade_time_ms)) ==> (
        r.fill->0.filled_at.total_nanos() == trade_ms(upd.trade_time_ms) * 1_000_000
        && r.fill->0.filled_at.nanos < 1_000_000_000)
}

/// `f` is the fill that `upd` reports for `order`, with `now` as the time
/// of a fill whose trade time has no instant.
pub open spec fn is_reported_fill(f: Fill, order: Order, upd: OrderTradeUpdate, now: UtcTime) -> bool {
    &&& f.order_id == order.id
    &&& f.symbol@ == order.symbol@
    &&& f.side == (if is_text(upd.side, "BUY"@) { OrderSide::Buy } else { OrderSide::Sell })
    &&& f.qty == dec_or_zero(upd.last_qty)
    &&& f.price == dec_or_zero(upd.last_price)
    &&& f.fee == dec_or_zero(upd.fee)
    &&& f.fee_asset@ == (match upd.fee_asset {
        Some(a) => a@,
        None => "USDT"@,
    })
    &&& f.filled_at == trade_time(upd.trade_time_ms, now)
}

/// Law: an event that reports a trade yields a fill; its side is buy when
/// the event's side is `BUY` and sell when it is `SELL`; it belongs to the
/// tracked order, and the fee is paid in the reported asset, `USDT` when
/// none is reported.
pub proof fn law_trade_fill_side(r: TradeUpdateEffect, order: Order, upd: OrderTradeUpdate, now: UtcTime)
    requires
        is_update_effect(r, order, upd, now),
        is_text(upd.execution_type, "TRADE"@),
    ensures
        r.fill is Some,
        r.fill->0.order_id == order.id,
        r.fill->0.symbol@ == order.symbol@,
        is_text(upd.side, "BUY"@) ==> r.fill->0.side == OrderSide::Buy,
        is_text(upd.side, "SELL"@) ==> r.fill->0.side == OrderSide::Sell,
        upd.fee_asset is None ==> r.fill->0.fee_asset@ == "USDT"@,
        upd.fee_asset matches Some(a) ==> r.fill->0.fee_asset@ == a@,
{
    reveal_strlit("BUY");
    reveal_strlit("SELL");
    if is_text(upd.side, "SELL"@) {
        assert("SELL"@[0] != "BUY"@[0]);
    }
}

/// Law: an event that reports no trade yields no fill.
pub proof fn law_no_trade_no_fill(r: TradeUpdateEffect, order: Order, upd: OrderTradeUpdate, now: UtcTime)
    requires
        is_update_effect(r, order, upd, now),
        !is_text(upd.execution_type, "TRADE"@),
    ensures
        r.fill is None,
{
}

/// The average fill price an order records: none for a zero average.
pub open spec fn recorded_avg(avg: Dec) -> Option<Dec> {
    if avg@.0 == 0 {
        None
    } else {
        Some(avg)
    }
}

/// `order` after an event that reports the status `st`, stored at `now`.
pub open spec fn status_updated(order: Order, upd: OrderTradeUpdate, st: OrderStatus, now: UtcTime) -> Order {
    Order {
        status: st,
        filled_qty: dec_or_zero(upd.cumulative_qty),
        avg_fill_price: recorded_avg(dec_or_zero(upd.avg_price)),
        updated_at: now,
        ..order
    }
}

/// `r` is what the event `upd` does to `order` at `now`: a fill exactly
/// when the execution type is `TRADE`, an updated order exactly when the
/// status is one the executor follows.
pub open spec fn is_update_effect(r: TradeUpdateEffect, order: Order, upd: OrderTradeUpdate, now: UtcTime) -> bool {
    &&& (is_text(upd.execution_type, "TRADE"@) <==> r.fill is Some)
    &&& (r.fill matches Some(f) ==> is_reported_fill(f, order, upd, now))
    &&& r.updated == (match exchange_status(upd.order_status) {
        Some(st) => Some(status_updated(order, upd, st, now)),
        None => None,
    })
}

/// The decimal a text field spells; a missing field reads as `0`, an
/// unreadable one as zero.
pub fn decimal_or_zero(t: &Option<String>) -> (r: Dec)
    ensures
        r == dec_or_zero(*t),
{
    let text: &str = match t {
        Some(s) => s.as_str(),
        None => "0",
    };
    match parse_decimal(text) {
        Some(d) => d,
        None => Dec::zero(),
    }
}

/// The instant of a fill: its trade time where chrono has an instant for
/// it, otherwise `now`.
pub fn fill_time(ms: Option<i64>, now: UtcTime) -> (r: UtcTime)
    ensures
        r == trade_time(ms, now),
        in_chrono_range(trade_ms(ms)) ==> r.total_nanos() == trade_ms(ms) * 1_000_000 && r.nanos < 1_000_000_000,
{
    let ms: i64 = match ms {
        Some(v) => v,
        None => 0,
    };
    match utc_from_millis(ms) {
        Some(t) => t,
        None => now,
    }
}

/// What the account event `upd` does to the tracked `order` at `now`.
pub fn apply_trade_update_at(order: Order, upd: &OrderTradeUpdate, now: UtcTime) -> (r: TradeUpdateEffect)
    ensures
        is_update_effect(r, order, *upd, now),
        fill_at_trade_time(r, *upd),
{
    let fill = if text_is(&upd.execution_type, "TRADE") {
        let side = if text_is(&upd.side, "BUY") {
            OrderSide::Buy
        } else {
            OrderSide::Sell
        };
        let fee_asset = match &upd.fee_asset {
            Some(a) => a.clone(),
            None => "USDT".to_string(),
        };
        Some(
            Fill {
                order_id: order.id,
                symbol: order.symbol.clone(),
                side,
                qty: decimal_or_zero(&upd.last_qty),
                price: decimal_or_zero(&upd.last_price),
                fee: decimal_or_zero(&upd.fee),
                fee_asset,
                filled_at: fill_time(upd.trade_time_ms, now),
            },
        )
    } else {
        None
    };
    let updated = match status_from_exchange(&upd.order_status) {
        Some(st) => {
            let filled_qty = decimal_or_zero(&upd.cumulative_qty);
            let avg = decimal_or_zero(&upd.avg_price);
            let mut o = order;
            o.status = st;
            o.filled_qty = filled_qty;
            o.avg_fill_price = if avg.is_zero() {
                None
            } else {
                Some(avg)
            };
            o.updated_at = now;
            Some(o)
        },
        None => None,
    };
    TradeUpdateEffect { fill, updated }
}

/// What the account event `upd` does to the tracked `order`, at the
/// current time.
pub fn apply_trade_update(order: Order, upd: &OrderTradeUpdate) -> (r: TradeUpdateEffect)
    ensures
        exists|now: UtcTime| is_update_effect(r, order, *upd, now),
        fill_at_trade_time(r, *upd),
{
    let now = utc_now();
    apply_trade_update_at(order, upd, now)
}

// ---------------------------------------------------------------------
// Endpoints
// ---------------------------------------------------------------------

/// Where the live executor connects.
#[derive(Clone, Debug)]
pub struct ExchangeEndpoints {
    pub order_ws_url: String,
    pub user_stream_base: String,
    pub rest_base: String,
}

/// The order WebSocket endpoint of the test or main network.
pub open spec fn order_ws_url_spec(testnet: bool) -> Seq<char> {
    if testnet {
        "wss://testnet.binancefuture.com/ws-fapi/v1"@
    } else {
        "wss://ws-fapi.binance.com/ws-fapi/v1"@
    }
}

/// The user-data stream base of the test or main network.
pub open spec fn user_stream_base_spec(testnet: bool) -> Seq<char> {
    if testnet {
        "wss://stream.binancefuture.com/ws"@
    } else {
        "wss://fstream.binance.com/ws"@
    }
}

/// The REST base of the test or main network.
pub open spec fn rest_base_spec(testnet: bool) -> Seq<char> {
    if testnet {
        "https://testnet.binancefuture.com"@
    } else {
        "https://fapi.binance.com"@
    }
}

impl ExchangeEndpoints {
    /// The endpoints of the test network or of the main network.
    pub fn for_network(testnet: bool) -> (r: ExchangeEndpoints)
        ensures
            r.order_ws_url@ == order_ws_url_spec(testnet),
            r.user_stream_base@ == user_stream_base_spec(testnet),
            r.rest_base@ == rest_base_spec(testnet),
    {
        if testnet {
            ExchangeEndpoints {
                order_ws_url: "wss://testnet.binancefuture.com/ws-fapi/v1".to_string(),
                user_stream_base: "wss://stream.binancefuture.com/ws".to_string(),
                rest_base: "https://testnet.binancefuture.com".to_string(),
            }
        } else {
            ExchangeEndpoints {
                order_ws_url: "wss://ws-fapi.binance.com/ws-fapi/v1".to_string(),
                user_stream_base: "wss://fstream.binance.com/ws".to_string(),
                rest_base: "https://fapi.binance.com".to_string(),
            }
        }
    }

    /// The REST address that issues and renews listen keys.
    pub fn listen_key_url(&self) -> (r: String)
        ensures
            r@ == self.rest_base@ + "/fapi/v1/listenKey"@,
    {
        joined(self.rest_base.clone(), "/fapi/v1/listenKey")
    }

    /// The user-data stream address for a listen key.
    pub fn user_stream_url(&self, listen_key: &str) -> (r: String)
        ensures
            r@ == self.user_stream_base@ + "/"@ + listen_key@,
    {
        joined(joined(self.user_stream_base.clone(), "/"), listen_key)
    }
}

} // verus!
