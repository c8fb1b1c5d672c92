use rust_decimal::Decimal;
use std::str::FromStr;
use trading_bot::decimal::Dec;
use trading_bot::domain::clock::UtcTime;
use trading_bot::domain::order::{Order, OrderError, OrderRequest, OrderSide, OrderStatus, OrderType};
use trading_bot::order::live::{
    accept_placed, apply_cancel_reply_at, apply_status_reply_at, apply_trade_update_at, exchange_id_of,
    open_orders_params_text, order_params_text, order_request_at, place_params_text, place_request_at,
    reconcile_open_orders_at, require_found, settle, ApiCredentials, ExchangeEndpoints, ExchangeReply,
    OrderQuery, OrderTradeUpdate, ReplyResult, WaitOutcome,
};
use trading_bot::order::live::{forwards_update, order_trade_update_of, route_order_frame, route_reply};
use trading_bot::order::signing::sign;

fn d(s: &str) -> Dec {
    let x = Decimal::from_str(s).unwrap();
    Dec::from_parts(x.mantissa(), x.scale()).unwrap()
}

fn val(x: Dec) -> Decimal {
    Decimal::from_i128_with_scale(x.mantissa(), x.scale())
}

fn num(s: &str) -> Decimal {
    Decimal::from_str(s).unwrap()
}

fn empty_result() -> ReplyResult {
    ReplyResult { order_id: None, status: None, entries: None }
}

fn at(secs: i64) -> UtcTime {
    UtcTime { secs, nanos: 0 }
}

fn order(id: u128, exchange: Option<i64>, status: OrderStatus) -> Order {
    let req = OrderRequest {
        symbol: "BTCUSDT".into(),
        order_type: OrderType::Market,
        side: OrderSide::Buy,
        qty: d("1"),
        ..Default::default()
    };
    let mut o = Order::from_request_at(req, id, at(100));
    o.exchange_order_id = exchange;
    o.status = status;
    o
}

fn creds() -> ApiCredentials {
    ApiCredentials { api_key: "key".into(), secret: "Jefe".into() }
}

#[test]
fn hmac_signature_matches_known_vector() {
    assert_eq!(
        sign("Jefe", "what do ya want for nothing?"),
        "5bdcc146bf60754e6a042426089575c75a003f089d2739839dec58b964ec3843"
    );
}

#[test]
fn number_texts() {
    assert_eq!(open_orders_params_text("X", 0), "symbol=X&timestamp=0");
    assert_eq!(open_orders_params_text("X", 1700000000123), "symbol=X&timestamp=1700000000123");
    assert_eq!(order_params_text("X", -42, 1), "symbol=X&orderId=-42&timestamp=1");
}

#[test]
fn place_parameters_in_signed_order() {
    assert_eq!(
        place_params_text("BTCUSDT", OrderSide::Sell, d("0.001"), 1700000000000),
        "symbol=BTCUSDT&side=SELL&type=MARKET&quantity=0.001&timestamp=1700000000000"
    );
    assert_eq!(order_params_text("ETHUSDT", 987, 5), "symbol=ETHUSDT&orderId=987&timestamp=5");
    assert_eq!(open_orders_params_text("ETHUSDT", 5), "symbol=ETHUSDT&timestamp=5");
}

#[test]
fn place_request_is_signed_over_its_parameters() {
    let req = OrderRequest { symbol: "BTCUSDT".into(), side: OrderSide::Buy, qty: d("2"), ..Default::default() };
    let r = place_request_at(&creds(), &req, 1, 77);
    assert_eq!(r.id, "00000000-0000-0000-0000-000000000001");
    assert_eq!(r.method, "order.place");
    assert_eq!(r.side.as_deref(), Some("BUY"));
    assert_eq!(r.order_type.as_deref(), Some("MARKET"));
    assert_eq!(r.timestamp, 77);
    assert_eq!(r.api_key, "key");
    assert_eq!(r.signature, sign("Jefe", "symbol=BTCUSDT&side=BUY&type=MARKET&quantity=2&timestamp=77"));
    assert_eq!(r.signature.len(), 64);
}

#[test]
fn cancel_and_status_requests_name_their_method() {
    let c = order_request_at(&creds(), OrderQuery::Cancel, "BTCUSDT", 55, 2, 9);
    assert_eq!(c.method, "order.cancel");
    assert_eq!(c.order_id, Some(55));
    assert!(c.side.is_none());
    assert_eq!(c.signature, sign("Jefe", "symbol=BTCUSDT&orderId=55&timestamp=9"));
    let s = order_request_at(&creds(), OrderQuery::Status, "BTCUSDT", 55, 2, 9);
    assert_eq!(s.method, "order.status");
}

#[test]
fn settle_accepts_status_200() {
    let reply = ExchangeReply {
        status: Some(200),
        error_code: None,
        error_msg: None,
        result: ReplyResult { order_id: Some(5), status: None, entries: None },
    };
    let r = settle(WaitOutcome::Replied(reply)).unwrap();
    assert_eq!(r.order_id, Some(5));
}

#[test]
fn settle_turns_other_status_into_refusal() {
    let reply = ExchangeReply {
        status: Some(400),
        error_code: Some(-2019),
        error_msg: Some("Margin is insufficient.".into()),
        result: empty_result(),
    };
    match settle(WaitOutcome::Replied(reply)) {
        Err(OrderError::ExchangeRejected { code, msg }) => {
            assert_eq!(code, -2019);
            assert_eq!(msg, "Margin is insufficient.");
        }
        other => panic!("unexpected {other:?}"),
    }
    let bare = ExchangeReply { status: None, error_code: None, error_msg: None, result: empty_result() };
    match settle(WaitOutcome::Replied(bare)) {
        Err(OrderError::ExchangeRejected { code, msg }) => {
            assert_eq!(code, -1);
            assert_eq!(msg, "unknown");
        }
        other => panic!("unexpected {other:?}"),
    }
}

#[test]
fn settle_reports_connection_failures() {
    assert!(matches!(settle(WaitOutcome::TimedOut), Err(OrderError::Connection(m)) if m == "timeout"));
    assert!(matches!(settle(WaitOutcome::ChannelClosed), Err(OrderError::Connection(m)) if m == "channel closed"));
    assert!(matches!(settle(WaitOutcome::SendFailed("closed".into())), Err(OrderError::Connection(m)) if m == "closed"));
}

#[test]
fn lookups_name_what_is_missing() {
    match require_found(None, 1) {
        Err(OrderError::NotFound(m)) => assert_eq!(m, "00000000-0000-0000-0000-000000000001"),
        other => panic!("unexpected {other:?}"),
    }
    let o = order(3, None, OrderStatus::New);
    match exchange_id_of(&o) {
        Err(OrderError::NotFound(m)) => assert_eq!(m, "exchange_order_id 없음"),
        other => panic!("unexpected {other:?}"),
    }
    assert_eq!(exchange_id_of(&order(3, Some(12), OrderStatus::New)).unwrap(), 12);
}

#[test]
fn accepted_order_records_exchange_id() {
    let o = order(3, None, OrderStatus::Rejected);
    let r = accept_placed(o, &ReplyResult { order_id: Some(99), status: None, entries: None });
    assert_eq!(r.exchange_order_id, Some(99));
    assert_eq!(r.status, OrderStatus::New);
}

#[test]
fn cancel_reply_marks_cancelled_only_when_canceled() {
    let res = ReplyResult { order_id: None, status: Some("CANCELED".into()), entries: None };
    let (o, changed) = apply_cancel_reply_at(order(1, Some(1), OrderStatus::New), &res, at(500));
    assert!(changed);
    assert_eq!(o.status, OrderStatus::Cancelled);
    assert_eq!(o.updated_at, at(500));
    let other = ReplyResult { order_id: None, status: Some("NEW".into()), entries: None };
    let (o, changed) = apply_cancel_reply_at(order(1, Some(1), OrderStatus::New), &other, at(500));
    assert!(!changed);
    assert_eq!(o.status, OrderStatus::New);
    assert_eq!(o.updated_at, at(100));
}

#[test]
fn status_reply_maps_exchange_statuses() {
    let cases = [
        ("FILLED", OrderStatus::Filled),
        ("CANCELED", OrderStatus::Cancelled),
        ("PARTIALLY_FILLED", OrderStatus::PartiallyFilled),
        ("EXPIRED", OrderStatus::Expired),
        ("REJECTED", OrderStatus::Rejected),
        ("NEW", OrderStatus::New),
        ("weird", OrderStatus::New),
    ];
    for (text, want) in cases {
        let res = ReplyResult { order_id: None, status: Some(text.into()), entries: None };
        let o = apply_status_reply_at(order(1, Some(1), OrderStatus::New), &res, at(7));
        assert_eq!(o.status, want, "{text}");
        assert_eq!(o.updated_at, at(7));
    }
}

#[test]
fn reconcile_expires_vanished_orders() {
    let db = vec![
        order(1, Some(10), OrderStatus::New),
        order(2, Some(20), OrderStatus::PartiallyFilled),
        order(3, None, OrderStatus::New),
        order(4, Some(40), OrderStatus::Filled),
    ];
    let entries = Some(vec![Some(10), None, Some(40)]);
    let r = reconcile_open_orders_at(&db, &entries, at(900));
    assert_eq!(r.expired.len(), 1);
    assert_eq!(r.expired[0].id, 2);
    assert_eq!(r.expired[0].status, OrderStatus::Expired);
    assert_eq!(r.expired[0].updated_at, at(900));
    let ids: Vec<u128> = r.open.iter().map(|o| o.id).collect();
    assert_eq!(ids, vec![1, 3]);
}

#[test]
fn reconcile_without_array_expires_every_acknowledged_order() {
    let db = vec![order(1, Some(10), OrderStatus::New), order(2, None, OrderStatus::New)];
    let r = reconcile_open_orders_at(&db, &None, at(1));
    assert_eq!(r.expired.len(), 1);
    assert_eq!(r.open.len(), 1);
    assert_eq!(r.open[0].id, 2);
}

fn update() -> OrderTradeUpdate {
    OrderTradeUpdate {
        exchange_order_id: Some(10),
        execution_type: Some("TRADE".into()),
        order_status: Some("PARTIALLY_FILLED".into()),
        side: Some("SELL".into()),
        last_qty: Some("0.5".into()),
        last_price: Some("101.5".into()),
        fee: Some("0.02".into()),
        fee_asset: None,
        trade_time_ms: Some(1_700_000_000_123),
        cumulative_qty: Some("0.5".into()),
        avg_price: Some("101.5".into()),
    }
}

#[test]
fn trade_update_records_fill_and_status() {
    let o = order(1, Some(10), OrderStatus::New);
    let e = apply_trade_update_at(o, &update(), at(5));
    let f = e.fill.unwrap();
    assert_eq!(f.order_id, 1);
    assert_eq!(f.symbol, "BTCUSDT");
    assert_eq!(f.side, OrderSide::Sell);
    assert_eq!(val(f.qty), num("0.5"));
    assert_eq!(val(f.price), num("101.5"));
    assert_eq!(val(f.fee), num("0.02"));
    assert_eq!(f.fee_asset, "USDT");
    assert_eq!(f.filled_at, UtcTime { secs: 1_700_000_000, nanos: 123_000_000 });
    let u = e.updated.unwrap();
    assert_eq!(u.status, OrderStatus::PartiallyFilled);
    assert_eq!(val(u.filled_qty), num("0.5"));
    assert_eq!(val(u.avg_fill_price.unwrap()), num("101.5"));
    assert_eq!(u.updated_at, at(5));
}

#[test]
fn non_trade_update_changes_status_only() {
    let mut upd = update();
    upd.execution_type = Some("CANCELED".into());
    upd.order_status = Some("CANCELED".into());
    upd.avg_price = Some("0".into());
    upd.cumulative_qty = None;
    let e = apply_trade_update_at(order(1, Some(10), OrderStatus::New), &upd, at(5));
    assert!(e.fill.is_none());
    let u = e.updated.unwrap();
    assert_eq!(u.status, OrderStatus::Cancelled);
    assert!(u.avg_fill_price.is_none());
    assert_eq!(val(u.filled_qty), num("0"));
}

#[test]
fn unknown_status_and_bad_numbers() {
    let mut upd = update();
    upd.order_status = Some("NEW".into());
    upd.last_qty = Some("lots".into());
    upd.side = None;
    let e = apply_trade_update_at(order(1, Some(10), OrderStatus::New), &upd, at(5));
    assert!(e.updated.is_none());
    let f = e.fill.unwrap();
    assert_eq!(val(f.qty), num("0"));
    assert_eq!(f.side, OrderSide::Sell);
}

#[test]
fn endpoints_by_network() {
    let t = ExchangeEndpoints::for_network(true);
    assert_eq!(t.order_ws_url, "wss://testnet.binancefuture.com/ws-fapi/v1");
    assert_eq!(t.user_stream_base, "wss://stream.binancefuture.com/ws");
    assert_eq!(t.rest_base, "https://testnet.binancefuture.com");
    let m = ExchangeEndpoints::for_network(false);
    assert_eq!(m.order_ws_url, "wss://ws-fapi.binance.com/ws-fapi/v1");
    assert_eq!(m.listen_key_url(), "https://fapi.binance.com/fapi/v1/listenKey");
    assert_eq!(m.user_stream_url("abc"), "wss://fstream.binance.com/ws/abc");
}

#[test]
fn reply_frames_go_to_the_waiting_request() {
    let pending: Vec<String> = vec!["a".into(), "b".into(), "b".into()];
    let text = r#"{"id":"b","status":200,"result":{"orderId":42,"status":"NEW"}}"#;
    let (k, reply) = route_order_frame(&pending, text).unwrap();
    assert_eq!(k, 1);
    assert_eq!(reply.status, Some(200));
    assert_eq!(reply.error_code, None);
    assert_eq!(reply.result.order_id, Some(42));
    assert_eq!(reply.result.status.as_deref(), Some("NEW"));
    assert!(reply.result.entries.is_none());

    let text = r#"{"id":"a","status":400,"error":{"code":-2011,"msg":"Unknown order"},"result":[{"orderId":1},{"x":2}]}"#;
    let (k, reply) = route_order_frame(&pending, text).unwrap();
    assert_eq!(k, 0);
    assert_eq!(reply.status, Some(400));
    assert_eq!(reply.error_code, Some(-2011));
    assert_eq!(reply.error_msg.as_deref(), Some("Unknown order"));
    assert_eq!(reply.result.entries, Some(vec![Some(1), None]));

    assert!(route_order_frame(&pending, r#"{"id":"c","status":200}"#).is_none());
    assert!(route_order_frame(&pending, r#"{"id":7,"status":200}"#).is_none());
    assert!(route_order_frame(&pending, "not json").is_none());
}

#[test]
fn route_reply_finds_the_first_matching_request() {
    let pending: Vec<String> = vec!["x".into(), "y".into(), "y".into()];
    assert_eq!(route_reply(&pending, "y"), Some(1));
    assert_eq!(route_reply(&pending, "x"), Some(0));
    assert_eq!(route_reply(&pending, "z"), None);
    assert_eq!(route_reply(&vec![], "x"), None);
}

#[test]
fn only_order_trade_updates_are_handed_on() {
    assert!(forwards_update(&Some("ORDER_TRADE_UPDATE".into())));
    assert!(!forwards_update(&Some("ACCOUNT_UPDATE".into())));
    assert!(!forwards_update(&None));

    let text = r#"{"e":"ORDER_TRADE_UPDATE","o":{"i":77,"x":"TRADE","X":"FILLED","S":"BUY","l":"0.5","L":"100.1","n":"0.01","N":"USDT","T":1700000000000,"z":"0.5","ap":"100.1"}}"#;
    let u = order_trade_update_of(text).unwrap();
    assert_eq!(u.exchange_order_id, Some(77));
    assert_eq!(u.execution_type.as_deref(), Some("TRADE"));
    assert_eq!(u.order_status.as_deref(), Some("FILLED"));
    assert_eq!(u.side.as_deref(), Some("BUY"));
    assert_eq!(u.last_qty.as_deref(), Some("0.5"));
    assert_eq!(u.last_price.as_deref(), Some("100.1"));
    assert_eq!(u.fee.as_deref(), Some("0.01"));
    assert_eq!(u.fee_asset.as_deref(), Some("USDT"));
    assert_eq!(u.trade_time_ms, Some(1700000000000));
    assert_eq!(u.cumulative_qty.as_deref(), Some("0.5"));
    assert_eq!(u.avg_price.as_deref(), Some("100.1"));

    assert!(order_trade_update_of(r#"{"e":"ACCOUNT_UPDATE","o":{"i":1}}"#).is_none());
    assert!(order_trade_update_of(r#"{"o":{"i":1}}"#).is_none());
    assert!(order_trade_update_of("{").is_none());
}
