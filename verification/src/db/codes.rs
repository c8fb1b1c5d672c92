//! How order enums are written to and read from the database, and how a
//! configured stream type is read.

use vstd::prelude::*;
use crate::domain::order::{OrderSide, OrderStatus, OrderType, TimeInForce};
use crate::config::binance_config::StreamType;
use crate::text::text_eq;

verus! {

pub open spec fn order_type_code(t: OrderType) -> Seq<char> {
    match t {
        OrderType::Market => "market"@,
        OrderType::Limit => "limit"@,
        OrderType::StopMarket => "stop_market"@,
        OrderType::StopLimit => "stop_limit"@,
    }
}

pub open spec fn order_type_of_code(s: Seq<char>) -> Option<OrderType> {
    if s == "market"@ {
        Some(OrderType::Market)
    } else if s == "limit"@ {
        Some(OrderType::Limit)
    } else if s == "stop_market"@ {
        Some(OrderType::StopMarket)
    } else if s == "stop_limit"@ {
        Some(OrderType::StopLimit)
    } else {
        None
    }
}

pub open spec fn side_code_db(s: OrderSide) -> Seq<char> {
    match s {
        OrderSide::Buy => "buy"@,
        OrderSide::Sell => "sell"@,
    }
}

pub open spec fn side_of_code(s: Seq<char>) -> Option<OrderSide> {
    if s == "buy"@ {
        Some(OrderSide::Buy)
    } else if s == "sell"@ {
        Some(OrderSide::Sell)
    } else {
        None
    }
}

pub open spec fn status_code(s: OrderStatus) -> Seq<char> {
    match s {
        OrderStatus::New => "new"@,
        OrderStatus::PartiallyFilled => "partially_filled"@,
        OrderStatus::Filled => "filled"@,
        OrderStatus::Cancelled => "cancelled"@,
        OrderStatus::Rejected => "rejected"@,
        OrderStatus::Expired => "expired"@,
    }
}

pub open spec fn status_of_code(s: Seq<char>) -> Option<OrderStatus> {
    if s == "new"@ {
        Some(OrderStatus::New)
    } else if s == "partially_filled"@ {
        Some(OrderStatus::PartiallyFilled)
    } else if s == "filled"@ {
        Some(OrderStatus::Filled)
    } else if s == "cancelled"@ {
        Some(OrderStatus::Cancelled)
    } else if s == "rejected"@ {
        Some(OrderStatus::Rejected)
    } else if s == "expired"@ {
        Some(OrderStatus::Expired)
    } else {
        None
    }
}

pub open spec fn tif_code(t: TimeInForce) -> Seq<char> {
    match t {
        TimeInForce::Gtc => "gtc"@,
        TimeInForce::Ioc => "ioc"@,
        TimeInForce::Fok => "fok"@,
    }
}

pub open spec fn tif_of_code(s: Seq<char>) -> Option<TimeInForce> {
    if s == "gtc"@ {
        Some(TimeInForce::Gtc)
    } else if s == "ioc"@ {
        Some(TimeInForce::Ioc)
    } else if s == "fok"@ {
        Some(TimeInForce::Fok)
    } else {
        None
    }
}

pub open spec fn stream_type_of_code(s: Seq<char>) -> Option<StreamType> {
    if s == "MARKET"@ {
        Some(StreamType::Market)
    } else if s == "PUBLIC"@ {
        Some(StreamType::Public)
    } else if s == "PRIVATE"@ {
        Some(StreamType::Private)
    } else {
        None
    }
}

impl OrderType {
    /// The code stored for this order type.
    pub fn db_code(&self) -> (r: &'static str)
        ensures
            r@ == order_type_code(*self),
    {
        match self {
            OrderType::Market => "market",
            OrderType::Limit => "limit",
            OrderType::StopMarket => "stop_market",
            OrderType::StopLimit => "stop_limit",
        }
    }

    /// The order type a stored code names; `None` for an unknown code.
    pub fn from_db_code(s: &str) -> (r: Option<OrderType>)
        ensures
            r == order_type_of_code(s@),
    {
        if text_eq(s, "market") {
            Some(OrderType::Market)
        } else if text_eq(s, "limit") {
            Some(OrderType::Limit)
        } else if text_eq(s, "stop_market") {
            Some(OrderType::StopMarket)
        } else if text_eq(s, "stop_limit") {
            Some(OrderType::StopLimit)
        } else {
            None
        }
    }
}

impl OrderSide {
    /// The code stored for this side.
    pub fn db_code(&self) -> (r: &'static str)
        ensures
            r@ == side_code_db(*self),
    {
        match self {
            OrderSide::Buy => "buy",
            OrderSide::Sell => "sell",
        }
    }

    /// The side a stored code names; `None` for an unknown code.
    pub fn from_db_code(s: &str) -> (r: Option<OrderSide>)
        ensures
            r == side_of_code(s@),
    {
        if text_eq(s, "buy") {
            Some(OrderSide::Buy)
        } else if text_eq(s, "sell") {
            Some(OrderSide::Sell)
        } else {
            None
        }
    }
}

impl OrderStatus {
    /// The code stored for this status.
    pub fn db_code(&self) -> (r: &'static str)
        ensures
            r@ == status_code(*self),
    {
        match self {
            OrderStatus::New => "new",
            OrderStatus::PartiallyFilled => "partially_filled",
            OrderStatus::Filled => "filled",
            OrderStatus::Cancelled => "cancelled",
            OrderStatus::Rejected => "rejected",
            OrderStatus::Expired => "expired",
        }
    }

    /// The status a stored code names; `None` for an unknown code.
    pub fn from_db_code(s: &str) -> (r: Option<OrderStatus>)
        ensures
            r == status_of_code(s@),
    {
        if text_eq(s, "new") {
            Some(OrderStatus::New)
        } else if text_eq(s, "partially_filled") {
            Some(OrderStatus::PartiallyFilled)
        } else if text_eq(s, "filled") {
            Some(OrderStatus::Filled)
        } else if text_eq(s, "cancelled") {
            Some(OrderStatus::Cancelled)
        } else if text_eq(s, "rejected") {
            Some(OrderStatus::Rejected)
        } else if text_eq(s, "expired") {
            Some(OrderStatus::Expired)
        } else {
            None
        }
    }
}

impl TimeInForce {
    /// The code stored for this time in force.
    pub fn db_code(&self) -> (r: &'static str)
        ensures
            r@ == tif_code(*self),
    {
        match self {
            TimeInForce::Gtc => "gtc",
            TimeInForce::Ioc => "ioc",
            TimeInForce::Fok => "fok",
        }
    }

    /// The time in force a stored code names; `None` for an unknown code.
    pub fn from_db_code(s: &str) -> (r: Option<TimeInForce>)
        ensures
            r == tif_of_code(s@),
    {
        if text_eq(s, "gtc") {
            Some(TimeInForce::Gtc)
        } else if text_eq(s, "ioc") {
            Some(TimeInForce::Ioc)
        } else if text_eq(s, "fok") {
            Some(TimeInForce::Fok)
        } else {
            None
        }
    }
}

/// The stream type a configuration row names; an unknown name is refused
/// with a message that quotes it.
pub fn stream_type_from_code(s: &str) -> (r: Result<StreamType, String>)
    ensures
        stream_type_of_code(s@) matches Some(t) ==> r == Ok::<StreamType, String>(t),
        stream_type_of_code(s@) is None ==> (r matches Err(m) && m@ == "알수없는 stream_type: "@ + s@),
{
    if text_eq(s, "MARKET") {
        Ok(StreamType::Market)
    } else if text_eq(s, "PUBLIC") {
        Ok(StreamType::Public)
    } else if text_eq(s, "PRIVATE") {
        Ok(StreamType::Private)
    } else {
        let mut m = "알수없는 stream_type: ".to_string();
        m.append(s);
        Err(m)
    }
}

/// Every stored order type reads back as itself.
pub proof fn law_order_type_code_round_trip(t: OrderType)
    ensures
        order_type_of_code(order_type_code(t)) == Some(t),
{
    reveal_strlit("market");
    reveal_strlit("limit");
    reveal_strlit("stop_market");
    reveal_strlit("stop_limit");
    assert("market"@.len() == 6);
    assert("limit"@.len() == 5);
    assert("stop_market"@.len() == 11);
    assert("stop_limit"@.len() == 10);
}

/// Every stored side reads back as itself.
pub proof fn law_side_code_round_trip(s: OrderSide)
    ensures
        side_of_code(side_code_db(s)) == Some(s),
{
    reveal_strlit("buy");
    reveal_strlit("sell");
    assert("buy"@.len() == 3);
    assert("sell"@.len() == 4);
}

/// Every stored status reads back as itself.
pub proof fn law_status_code_round_trip(s: OrderStatus)
    ensures
        status_of_code(status_code(s)) == Some(s),
{
    reveal_strlit("new");
    reveal_strlit("partially_filled");
    reveal_strlit("filled");
    reveal_strlit("cancelled");
    reveal_strlit("rejected");
    reveal_strlit("expired");
    assert("new"@.len() == 3);
    assert("partially_filled"@.len() == 16);
    assert("filled"@.len() == 6);
    assert("cancelled"@.len() == 9);
    assert("rejected"@.len() == 8);
    assert("expired"@.len() == 7);
}

/// Every stored time in force reads back as itself.
pub proof fn law_tif_code_round_trip(t: TimeInForce)
    ensures
        tif_of_code(tif_code(t)) == Some(t),
{
    reveal_strlit("gtc");
    reveal_strlit("ioc");
    reveal_strlit("fok");
    assert("gtc"@[0] == 'g');
    assert("ioc"@[0] == 'i');
    assert("fok"@[0] == 'f');
}

} // verus!
