//! Decisions of the QuestDB writer: when the batch is flushed, how its row
//! count follows appends, and which index readings become rows.

use vstd::prelude::*;
use crate::config::runtime::QuestDbRuntimeConfig;
use crate::market_data::dto::{BookTickerData, DepthData, TradeData};
use crate::market_data::fng::FngData;
use crate::market_data::types::FearGreed;
use crate::text::{parse_i64, parse_signed_spec};

verus! {

/// What the writer receives.
#[derive(Clone, Debug)]
pub enum DbEvent {
    Trade(TradeData),
    Depth(DepthData),
    BookTicker(BookTickerData),
    Fng(FngData),
}

/// The rows in the batch after an append: one more when it succeeded; when
/// it failed the buffer is discarded (the second part is `true`) and no
/// row is pending.
pub fn rows_after_append(rows: usize, appended: bool) -> (r: (usize, bool))
    requires
        appended ==> rows < usize::MAX,
    ensures
        appended ==> r.0 == rows + 1 && !r.1,
        !appended ==> r == (0usize, true),
{
    if appended {
        (rows + 1, false)
    } else {
        (0, true)
    }
}

/// Whether an event's append is followed by a flush: when the pending rows
/// are at most the batch limit, or the buffer has reached its byte limit.
pub fn flush_after_append(rows: usize, buffer_len: usize, cfg: &QuestDbRuntimeConfig) -> (r: bool)
    ensures
        r == (rows <= cfg.batch_max_rows || buffer_len >= cfg.buffer_max_bytes),
{
    rows <= cfg.batch_max_rows || buffer_len >= cfg.buffer_max_bytes
}

/// Whether a flush has anything to send.
pub fn has_pending(rows: usize) -> (r: bool)
    ensures
        r == (rows != 0),
{
    rows != 0
}

/// A reading of the index as the writer stores it.
#[derive(Clone, Debug)]
pub struct FngRow {
    pub status: String,
    pub value: i64,
    pub ts_nanos: i64,
}

/// The value a reading's text spells, 0 when it spells none.
pub open spec fn reading_value(f: FearGreed) -> i64 {
    match parse_signed_spec(f.value@, i64::MIN as int, i64::MAX as int) {
        Some(v) => v as i64,
        None => 0,
    }
}

/// The row of a reading, or none for a reading whose timestamp is zero
/// (such readings are not stored).
pub fn fng_row(f: &FearGreed) -> (r: Option<FngRow>)
    requires
        i64::MIN <= f.timestamp_sec * 1_000_000_000 <= i64::MAX,
    ensures
        f.timestamp_sec == 0 ==> r is None,
        f.timestamp_sec != 0 ==> (r matches Some(row)
            && row.status@ == f.status@
            && row.value == reading_value(*f)
            && row.ts_nanos == f.timestamp_sec * 1_000_000_000),
{
    if f.timestamp_sec == 0 {
        return None;
    }
    let value: i64 = match parse_i64(f.value.as_str()) {
        Some(v) => v,
        None => 0,
    };
    Some(FngRow { status: f.status.clone(), value, ts_nanos: f.timestamp_sec * 1_000_000_000 })
}

} // verus!
