//! Reading backtest data from QuestDB's REST endpoint: the sampling queries
//! it sends and how the rows of its reply become bars and book snapshots.

use vstd::prelude::*;
use crate::decimal::{Dec, parse_decimal, decimal_from_str, opt_dec};
use crate::backtest::types::{Bar, DepthSnapshot};
use crate::market_data::query::{BarQuery, DepthQuery};
use vstd::string::StringExecFns;
use chrono::{DateTime, Utc};

verus! {

/// The text chrono's `format("%Y-%m-%dT%H:%M:%S%.6fZ")` gives for the
/// instant `ns` nanoseconds after the epoch.
pub uninterp spec fn iso_micros(ns: i64) -> Seq<char>;

/// The nanoseconds since the epoch of the instant that chrono's
/// `parse_from_rfc3339` reads from the text, or `None` where it reads none
/// or the nanoseconds do not fit in an `i64`.
pub uninterp spec fn rfc3339_nanos(s: Seq<char>) -> Option<i64>;

/// Calls `DateTime::from_timestamp_nanos` and formats the instant with
/// microseconds and a `Z`: the text is chrono's for `ns`.
#[verifier::external_body]
pub(crate) fn ns_to_iso(ns: i64) -> (r: String)
    ensures
        r@ == iso_micros(ns),
{
    let dt: DateTime<Utc> = DateTime::from_timestamp_nanos(ns);
    dt.format("%Y-%m-%dT%H:%M:%S%.6fZ").to_string()
}

/// Calls `DateTime::parse_from_rfc3339` and `timestamp_nanos_opt`: what
/// chrono reads from the text, in nanoseconds.
#[verifier::external_body]
pub(crate) fn parse_iso_to_ns(s: &str) -> (r: Option<i64>)
    ensures
        r == rfc3339_nanos(s@),
{
    match DateTime::parse_from_rfc3339(s) {
        Ok(t) => t.timestamp_nanos_opt(),
        Err(_) => None,
    }
}

/// The query that samples trades of a symbol into OHLCV bars.
pub open spec fn bars_sql_spec(symbol: Seq<char>, from_iso: Seq<char>, to_iso: Seq<char>, interval: Seq<char>) -> Seq<char> {
    "SELECT timestamp, first(price) o, max(price) h, min(price) l, last(price) c, sum(quantity) v FROM trades WHERE symbol = '"@
        + symbol + "' AND timestamp >= '"@ + from_iso + "' AND timestamp < '"@ + to_iso + "' SAMPLE BY "@ + interval
        + " ALIGN TO CALENDAR"@
}

/// The query that samples the best bid and ask of a symbol.
pub open spec fn depth_sql_spec(symbol: Seq<char>, from_iso: Seq<char>, to_iso: Seq<char>, every: Seq<char>) -> Seq<char> {
    "SELECT timestamp, first(bid1_price) bp, first(bid1_qty) bq, first(ask1_price) ap, first(ask1_qty) aq FROM depth WHERE symbol = '"@
        + symbol + "' AND timestamp >= '"@ + from_iso + "' AND timestamp < '"@ + to_iso + "' SAMPLE BY "@ + every
        + " ALIGN TO CALENDAR"@
}

/// Law: the book query selects, after the timestamp, the best bid price,
/// the best bid quantity, the best ask price and the best ask quantity, in
/// that order, from the `depth` table.
pub proof fn law_depth_sql_columns(symbol: Seq<char>, from_iso: Seq<char>, to_iso: Seq<char>, every: Seq<char>)
    ensures
        depth_sql_spec(symbol, from_iso, to_iso, every).len() >= "SELECT timestamp, first(bid1_price) bp, first(bid1_qty) bq, first(ask1_price) ap, first(ask1_qty) aq FROM depth WHERE symbol = '"@.len(),
        depth_sql_spec(symbol, from_iso, to_iso, every).subrange(0, "SELECT timestamp, first(bid1_price) bp, first(bid1_qty) bq, first(ask1_price) ap, first(ask1_qty) aq FROM depth WHERE symbol = '"@.len() as int)
            == "SELECT timestamp, first(bid1_price) bp, first(bid1_qty) bq, first(ask1_price) ap, first(ask1_qty) aq FROM depth WHERE symbol = '"@,
{
    let head = "SELECT timestamp, first(bid1_price) bp, first(bid1_qty) bq, first(ask1_price) ap, first(ask1_qty) aq FROM depth WHERE symbol = '"@;
    let rest = symbol + "' AND timestamp >= '"@ + from_iso + "' AND timestamp < '"@ + to_iso + "' SAMPLE BY "@ + every
        + " ALIGN TO CALENDAR"@;
    assert(depth_sql_spec(symbol, from_iso, to_iso, every) =~= head + rest);
    assert((head + rest).subrange(0, head.len() as int) =~= head);
}

/// Law: the bar query selects, after the timestamp, the first, highest,
/// lowest and last trade price and the summed quantity, in that order,
/// from the `trades` table.
pub proof fn law_bars_sql_columns(symbol: Seq<char>, from_iso: Seq<char>, to_iso: Seq<char>, interval: Seq<char>)
    ensures
        bars_sql_spec(symbol, from_iso, to_iso, interval).len() >= "SELECT timestamp, first(price) o, max(price) h, min(price) l, last(price) c, sum(quantity) v FROM trades WHERE symbol = '"@.len(),
        bars_sql_spec(symbol, from_iso, to_iso, interval).subrange(0, "SELECT timestamp, first(price) o, max(price) h, min(price) l, last(price) c, sum(quantity) v FROM trades WHERE symbol = '"@.len() as int)
            == "SELECT timestamp, first(price) o, max(price) h, min(price) l, last(price) c, sum(quantity) v FROM trades WHERE symbol = '"@,
{
    let head = "SELECT timestamp, first(price) o, max(price) h, min(price) l, last(price) c, sum(quantity) v FROM trades WHERE symbol = '"@;
    let rest = symbol + "' AND timestamp >= '"@ + from_iso + "' AND timestamp < '"@ + to_iso + "' SAMPLE BY "@ + interval
        + " ALIGN TO CALENDAR"@;
    assert(bars_sql_spec(symbol, from_iso, to_iso, interval) =~= head + rest);
    assert((head + rest).subrange(0, head.len() as int) =~= head);
}

fn cat(mut a: String, b: &str) -> (r: String)
    ensures
        r@ == a@ + b@,
{
    a.append(b);
    a
}

/// The bar query for `q`, its bounds as ISO instants.
pub fn bars_sql(q: &BarQuery) -> (r: String)
    ensures
        r@ == bars_sql_spec(q.symbol@, iso_micros(q.from_ns), iso_micros(q.to_ns), q.interval@),
{
    let from = ns_to_iso(q.from_ns);
    let to = ns_to_iso(q.to_ns);
    let s = cat(
        "SELECT timestamp, first(price) o, max(price) h, min(price) l, last(price) c, sum(quantity) v FROM trades WHERE symbol = '".to_string(),
        q.symbol.as_str(),
    );
    let s = cat(s, "' AND timestamp >= '");
    let s = cat(s, from.as_str());
    let s = cat(s, "' AND timestamp < '");
    let s = cat(s, to.as_str());
    let s = cat(s, "' SAMPLE BY ");
    let s = cat(s, q.interval.as_str());
    cat(s, " ALIGN TO CALENDAR")
}

/// The book query for `q`, its bounds as ISO instants.
pub fn depth_sql(q: &DepthQuery) -> (r: String)
    ensures
        r@ == depth_sql_spec(q.symbol@, iso_micros(q.from_ns), iso_micros(q.to_ns), q.every@),
{
    let from = ns_to_iso(q.from_ns);
    let to = ns_to_iso(q.to_ns);
    let s = cat(
        "SELECT timestamp, first(bid1_price) bp, first(bid1_qty) bq, first(ask1_price) ap, first(ask1_qty) aq FROM depth WHERE symbol = '".to_string(),
        q.symbol.as_str(),
    );
    let s = cat(s, "' AND timestamp >= '");
    let s = cat(s, from.as_str());
    let s = cat(s, "' AND timestamp < '");
    let s = cat(s, to.as_str());
    let s = cat(s, "' SAMPLE BY ");
    let s = cat(s, q.every.as_str());
    cat(s, " ALIGN TO CALENDAR")
}

/// One cell of a reply row: a number (in the text JSON gives it), a
/// string, or anything else.
#[derive(Clone, Debug)]
pub enum Cell {
    Number(String),
    Text(String),
    Other,
}

/// Why a reply row could not be read.
#[derive(Clone, Copy, Debug, PartialEq, Eq, Structural)]
pub enum RowError {
    /// The first cell is not a string.
    TimestampNotText,
    /// The first cell is not an RFC 3339 instant that fits.
    BadTimestamp,
    /// This cell is neither a number nor a string that reads as a decimal.
    NotADecimal { column: usize },
    /// The row ends before this cell.
    MissingCell { column: usize },
}

/// The decimal a cell holds.
pub open spec fn cell_decimal(c: Cell) -> Option<Dec> {
    match c {
        Cell::Number(t) => opt_dec(decimal_from_str(t@)),
        Cell::Text(t) => opt_dec(decimal_from_str(t@)),
        Cell::Other => None,
    }
}

/// The instant the first cell holds, in nanoseconds.
pub open spec fn cell_instant(c: Cell) -> Result<i64, RowError> {
    match c {
        Cell::Text(t) => match rfc3339_nanos(t@) {
            Some(ns) => Ok(ns),
            None => Err(RowError::BadTimestamp),
        },
        _ => Err(RowError::TimestampNotText),
    }
}

/// The decimals of cells 1 to `k`, or the error of the first that holds
/// none.
pub open spec fn row_decimals(row: Seq<Cell>, k: nat) -> Result<Seq<Dec>, RowError>
    decreases k,
{
    if k == 0 {
        Ok(Seq::empty())
    } else {
        match row_decimals(row, (k - 1) as nat) {
            Err(e) => Err(e),
            Ok(ds) => if k >= row.len() {
                Err(RowError::MissingCell { column: k as usize })
            } else {
                match cell_decimal(row[k as int]) {
                    Some(d) => Ok(ds.push(d)),
                    None => Err(RowError::NotADecimal { column: k as usize }),
                }
            },
        }
    }
}

/// A row read as an instant and `k` decimals, the instant first, each cell
/// in turn; a row that ends before a cell it needs reports that cell.
pub open spec fn row_values(row: Seq<Cell>, k: nat) -> Result<(i64, Seq<Dec>), RowError> {
    if row.len() == 0 {
        Err(RowError::MissingCell { column: 0 })
    } else {
        match cell_instant(row[0]) {
            Err(e) => Err(e),
            Ok(ts) => match row_decimals(row, k) {
                Err(e) => Err(e),
                Ok(ds) => Ok((ts, ds)),
            },
        }
    }
}

/// The decimal a cell holds.
pub fn decimal_of_cell(c: &Cell) -> (r: Option<Dec>)
    ensures
        r == cell_decimal(*c),
{
    match c {
        Cell::Number(t) => parse_decimal(t.as_str()),
        Cell::Text(t) => parse_decimal(t.as_str()),
        Cell::Other => None,
    }
}

/// Reads a row as an instant and `k` decimals.
pub fn read_row(row: &Vec<Cell>, k: usize) -> (r: Result<(i64, Vec<Dec>), RowError>)
    ensures
        match row_values(row@, k as nat) {
            Ok((ts, ds)) => r matches Ok((t, v)) && t == ts && v@ == ds,
            Err(e) => r == Err::<(i64, Vec<Dec>), RowError>(e),
        },
        r matches Ok((t, v)) ==> v@.len() == k,
{
    let width = row.len();
    if width == 0 {
        return Err(RowError::MissingCell { column: 0 });
    }
    let ts = match &row[0] {
        Cell::Text(t) => match parse_iso_to_ns(t.as_str()) {
            Some(ns) => ns,
            None => {
                return Err(RowError::BadTimestamp);
            },
        },
        _ => {
            return Err(RowError::TimestampNotText);
        },
    };
    let mut ds: Vec<Dec> = Vec::new();
    let mut j: usize = 1;
    while j <= k
        invariant
            1 <= j <= k + 1,
            width == row@.len(),
            width > 0,
            ds@.len() == j - 1,
            cell_instant(row@[0]) == Ok::<i64, RowError>(ts),
            row_decimals(row@, (j - 1) as nat) == Ok::<Seq<Dec>, RowError>(ds@),
        decreases k + 1 - j,
    {
        if j >= width {
            proof {
                assert(row_decimals(row@, j as nat) == Err::<Seq<Dec>, RowError>(
                    RowError::MissingCell { column: j },
                ));
                lemma_row_decimals_err_stays(row@, j as nat, k as nat);
            }
            return Err(RowError::MissingCell { column: j });
        }
        match decimal_of_cell(&row[j]) {
            Some(d) => {
                ds.push(d);
            },
            None => {
                proof {
                    assert(row_decimals(row@, j as nat) == Err::<Seq<Dec>, RowError>(
                        RowError::NotADecimal { column: j },
                    ));
                    lemma_row_decimals_err_stays(row@, j as nat, k as nat);
                }
                return Err(RowError::NotADecimal { column: j });
            },
        }
        j = j + 1;
    }
    Ok((ts, ds))
}

/// Once a cell holds no decimal, reading more columns reports that cell.
proof fn lemma_row_decimals_err_stays(row: Seq<Cell>, j: nat, k: nat)
    requires
        j <= k,
        row_decimals(row, j) is Err,
    ensures
        row_decimals(row, k) == row_decimals(row, j),
    decreases k - j,
{
    if j < k {
        lemma_row_decimals_err_stays(row, j, (k - 1) as nat);
    }
}

/// `b` is the bar of `symbol` that a row with these values gives.
pub open spec fn is_row_bar(b: Bar, symbol: Seq<char>, v: (i64, Seq<Dec>)) -> bool {
    &&& b.symbol@ == symbol
    &&& b.ts_ns == v.0
    &&& b.open == v.1[0]
    &&& b.high == v.1[1]
    &&& b.low == v.1[2]
    &&& b.close == v.1[3]
    &&& b.volume == v.1[4]
}

/// `d` is the book snapshot of `symbol` that a row with these values gives.
pub open spec fn is_row_snapshot(d: DepthSnapshot, symbol: Seq<char>, v: (i64, Seq<Dec>)) -> bool {
    &&& d.symbol@ == symbol
    &&& d.ts_ns == v.0
    &&& d.bid1_price == v.1[0]
    &&& d.bid1_qty == v.1[1]
    &&& d.ask1_price == v.1[2]
    &&& d.ask1_qty == v.1[3]
}

/// `b` is the bar of `symbol` that the row gives.
pub open spec fn bar_of_row(b: Bar, symbol: Seq<char>, row: Seq<Cell>) -> bool {
    row_values(row, 5) matches Ok(v) && is_row_bar(b, symbol, v)
}

/// `d` is the book snapshot of `symbol` that the row gives.
pub open spec fn snapshot_of_row(d: DepthSnapshot, symbol: Seq<char>, row: Seq<Cell>) -> bool {
    row_values(row, 4) matches Ok(v) && is_row_snapshot(d, symbol, v)
}

/// Law: a book snapshot read from a row takes its best bid price, best bid
/// quantity, best ask price and best ask quantity from cells 1 to 4, in
/// the order the book query selects them, and its time from cell 0.
pub proof fn law_snapshot_columns(d: DepthSnapshot, symbol: Seq<char>, row: Seq<Cell>)
    requires
        snapshot_of_row(d, symbol, row),
    ensures
        row.len() > 4,
        cell_instant(row[0]) == Ok::<i64, RowError>(d.ts_ns),
        cell_decimal(row[1]) == Some(d.bid1_price),
        cell_decimal(row[2]) == Some(d.bid1_qty),
        cell_decimal(row[3]) == Some(d.ask1_price),
        cell_decimal(row[4]) == Some(d.ask1_qty),
        d.symbol@ == symbol,
{
    reveal_with_fuel(row_decimals, 5);
}

/// Law: a bar read from a row takes its open, high, low, close and volume
/// from cells 1 to 5, in the order the bar query selects them, and its time
/// from cell 0.
pub proof fn law_bar_columns(b: Bar, symbol: Seq<char>, row: Seq<Cell>)
    requires
        bar_of_row(b, symbol, row),
    ensures
        row.len() > 5,
        cell_instant(row[0]) == Ok::<i64, RowError>(b.ts_ns),
        cell_decimal(row[1]) == Some(b.open),
        cell_decimal(row[2]) == Some(b.high),
        cell_decimal(row[3]) == Some(b.low),
        cell_decimal(row[4]) == Some(b.close),
        cell_decimal(row[5]) == Some(b.volume),
        b.symbol@ == symbol,
{
    reveal_with_fuel(row_decimals, 6);
}

/// The rows' cells.
pub open spec fn rows_view(rows: Seq<Vec<Cell>>) -> Seq<Seq<Cell>> {
    rows.map_values(|r: Vec<Cell>| r@)
}

/// The index of the first row that cannot be read with `k` decimals, if
/// any, and its error.
pub open spec fn first_bad_row(rows: Seq<Seq<Cell>>, k: nat) -> Option<(int, RowError)>
    decreases rows.len(),
{
    if rows.len() == 0 {
        None
    } else {
        match first_bad_row(rows.drop_last(), k) {
            Some(p) => Some(p),
            None => match row_values(rows.last(), k) {
                Err(e) => Some((rows.len() - 1, e)),
                Ok(_) => None,
            },
        }
    }
}

proof fn lemma_first_bad_row_prefix(rows: Seq<Seq<Cell>>, k: nat, i: int)
    requires
        0 <= i < rows.len(),
        first_bad_row(rows.take(i), k) is None,
        row_values(rows[i], k) is Err,
    ensures
        first_bad_row(rows.take(i + 1), k) == Some((i, row_values(rows[i], k)->Err_0)),
{
    assert(rows.take(i + 1).drop_last() =~= rows.take(i));
}

proof fn lemma_first_bad_row_extends(rows: Seq<Seq<Cell>>, k: nat, i: int)
    requires
        0 <= i < rows.len(),
        first_bad_row(rows.take(i + 1), k) is Some,
    ensures
        first_bad_row(rows, k) == first_bad_row(rows.take(i + 1), k),
    decreases rows.len() - i,
{
    if i + 1 < rows.len() {
        assert(rows.take(i + 2).drop_last() =~= rows.take(i + 1));
        lemma_first_bad_row_extends(rows, k, i + 1);
    } else {
        assert(rows.take(i + 1) =~= rows);
    }
}

/// The bars of `symbol` that the reply rows give, in row order, or the
/// error of the first row that cannot be read.
pub fn bars_from_rows(symbol: &str, rows: &Vec<Vec<Cell>>) -> (r: Result<Vec<Bar>, RowError>)
    ensures
        match first_bad_row(rows_view(rows@), 5) {
            Some((_, e)) => r == Err::<Vec<Bar>, RowError>(e),
            None => r matches Ok(bars) && bars@.len() == rows@.len() && forall|i: int|
                0 <= i < rows@.len() ==> bar_of_row(#[trigger] bars@[i], symbol@, rows@[i]@),
        },
{
    let ghost rv = rows_view(rows@);
    let mut out: Vec<Bar> = Vec::new();
    let n = rows.len();
    let mut i: usize = 0;
    while i < n
        invariant
            n == rows@.len(),
            i <= n,
            rv == rows_view(rows@),
            first_bad_row(rv.take(i as int), 5) is None,
            out@.len() == i,
            forall|j: int| 0 <= j < i ==> bar_of_row(#[trigger] out@[j], symbol@, rows@[j]@),
        decreases n - i,
    {
        proof {
            assert(rv[i as int] == rows@[i as int]@);
        }
        match read_row(&rows[i], 5) {
            Ok((ts, ds)) => {
                proof {
                    assert(rv.take(i + 1).drop_last() =~= rv.take(i as int));
                }
                out.push(Bar {
                    symbol: symbol.to_string(),
                    ts_ns: ts,
                    open: ds[0],
                    high: ds[1],
                    low: ds[2],
                    close: ds[3],
                    volume: ds[4],
                });
            },
            Err(e) => {
                proof {
                    lemma_first_bad_row_prefix(rv, 5, i as int);
                    lemma_first_bad_row_extends(rv, 5, i as int);
                }
                return Err(e);
            },
        }
        i = i + 1;
    }
    proof {
        assert(rv.take(n as int) =~= rv);
    }
    Ok(out)
}

/// The book snapshots of `symbol` that the reply rows give, in row order,
/// or the error of the first row that cannot be read.
pub fn snapshots_from_rows(symbol: &str, rows: &Vec<Vec<Cell>>) -> (r: Result<Vec<DepthSnapshot>, RowError>)
    ensures
        match first_bad_row(rows_view(rows@), 4) {
            Some((_, e)) => r == Err::<Vec<DepthSnapshot>, RowError>(e),
            None => r matches Ok(snaps) && snaps@.len() == rows@.len() && forall|i: int|
                0 <= i < rows@.len() ==> snapshot_of_row(#[trigger] snaps@[i], symbol@, rows@[i]@),
        },
{
    let ghost rv = rows_view(rows@);
    let mut out: Vec<DepthSnapshot> = Vec::new();
    let n = rows.len();
    let mut i: usize = 0;
    while i < n
        invariant
            n == rows@.len(),
            i <= n,
            rv == rows_view(rows@),
            first_bad_row(rv.take(i as int), 4) is None,
            out@.len() == i,
            forall|j: int| 0 <= j < i ==> snapshot_of_row(#[trigger] out@[j], symbol@, rows@[j]@),
        decreases n - i,
    {
        proof {
            assert(rv[i as int] == rows@[i as int]@);
        }
        match read_row(&rows[i], 4) {
            Ok((ts, ds)) => {
                proof {
                    assert(rv.take(i + 1).drop_last() =~= rv.take(i as int));
                }
                out.push(DepthSnapshot {
                    symbol: symbol.to_string(),
                    ts_ns: ts,
                    bid1_price: ds[0],
                    bid1_qty: ds[1],
                    ask1_price: ds[2],
                    ask1_qty: ds[3],
                });
            },
            Err(e) => {
                proof {
                    lemma_first_bad_row_prefix(rv, 4, i as int);
                    lemma_first_bad_row_extends(rv, 4, i as int);
                }
                return Err(e);
            },
        }
        i = i + 1;
    }
    proof {
        assert(rv.take(n as int) =~= rv);
    }
    Ok(out)
}

} // verus!
