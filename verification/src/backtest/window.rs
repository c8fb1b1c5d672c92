//! The time window of a backtest run, from `YYYY-MM-DD` dates at UTC
//! midnight.

use vstd::prelude::*;
use chrono::{DateTime, NaiveDate, TimeZone, Utc};

verus! {

/// The nanoseconds since the epoch of UTC midnight of the date that chrono
/// reads from the text with the format `%Y-%m-%d`, or `None` where it reads
/// no date or the instant does not fit in an `i64`.
pub uninterp spec fn date_midnight_nanos(s: Seq<char>) -> Option<i64>;

/// Calls `NaiveDate::parse_from_str` with `%Y-%m-%d`, takes midnight with
/// `and_hms_opt(0, 0, 0)` (which always exists) as a UTC instant, and
/// returns `timestamp_nanos_opt` of it.
#[verifier::external_body]
pub(crate) fn parse_date_to_ns(s: &str) -> (r: Option<i64>)
    ensures
        r == date_midnight_nanos(s@),
{
    let date = match NaiveDate::parse_from_str(s, "%Y-%m-%d") {
        Ok(d) => d,
        Err(_) => return None,
    };
    let naive = date.and_hms_opt(0, 0, 0)?;
    let dt: DateTime<Utc> = Utc.from_utc_datetime(&naive);
    dt.timestamp_nanos_opt()
}

/// Why the dates do not make a window.
#[derive(Clone, Copy, Debug, PartialEq, Eq, Structural)]
pub enum WindowError {
    /// The start date cannot be read.
    BadFrom,
    /// The end date cannot be read.
    BadTo,
    /// The end is not after the start.
    Empty,
}

/// `r` is the window from `f` to `t`: refused as empty unless `t` comes
/// after `f`.
pub open spec fn window_of(f: i64, t: i64, r: Result<(i64, i64), WindowError>) -> bool {
    if t <= f {
        r == Err::<(i64, i64), WindowError>(WindowError::Empty)
    } else {
        r == Ok::<(i64, i64), WindowError>((f, t))
    }
}

/// Law: a window is given exactly when the end comes after the start, and
/// then it runs from the start to the end; otherwise it is refused as empty.
pub proof fn law_window_nonempty(f: i64, t: i64, r: Result<(i64, i64), WindowError>)
    requires
        window_of(f, t, r),
    ensures
        r is Ok <==> f < t,
        r matches Ok((a, b)) ==> a == f && b == t && a < b,
        r matches Err(e) ==> e == WindowError::Empty,
{
}

/// The window `[from, to)` in nanoseconds: the start date is read first,
/// then the end date, and the end must come after the start.
pub fn backtest_window(from: &str, to: &str) -> (r: Result<(i64, i64), WindowError>)
    ensures
        date_midnight_nanos(from@) is None ==> r == Err::<(i64, i64), WindowError>(WindowError::BadFrom),
        date_midnight_nanos(from@) is Some && date_midnight_nanos(to@) is None
            ==> r == Err::<(i64, i64), WindowError>(WindowError::BadTo),
        date_midnight_nanos(from@) is Some && date_midnight_nanos(to@) is Some ==> window_of(
            date_midnight_nanos(from@)->0,
            date_midnight_nanos(to@)->0,
            r,
        ),
{
    let f = match parse_date_to_ns(from) {
        Some(v) => v,
        None => return Err(WindowError::BadFrom),
    };
    let t = match parse_date_to_ns(to) {
        Some(v) => v,
        None => return Err(WindowError::BadTo),
    };
    if t <= f {
        Err(WindowError::Empty)
    } else {
        Ok((f, t))
    }
}

} // verus!
