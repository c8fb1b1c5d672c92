//! Wall-clock instants and order identifiers, taken from `chrono` and `uuid`.

use vstd::prelude::*;
use vstd::arithmetic::power::pow;
use chrono::TimeZone;

verus! {

/// An instant on the UTC time line: whole seconds since the Unix epoch and
/// the nanoseconds past that second, as `chrono::DateTime<Utc>` reports them.
#[derive(Clone, Copy, Debug, PartialEq, Eq, Structural)]
pub struct UtcTime {
    pub secs: i64,
    pub nanos: u32,
}

impl UtcTime {
    /// Nanoseconds since the epoch.
    pub open spec fn total_nanos(self) -> int {
        self.secs * 1_000_000_000 + self.nanos
    }

    /// The instant `ns` nanoseconds after the epoch, as
    /// `chrono::Utc.timestamp_nanos` builds it.
    pub fn from_nanos(ns: i64) -> (r: UtcTime)
        ensures
            r.total_nanos() == ns as int,
            r.nanos < 1_000_000_000,
    {
        let mut secs: i64 = ns / 1_000_000_000;
        let mut rem: i64 = ns % 1_000_000_000;
        if rem < 0 {
            secs = secs - 1;
            rem = rem + 1_000_000_000;
        }
        UtcTime { secs, nanos: rem as u32 }
    }
}

/// Reads `SystemTime::now` and takes its `duration_since(UNIX_EPOCH)`, a
/// clock set before the epoch reading as the epoch; the sub-second part is
/// below a second, as `Duration::subsec_nanos` documents. The instant
/// depends on the clock: nothing more is stated of it.
#[verifier::external_body]
pub(crate) fn utc_now() -> (r: UtcTime)
    ensures
        r.nanos < 1_000_000_000,
{
    let d = match std::time::SystemTime::now().duration_since(std::time::UNIX_EPOCH) {
        Ok(d) => d,
        Err(_) => std::time::Duration::ZERO,
    };
    UtcTime { secs: d.as_secs() as i64, nanos: d.subsec_nanos() }
}

/// The seconds and sub-second nanoseconds of the single instant that
/// `chrono::Utc.timestamp_millis_opt(ms)` gives, or `None` where it gives
/// none.
pub uninterp spec fn chrono_from_millis(ms: i64) -> Option<(i64, u32)>;

/// The instant with the given seconds and nanoseconds.
pub open spec fn time_of(p: Option<(i64, u32)>) -> Option<UtcTime> {
    match p {
        Some((s, n)) => Some(UtcTime { secs: s, nanos: n }),
        None => None,
    }
}

/// Milliseconds within about 253,000 years of the epoch: well inside the
/// dates chrono documents (262,144 BCE to 262,142 CE).
pub open spec fn in_chrono_range(ms: i64) -> bool {
    -8_000_000_000_000_000 <= ms <= 8_000_000_000_000_000
}

/// Calls `chrono::TimeZone::timestamp_millis_opt` on `Utc` and keeps the
/// single result; when there is one it is `ms` milliseconds after the epoch,
/// its sub-second part below a second, and there is one for every `ms`
/// within chrono's documented date range.
#[verifier::external_body]
pub(crate) fn utc_from_millis(ms: i64) -> (r: Option<UtcTime>)
    ensures
        r == time_of(chrono_from_millis(ms)),
        r matches Some(t) ==> t.total_nanos() == ms as int * 1_000_000 && t.nanos < 1_000_000_000,
        in_chrono_range(ms) ==> r is Some,
{
    match chrono::Utc.timestamp_millis_opt(ms).single() {
        Some(t) => Some(UtcTime { secs: t.timestamp(), nanos: t.timestamp_subsec_nanos() }),
        None => None,
    }
}

/// Reads `SystemTime::now` (a clock before the epoch reads as the epoch)
/// and calls `uuid::Uuid::new_v7` on `Timestamp::from_unix` of it; returns
/// the 128-bit value: its leading bits are the millisecond, the rest random,
/// so identifiers made within one millisecond are in no particular order.
/// The value depends on the clock and on chance: nothing is stated of it. uuid draws the random bits from the operating system and
/// panics only where that source fails, which no argument here can prevent.
#[verifier::external_body]
pub(crate) fn new_order_id() -> (r: u128) {
    let d = match std::time::SystemTime::now().duration_since(std::time::UNIX_EPOCH) {
        Ok(d) => d,
        Err(_) => std::time::Duration::ZERO,
    };
    uuid::Uuid::new_v7(uuid::Timestamp::from_unix(uuid::NoContext, d.as_secs(), d.subsec_nanos())).as_u128()
}

/// Lower-case hexadecimal digit of `v` (0 to 15).
pub open spec fn hex_digit(v: int) -> char {
    if v < 10 {
        (48 + v) as char
    } else {
        (87 + v) as char
    }
}

/// The 32 lower-case hexadecimal digits of `id`, most significant first.
pub open spec fn uuid_simple(id: u128) -> Seq<char> {
    Seq::new(32, |i: int| hex_digit((id as int / pow(16, (31 - i) as nat)) % 16))
}

/// The hyphenated form `8-4-4-4-12` of the digits of `id`.
pub open spec fn uuid_hyphenated(id: u128) -> Seq<char> {
    let s = uuid_simple(id);
    s.subrange(0, 8) + seq!['-'] + s.subrange(8, 12) + seq!['-'] + s.subrange(12, 16) + seq!['-']
        + s.subrange(16, 20) + seq!['-'] + s.subrange(20, 32)
}

/// Calls `<uuid::Uuid as Display>::to_string` on `Uuid::from_u128(id)`: the
/// text is the lower-case hyphenated form of the big-endian value.
#[verifier::external_body]
pub(crate) fn order_id_text(id: u128) -> (r: String)
    ensures
        r@ == uuid_hyphenated(id),
{
    uuid::Uuid::from_u128(id).to_string()
}

} // verus!
