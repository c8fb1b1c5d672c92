//! The fear and greed index of alternative.me: its reply, and when the
//! feed fetches next.

use vstd::prelude::*;
use crate::config::runtime::{AlternativeRuntimeConfig, parsed_or};
use crate::market_data::types::FearGreed;
use crate::text::{parse_u64, parse_i64, parse_signed_spec, parse_unsigned_spec};

verus! {

/// The index's classification of a reading.
#[derive(Clone, Copy, Debug, PartialEq, Eq, Structural)]
pub enum FngStatus {
    ExtremeFear,
    Fear,
    Neutral,
    Greed,
    ExtremeGreed,
}

/// One reading, as the service sends it.
#[derive(Clone, Debug)]
pub struct FngData {
    pub value: String,
    pub status: FngStatus,
    /// Seconds since the epoch, as text.
    pub timestamp: String,
    /// Seconds until the next reading, as text.
    pub time_until_update: String,
}

/// The service's reply.
#[derive(Clone, Debug)]
pub struct FngResponse {
    pub name: String,
    pub data: Vec<FngData>,
}

/// The service's name of a classification.
pub open spec fn status_label(s: FngStatus) -> Seq<char> {
    match s {
        FngStatus::ExtremeFear => "Extreme Fear"@,
        FngStatus::Fear => "Fear"@,
        FngStatus::Neutral => "Neutral"@,
        FngStatus::Greed => "Greed"@,
        FngStatus::ExtremeGreed => "Extreme Greed"@,
    }
}

/// Law: the classifications are named as the service names them.
pub proof fn law_status_labels()
    ensures
        status_label(FngStatus::ExtremeFear) == "Extreme Fear"@,
        status_label(FngStatus::Fear) == "Fear"@,
        status_label(FngStatus::Neutral) == "Neutral"@,
        status_label(FngStatus::Greed) == "Greed"@,
        status_label(FngStatus::ExtremeGreed) == "Extreme Greed"@,
{
}

impl FngStatus {
    /// The service's name of this classification.
    pub fn label(&self) -> (r: &'static str)
        ensures
            r@ == status_label(*self),
    {
        match self {
            FngStatus::ExtremeFear => "Extreme Fear",
            FngStatus::Fear => "Fear",
            FngStatus::Neutral => "Neutral",
            FngStatus::Greed => "Greed",
            FngStatus::ExtremeGreed => "Extreme Greed",
        }
    }
}

/// The seconds a reading's timestamp spells, 0 when it spells none.
pub open spec fn timestamp_secs(d: FngData) -> i64 {
    match parse_signed_spec(d.timestamp@, i64::MIN as int, i64::MAX as int) {
        Some(v) => v as i64,
        None => 0,
    }
}

impl FngData {
    /// The reading as stored: its value, the name of its classification and
    /// its timestamp in seconds (0 when the timestamp is not a number).
    pub fn to_fear_greed(&self) -> (r: FearGreed)
        ensures
            r.value@ == self.value@,
            r.status@ == status_label(self.status),
            r.timestamp_sec == timestamp_secs(*self),
    {
        let ts: i64 = match parse_i64(self.timestamp.as_str()) {
            Some(v) => v,
            None => 0,
        };
        FearGreed { value: self.value.clone(), status: self.status.label().to_string(), timestamp_sec: ts }
    }
}

/// The feed of the index, with its retry and fallback intervals.
pub struct AlternativeFngFeed {
    cfg: AlternativeRuntimeConfig,
}

impl AlternativeFngFeed {
    pub fn new(cfg: AlternativeRuntimeConfig) -> (r: AlternativeFngFeed)
        ensures
            r.config() == cfg,
    {
        AlternativeFngFeed { cfg }
    }

    pub closed spec fn config(&self) -> AlternativeRuntimeConfig {
        self.cfg
    }

    /// The intervals the feed waits by.
    pub fn runtime_config(&self) -> (r: AlternativeRuntimeConfig)
        ensures
            r == self.config(),
    {
        self.cfg
    }
}

/// What the feed does after one fetch.
#[derive(Clone, Debug)]
pub enum FngStep {
    /// Nothing to deliver: fetch again after this many seconds.
    Retry { delay_sec: u64 },
    /// Deliver the reading, then fetch again after this many seconds.
    Deliver { data: FngData, delay_sec: u64 },
}

/// The step after a fetch: where the request or its parsing failed
/// (`None`) or the reply holds no reading, retry after the retry interval;
/// otherwise deliver the first reading and wait the seconds it announces,
/// or the fallback interval when it announces none that fits.
pub open spec fn fetch_step(cfg: AlternativeRuntimeConfig, fetched: Option<FngResponse>, r: FngStep) -> bool {
    match fetched {
        None => r == FngStep::Retry { delay_sec: cfg.retry_interval_sec },
        Some(resp) => if resp.data@.len() == 0 {
            r == FngStep::Retry { delay_sec: cfg.retry_interval_sec }
        } else {
            r == FngStep::Deliver {
                data: resp.data@[0],
                delay_sec: parsed_or(
                    resp.data@[0].time_until_update@,
                    cfg.fallback_interval_sec as int,
                    u64::MAX as int,
                ) as u64,
            }
        },
    }
}

/// Law: a failed fetch, or a reply without readings, is retried after the
/// retry interval; otherwise the first reading is delivered and the next
/// fetch waits the seconds it announces when they are a number that fits,
/// else the fallback interval.
pub proof fn law_fetch_step(cfg: AlternativeRuntimeConfig, fetched: Option<FngResponse>, r: FngStep)
    requires
        fetch_step(cfg, fetched, r),
    ensures
        fetched is None ==> r == (FngStep::Retry { delay_sec: cfg.retry_interval_sec }),
        fetched matches Some(resp) ==> (resp.data@.len() == 0 ==> r == (FngStep::Retry { delay_sec: cfg.retry_interval_sec })),
        fetched matches Some(resp) ==> (resp.data@.len() > 0 ==> (r matches FngStep::Deliver { data, delay_sec } && {
            &&& data == resp.data@[0]
            &&& (parse_unsigned_spec(resp.data@[0].time_until_update@, u64::MAX as int) matches Some(v) ==> delay_sec as int == v)
            &&& (parse_unsigned_spec(resp.data@[0].time_until_update@, u64::MAX as int) is None ==> delay_sec == cfg.fallback_interval_sec)
        })),
{
    if let Some(resp) = fetched {
        if resp.data@.len() > 0 {
            crate::config::runtime::lemma_parsed_in_range(resp.data@[0].time_until_update@, u64::MAX as int);
        }
    }
}

/// Decides what the feed does with the outcome of one fetch.
pub fn plan_fetch(cfg: &AlternativeRuntimeConfig, fetched: Option<FngResponse>) -> (r: FngStep)
    ensures
        fetch_step(*cfg, fetched, r),
{
    match fetched {
        None => FngStep::Retry { delay_sec: cfg.retry_interval_sec },
        Some(resp) => {
            let mut data = resp.data;
            if data.len() == 0 {
                FngStep::Retry { delay_sec: cfg.retry_interval_sec }
            } else {
                let first = data.remove(0);
                let delay: u64 = match parse_u64(first.time_until_update.as_str()) {
                    Some(v) => v,
                    None => cfg.fallback_interval_sec,
                };
                FngStep::Deliver { data: first, delay_sec: delay }
            }
        },
    }
}

} // verus!
