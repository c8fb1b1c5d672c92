//! Runtime tunables with defaults, overridden by `(type, key, value)` rows.

use vstd::prelude::*;
use crate::text::{text_eq, parse_u64, parse_usize, parse_unsigned_spec, digits_value, all_digits};

verus! {

#[derive(Clone, Debug)]
pub struct RuntimeConfig {
    pub binance: BinanceRuntimeConfig,
    pub alternative: AlternativeRuntimeConfig,
    pub questdb: QuestDbRuntimeConfig,
}

#[derive(Clone, Copy, Debug, PartialEq, Eq, Structural)]
pub struct BinanceRuntimeConfig {
    pub reconnect_delay_sec: u64,
    pub read_timeout_sec: u64,
}

#[derive(Clone, Copy, Debug, PartialEq, Eq, Structural)]
pub struct AlternativeRuntimeConfig {
    pub fallback_interval_sec: u64,
    pub retry_interval_sec: u64,
}

#[derive(Clone, Copy, Debug, PartialEq, Eq, Structural)]
pub struct QuestDbRuntimeConfig {
    pub batch_max_rows: usize,
    pub batch_interval_ms: u64,
    pub buffer_max_bytes: usize,
}

impl Default for BinanceRuntimeConfig {
    fn default() -> (r: BinanceRuntimeConfig)
        ensures
            r == (BinanceRuntimeConfig { reconnect_delay_sec: 5, read_timeout_sec: 60 }),
    {
        BinanceRuntimeConfig { reconnect_delay_sec: 5, read_timeout_sec: 60 }
    }
}

impl Default for AlternativeRuntimeConfig {
    fn default() -> (r: AlternativeRuntimeConfig)
        ensures
            r == (AlternativeRuntimeConfig { fallback_interval_sec: 60, retry_interval_sec: 5 }),
    {
        AlternativeRuntimeConfig { fallback_interval_sec: 60, retry_interval_sec: 5 }
    }
}

impl Default for QuestDbRuntimeConfig {
    fn default() -> (r: QuestDbRuntimeConfig)
        ensures
            r == (QuestDbRuntimeConfig { batch_max_rows: 5_000, batch_interval_ms: 100, buffer_max_bytes: 1_048_576 }),
    {
        QuestDbRuntimeConfig { batch_max_rows: 5_000, batch_interval_ms: 100, buffer_max_bytes: 1_048_576 }
    }
}

impl Default for RuntimeConfig {
    fn default() -> (r: RuntimeConfig)
        ensures
            r == RuntimeConfig::spec_default(),
    {
        RuntimeConfig {
            binance: BinanceRuntimeConfig::default(),
            alternative: AlternativeRuntimeConfig::default(),
            questdb: QuestDbRuntimeConfig::default(),
        }
    }
}

/// `target` after reading `value` into it: the number when `value` is one
/// that fits, otherwise unchanged.
pub open spec fn parsed_or(value: Seq<char>, target: int, max: int) -> int {
    match parse_unsigned_spec(value, max) {
        Some(v) => v,
        None => target,
    }
}

/// One configuration row applied to `cfg`: a known type and key sets its
/// value when the value parses; anything else leaves `cfg` as it was.
pub open spec fn apply_row(cfg: RuntimeConfig, row: (Seq<char>, Seq<char>, Seq<char>)) -> RuntimeConfig {
    let (ty, key, value) = row;
    if ty == "binance"@ {
        if key == "reconnect_delay_sec"@ {
            RuntimeConfig { binance: BinanceRuntimeConfig { reconnect_delay_sec: parsed_or(value, cfg.binance.reconnect_delay_sec as int, u64::MAX as int) as u64, ..cfg.binance }, ..cfg }
        } else if key == "read_timeout_sec"@ {
            RuntimeConfig { binance: BinanceRuntimeConfig { read_timeout_sec: parsed_or(value, cfg.binance.read_timeout_sec as int, u64::MAX as int) as u64, ..cfg.binance }, ..cfg }
        } else {
            cfg
        }
    } else if ty == "alternative"@ {
        if key == "fallback_interval_sec"@ {
            RuntimeConfig { alternative: AlternativeRuntimeConfig { fallback_interval_sec: parsed_or(value, cfg.alternative.fallback_interval_sec as int, u64::MAX as int) as u64, ..cfg.alternative }, ..cfg }
        } else if key == "retry_interval_sec"@ {
            RuntimeConfig { alternative: AlternativeRuntimeConfig { retry_interval_sec: parsed_or(value, cfg.alternative.retry_interval_sec as int, u64::MAX as int) as u64, ..cfg.alternative }, ..cfg }
        } else {
            cfg
        }
    } else if ty == "questdb"@ {
        if key == "batch_max_rows"@ {
            RuntimeConfig { questdb: QuestDbRuntimeConfig { batch_max_rows: parsed_or(value, cfg.questdb.batch_max_rows as int, usize::MAX as int) as usize, ..cfg.questdb }, ..cfg }
        } else if key == "batch_interval_ms"@ {
            RuntimeConfig { questdb: QuestDbRuntimeConfig { batch_interval_ms: parsed_or(value, cfg.questdb.batch_interval_ms as int, u64::MAX as int) as u64, ..cfg.questdb }, ..cfg }
        } else if key == "buffer_max_bytes"@ {
            RuntimeConfig { questdb: QuestDbRuntimeConfig { buffer_max_bytes: parsed_or(value, cfg.questdb.buffer_max_bytes as int, usize::MAX as int) as usize, ..cfg.questdb }, ..cfg }
        } else {
            cfg
        }
    } else {
        cfg
    }
}

/// The rows' texts.
pub open spec fn row_texts(rows: Seq<(String, String, String)>) -> Seq<(Seq<char>, Seq<char>, Seq<char>)> {
    rows.map_values(|r: (String, String, String)| (r.0@, r.1@, r.2@))
}

/// The defaults with the rows applied in order.
pub open spec fn apply_rows(cfg: RuntimeConfig, rows: Seq<(Seq<char>, Seq<char>, Seq<char>)>) -> RuntimeConfig
    decreases rows.len(),
{
    if rows.len() == 0 {
        cfg
    } else {
        apply_row(apply_rows(cfg, rows.drop_last()), rows.last())
    }
}

/// A string of digits spells a number no smaller than zero.
proof fn lemma_digits_nonnegative(s: Seq<char>)
    requires
        all_digits(s),
    ensures
        digits_value(s) >= 0,
    decreases s.len(),
{
    if s.len() > 0 {
        assert(all_digits(s.drop_last()));
        lemma_digits_nonnegative(s.drop_last());
        assert('0' <= s[s.len() - 1]);
    }
}

/// Law: what the standard library reads as an unsigned number lies
/// between zero and the limit.
pub proof fn lemma_parsed_in_range(value: Seq<char>, max: int)
    ensures
        parse_unsigned_spec(value, max) matches Some(v) ==> 0 <= v <= max,
{
    let body = if value.len() > 0 && value[0] == '+' { value.drop_first() } else { value };
    if all_digits(body) {
        lemma_digits_nonnegative(body);
    }
}

/// Law: a row `(type, key, value)` of a known type and key whose value is
/// a number that fits sets exactly that setting to the number; a value that
/// is not leaves it as it was; every other setting keeps its value.
pub proof fn law_config_row_sets_one_setting(cfg: RuntimeConfig, value: Seq<char>)
    ensures
        ({
            let c = apply_row(cfg, ("binance"@, "reconnect_delay_sec"@, value));
            &&& (parse_unsigned_spec(value, u64::MAX as int) matches Some(v) ==> c.binance.reconnect_delay_sec as int == v)
            &&& (parse_unsigned_spec(value, u64::MAX as int) is None ==> c.binance.reconnect_delay_sec == cfg.binance.reconnect_delay_sec)
            &&& c.binance.read_timeout_sec == cfg.binance.read_timeout_sec
            &&& c.alternative == cfg.alternative && c.questdb == cfg.questdb
        }),
        ({
            let c = apply_row(cfg, ("binance"@, "read_timeout_sec"@, value));
            &&& (parse_unsigned_spec(value, u64::MAX as int) matches Some(v) ==> c.binance.read_timeout_sec as int == v)
            &&& (parse_unsigned_spec(value, u64::MAX as int) is None ==> c.binance.read_timeout_sec == cfg.binance.read_timeout_sec)
            &&& c.binance.reconnect_delay_sec == cfg.binance.reconnect_delay_sec
            &&& c.alternative == cfg.alternative && c.questdb == cfg.questdb
        }),
        ({
            let c = apply_row(cfg, ("alternative"@, "fallback_interval_sec"@, value));
            &&& (parse_unsigned_spec(value, u64::MAX as int) matches Some(v) ==> c.alternative.fallback_interval_sec as int == v)
            &&& (parse_unsigned_spec(value, u64::MAX as int) is None ==> c.alternative.fallback_interval_sec == cfg.alternative.fallback_interval_sec)
            &&& c.alternative.retry_interval_sec == cfg.alternative.retry_interval_sec
            &&& c.binance == cfg.binance && c.questdb == cfg.questdb
        }),
        ({
            let c = apply_row(cfg, ("alternative"@, "retry_interval_sec"@, value));
            &&& (parse_unsigned_spec(value, u64::MAX as int) matches Some(v) ==> c.alternative.retry_interval_sec as int == v)
            &&& (parse_unsigned_spec(value, u64::MAX as int) is None ==> c.alternative.retry_interval_sec == cfg.alternative.retry_interval_sec)
            &&& c.alternative.fallback_interval_sec == cfg.alternative.fallback_interval_sec
            &&& c.binance == cfg.binance && c.questdb == cfg.questdb
        }),
        ({
            let c = apply_row(cfg, ("questdb"@, "batch_max_rows"@, value));
            &&& (parse_unsigned_spec(value, usize::MAX as int) matches Some(v) ==> c.questdb.batch_max_rows as int == v)
            &&& (parse_unsigned_spec(value, usize::MAX as int) is None ==> c.questdb.batch_max_rows == cfg.questdb.batch_max_rows)
            &&& c.questdb.batch_interval_ms == cfg.questdb.batch_interval_ms && c.questdb.buffer_max_bytes == cfg.questdb.buffer_max_bytes
            &&& c.binance == cfg.binance && c.alternative == cfg.alternative
        }),
        ({
            let c = apply_row(cfg, ("questdb"@, "batch_interval_ms"@, value));
            &&& (parse_unsigned_spec(value, u64::MAX as int) matches Some(v) ==> c.questdb.batch_interval_ms as int == v)
            &&& (parse_unsigned_spec(value, u64::MAX as int) is None ==> c.questdb.batch_interval_ms == cfg.questdb.batch_interval_ms)
            &&& c.questdb.batch_max_rows == cfg.questdb.batch_max_rows && c.questdb.buffer_max_bytes == cfg.questdb.buffer_max_bytes
            &&& c.binance == cfg.binance && c.alternative == cfg.alternative
        }),
        ({
            let c = apply_row(cfg, ("questdb"@, "buffer_max_bytes"@, value));
            &&& (parse_unsigned_spec(value, usize::MAX as int) matches Some(v) ==> c.questdb.buffer_max_bytes as int == v)
            &&& (parse_unsigned_spec(value, usize::MAX as int) is None ==> c.questdb.buffer_max_bytes == cfg.questdb.buffer_max_bytes)
            &&& c.questdb.batch_max_rows == cfg.questdb.batch_max_rows && c.questdb.batch_interval_ms == cfg.questdb.batch_interval_ms
            &&& c.binance == cfg.binance && c.alternative == cfg.alternative
        }),
{
    lemma_parsed_in_range(value, u64::MAX as int);
    lemma_parsed_in_range(value, usize::MAX as int);
    reveal_strlit("binance");
    reveal_strlit("alternative");
    reveal_strlit("questdb");
    reveal_strlit("reconnect_delay_sec");
    reveal_strlit("read_timeout_sec");
    reveal_strlit("fallback_interval_sec");
    reveal_strlit("retry_interval_sec");
    reveal_strlit("batch_max_rows");
    reveal_strlit("batch_interval_ms");
    reveal_strlit("buffer_max_bytes");
    assert("alternative"@[0] != "binance"@[0]);
    assert("questdb"@[0] != "binance"@[0] && "questdb"@[0] != "alternative"@[0]);
    assert("read_timeout_sec"@[2] != "reconnect_delay_sec"@[2]);
    assert("retry_interval_sec"@[0] != "fallback_interval_sec"@[0]);
    assert("batch_interval_ms"@[6] != "batch_max_rows"@[6]);
    assert("buffer_max_bytes"@[1] != "batch_max_rows"@[1] && "buffer_max_bytes"@[1] != "batch_interval_ms"@[1]);
}

/// Law: a row of a type other than `binance`, `alternative` and `questdb`
/// changes nothing.
pub proof fn law_config_unknown_type_ignored(cfg: RuntimeConfig, row: (Seq<char>, Seq<char>, Seq<char>))
    requires
        row.0 != "binance"@,
        row.0 != "alternative"@,
        row.0 != "questdb"@,
    ensures
        apply_row(cfg, row) == cfg,
{
}

impl RuntimeConfig {
    pub open spec fn spec_default() -> RuntimeConfig {
        RuntimeConfig {
            binance: BinanceRuntimeConfig { reconnect_delay_sec: 5, read_timeout_sec: 60 },
            alternative: AlternativeRuntimeConfig { fallback_interval_sec: 60, retry_interval_sec: 5 },
            questdb: QuestDbRuntimeConfig { batch_max_rows: 5_000, batch_interval_ms: 100, buffer_max_bytes: 1_048_576 },
        }
    }

    /// The defaults overridden by the rows, in order.
    pub fn from_rows(rows: &[(String, String, String)]) -> (cfg: RuntimeConfig)
        ensures
            cfg == apply_rows(RuntimeConfig::spec_default(), row_texts(rows@)),
    {
        let mut cfg = RuntimeConfig::default();
        let n = rows.len();
        let mut i: usize = 0;
        proof {
            assert(row_texts(rows@).take(0) =~= Seq::<(Seq<char>, Seq<char>, Seq<char>)>::empty());
        }
        while i < n
            invariant
                n == rows@.len(),
                i <= n,
                cfg == apply_rows(RuntimeConfig::spec_default(), row_texts(rows@).take(i as int)),
            decreases n - i,
        {
            proof {
                assert(row_texts(rows@).take(i + 1).drop_last() =~= row_texts(rows@).take(i as int));
            }
            let row = &rows[i];
            let cfg_type = row.0.as_str();
            let key = row.1.as_str();
            let value = row.2.as_str();
            if text_eq(cfg_type, "binance") {
                cfg.binance_rows(key, value);
            } else if text_eq(cfg_type, "alternative") {
                cfg.alternative_rows(key, value);
            } else if text_eq(cfg_type, "questdb") {
                cfg.questdb_rows(key, value);
            }
            i = i + 1;
        }
        proof {
            assert(row_texts(rows@).take(n as int) =~= row_texts(rows@));
        }
        cfg
    }

    fn binance_rows(&mut self, key: &str, value: &str)
        ensures
            *final(self) == apply_row(*old(self), ("binance"@, key@, value@)),
    {
        if text_eq(key, "reconnect_delay_sec") {
            parse(value, &mut self.binance.reconnect_delay_sec);
        } else if text_eq(key, "read_timeout_sec") {
            parse(value, &mut self.binance.read_timeout_sec);
        }
    }

    fn alternative_rows(&mut self, key: &str, value: &str)
        ensures
            *final(self) == apply_row(*old(self), ("alternative"@, key@, value@)),
    {
        proof {
            reveal_strlit("alternative");
            reveal_strlit("binance");
            assert("alternative"@.len() != "binance"@.len());
        }
        if text_eq(key, "fallback_interval_sec") {
            parse(value, &mut self.alternative.fallback_interval_sec);
        } else if text_eq(key, "retry_interval_sec") {
            parse(value, &mut self.alternative.retry_interval_sec);
        }
    }

    fn questdb_rows(&mut self, key: &str, value: &str)
        ensures
            *final(self) == apply_row(*old(self), ("questdb"@, key@, value@)),
    {
        proof {
            reveal_strlit("questdb");
            reveal_strlit("alternative");
            reveal_strlit("binance");
            assert("questdb"@[0] != "binance"@[0]);
            assert("questdb"@.len() != "alternative"@.len());
        }
        if text_eq(key, "batch_max_rows") {
            parse_count(value, &mut self.questdb.batch_max_rows);
        } else if text_eq(key, "batch_interval_ms") {
            parse(value, &mut self.questdb.batch_interval_ms);
        } else if text_eq(key, "buffer_max_bytes") {
            parse_count(value, &mut self.questdb.buffer_max_bytes);
        }
    }
}

/// Sets `target` to the number `value` spells, if it spells one that fits.
fn parse(value: &str, target: &mut u64)
    ensures
        *final(target) as int == parsed_or(value@, *old(target) as int, u64::MAX as int),
{
    if let Some(v) = parse_u64(value) {
        *target = v;
    }
}

/// Sets `target` to the count `value` spells, if it spells one that fits.
fn parse_count(value: &str, target: &mut usize)
    ensures
        *final(target) as int == parsed_or(value@, *old(target) as int, usize::MAX as int),
{
    if let Some(v) = parse_usize(value) {
        *target = v;
    }
}

} // verus!
