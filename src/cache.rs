//! The single-slot metrics cache and the stale-value recovery policy. Times are
//! milliseconds on a monotonic clock that the caller reads.
use vstd::prelude::*;
use crate::error::SensorError;
use crate::metrics::{blob_decoded, parse_metrics_from_bytes, GpuMetrics};

verus! {

/// How long a cached reading may be served.
#[derive(Debug, Clone, Copy, PartialEq, Eq, Structural)]
pub enum CacheStrategy {
    /// Every read parses fresh data.
    Disabled,
    /// A reading is served again while younger than `max_age` milliseconds.
    Basic { max_age: u64 },
    /// As `Basic`; `change_threshold` (whole percent) is accepted but not yet consulted.
    Aggressive { max_age: u64, change_threshold: u32 },
    /// Every read parses the bytes of a mapping that stays open between reads.
    MemoryMapped,
}

/// Default maximum age of a cached reading, in milliseconds.
pub const DEFAULT_MAX_AGE_MS: u64 = 500;

impl CacheStrategy {
    /// The default strategy: `Basic` with a maximum age of 500 ms.
    pub fn default_strategy() -> (r: Self)
        ensures
            r == (CacheStrategy::Basic { max_age: DEFAULT_MAX_AGE_MS }),
    {
        CacheStrategy::Basic { max_age: DEFAULT_MAX_AGE_MS }
    }

    /// The maximum age of a cached reading, for the strategies that keep one.
    pub open spec fn spec_max_age(self) -> Option<u64> {
        match self {
            CacheStrategy::Basic { max_age } => Some(max_age),
            CacheStrategy::Aggressive { max_age, .. } => Some(max_age),
            _ => None,
        }
    }

    /// Whether successful reads are stored.
    pub open spec fn keeps_entry(self) -> bool {
        !(self is Disabled)
    }
}

/// The cached reading with the time it was taken and the number of reads stored.
#[derive(Debug, Clone, Copy)]
pub struct CachedMetrics {
    pub metrics: GpuMetrics,
    pub timestamp: u64,
    pub read_count: usize,
}

/// The read count of the entry that replaces `prev`.
pub open spec fn next_read_count(prev: Option<CachedMetrics>) -> int {
    match prev {
        Some(p) => if p.read_count < usize::MAX {
            p.read_count + 1
        } else {
            p.read_count as int
        },
        None => 1,
    }
}

/// Milliseconds from `then` to `now`, zero if the clock stands before `then`.
pub open spec fn elapsed(then: u64, now: u64) -> int {
    if now >= then { now - then } else { 0 }
}

/// Reads metrics through one cache slot under one strategy.
#[derive(Debug, Clone, Copy)]
pub struct MetricsReader {
    pub cache_strategy: CacheStrategy,
    pub cache: Option<CachedMetrics>,
    pub error_count: usize,
    pub last_successful_read: Option<u64>,
}

impl MetricsReader {
    /// What a read at `now` serves from the cache, if anything.
    pub open spec fn cached_at(&self, now: u64) -> Option<GpuMetrics> {
        match (self.cache_strategy.spec_max_age(), self.cache) {
            (Some(max_age), Some(c)) => if elapsed(c.timestamp, now) < max_age {
                Some(c.metrics)
            } else {
                None
            },
            _ => None,
        }
    }

    /// A reader with the default strategy and an empty cache.
    pub fn new() -> (r: Self)
        ensures
            r.cache_strategy == (CacheStrategy::Basic { max_age: DEFAULT_MAX_AGE_MS }),
            r.cache is None,
            r.error_count == 0,
            r.last_successful_read is None,
    {
        Self::with_cache_strategy(CacheStrategy::default_strategy())
    }

    /// A reader with the given strategy and an empty cache.
    pub fn with_cache_strategy(strategy: CacheStrategy) -> (r: Self)
        ensures
            r.cache_strategy == strategy,
            r.cache is None,
            r.error_count == 0,
            r.last_successful_read is None,
    {
        MetricsReader {
            cache_strategy: strategy,
            cache: None,
            error_count: 0,
            last_successful_read: None,
        }
    }

    /// The cached reading if the strategy keeps one and it is younger than the
    /// maximum age at `now`.
    pub fn check_cache(&self, now: u64) -> (r: Option<GpuMetrics>)
        ensures
            r == self.cached_at(now),
    {
        let max_age = match self.cache_strategy {
            CacheStrategy::Basic { max_age } => max_age,
            CacheStrategy::Aggressive { max_age, .. } => max_age,
            _ => return None,
        };
        match &self.cache {
            Some(c) => {
                let age = if now >= c.timestamp { now - c.timestamp } else { 0 };
                if age < max_age {
                    Some(c.metrics)
                } else {
                    None
                }
            },
            None => None,
        }
    }

    /// Stores a fresh reading taken at `now`, unless the strategy keeps none.
    pub fn update_cache(&mut self, metrics: GpuMetrics, now: u64)
        ensures
            final(self).cache_strategy == old(self).cache_strategy,
            final(self).error_count == old(self).error_count,
            final(self).last_successful_read == old(self).last_successful_read,
            !old(self).cache_strategy.keeps_entry() ==> final(self).cache == old(self).cache,
            old(self).cache_strategy.keeps_entry() ==> (final(self).cache matches Some(c)
                && c.metrics == metrics && c.timestamp == now && c.read_count == next_read_count(
                old(self).cache,
            )),
    {
        if let CacheStrategy::Disabled = self.cache_strategy {
            return;
        }
        let read_count = match &self.cache {
            Some(p) => if p.read_count < usize::MAX {
                p.read_count + 1
            } else {
                p.read_count
            },
            None => 1,
        };
        self.cache = Some(CachedMetrics { metrics, timestamp: now, read_count });
    }

    /// The second half of a read that the cache did not serve: decodes the bytes read
    /// at `now`. On success the reading is cached and the error state is reset; on
    /// failure the reader is left as it was.
    pub fn complete_read(&mut self, data: &[u8], now: u64) -> (r: Result<GpuMetrics, SensorError>)
        ensures
            blob_decoded(r, data@),
            r is Err ==> *final(self) == *old(self),
            r matches Ok(m) ==> {
                &&& final(self).cache_strategy == old(self).cache_strategy
                &&& final(self).error_count == 0
                &&& final(self).last_successful_read == Some(now)
                &&& (!old(self).cache_strategy.keeps_entry() ==> final(self).cache == old(
                    self,
                ).cache)
                &&& (old(self).cache_strategy.keeps_entry() ==> (final(self).cache matches Some(
                    c,
                ) && c.metrics == m && c.timestamp == now && c.read_count == next_read_count(
                    old(self).cache,
                )))
            },
    {
        let parsed = parse_metrics_from_bytes(data);
        match parsed {
            Ok(m) => {
                self.update_cache(m, now);
                self.error_count = 0;
                self.last_successful_read = Some(now);
                Ok(m)
            },
            Err(e) => Err(e),
        }
    }

    /// Empties the cache, so that the next read parses fresh data.
    pub fn invalidate_cache(&mut self)
        ensures
            final(self).cache is None,
            final(self).cache_strategy == old(self).cache_strategy,
            final(self).error_count == old(self).error_count,
            final(self).last_successful_read == old(self).last_successful_read,
    {
        self.cache = None;
    }

    /// The number of reads stored and the age of the cached one at `now`.
    pub fn cache_stats(&self, now: u64) -> (r: Option<(usize, u64)>)
        ensures
            r == match self.cache {
                Some(c) => Some((c.read_count, elapsed(c.timestamp, now) as u64)),
                None => None,
            },
    {
        match &self.cache {
            Some(c) => {
                let age = if now >= c.timestamp { now - c.timestamp } else { 0 };
                Some((c.read_count, age))
            },
            None => None,
        }
    }
}

/// Under `Basic { max_age }`, once a read at `t0` has stored `m`, a read at `t1` (not
/// before `t0`) is served `m` itself while less than `max_age` has passed, and falls
/// through to a fresh parse afterwards.
pub proof fn lemma_basic_cache_window(reader: MetricsReader, m: GpuMetrics, t0: u64, t1: u64, max_age: u64)
    requires
        reader.cache_strategy == (CacheStrategy::Basic { max_age }),
        reader.cache matches Some(c) && c.metrics == m && c.timestamp == t0,
        t0 <= t1,
    ensures
        t1 - t0 < max_age ==> reader.cached_at(t1) == Some(m),
        t1 - t0 >= max_age ==> reader.cached_at(t1) is None,
{
}

/// Age under which the last good reading may stand in for a failed one, in milliseconds.
pub const RECOVERY_WINDOW_MS: u64 = 10_000;

/// Most consecutive failures that the last good reading may mask.
pub const MAX_MASKED_ERRORS: usize = 3;

/// The sensor's local recovery state: the consecutive failures and the last good
/// reading with its time.
#[derive(Debug, Clone, Copy)]
pub struct ErrorRecovery {
    pub consecutive_errors: usize,
    pub last_error_time: Option<u64>,
    pub last_metrics: Option<(GpuMetrics, u64)>,
}

impl ErrorRecovery {
    /// No failure yet and no reading.
    pub fn new() -> (r: Self)
        ensures
            r.consecutive_errors == 0,
            r.last_error_time is None,
            r.last_metrics is None,
    {
        ErrorRecovery { consecutive_errors: 0, last_error_time: None, last_metrics: None }
    }

    /// Records a successful reading at `now`: the failure count starts again at zero.
    pub fn record_success(&mut self, metrics: GpuMetrics, now: u64)
        ensures
            final(self).consecutive_errors == 0,
            final(self).last_error_time is None,
            final(self).last_metrics == Some((metrics, now)),
    {
        self.consecutive_errors = 0;
        self.last_error_time = None;
        self.last_metrics = Some((metrics, now));
    }

    /// Records a failed read at `now` and returns the reading that masks it: the last
    /// good one, if the failures so far are at most three and it is younger than ten
    /// seconds. `None` means that the error goes to the caller.
    pub fn record_failure(&mut self, now: u64) -> (r: Option<GpuMetrics>)
        ensures
            final(self).consecutive_errors == if old(self).consecutive_errors < usize::MAX {
                old(self).consecutive_errors + 1
            } else {
                old(self).consecutive_errors as int
            },
            final(self).last_error_time == Some(now),
            final(self).last_metrics == old(self).last_metrics,
            r == match old(self).last_metrics {
                Some((m, t)) => if final(self).consecutive_errors <= MAX_MASKED_ERRORS && elapsed(
                    t,
                    now,
                ) < RECOVERY_WINDOW_MS {
                    Some(m)
                } else {
                    None
                },
                None => None,
            },
    {
        if self.consecutive_errors < usize::MAX {
            self.consecutive_errors = self.consecutive_errors + 1;
        }
        self.last_error_time = Some(now);
        if self.consecutive_errors <= MAX_MASKED_ERRORS {
            if let Some((m, t)) = self.last_metrics {
                let age = if now >= t { now - t } else { 0 };
                if age < RECOVERY_WINDOW_MS {
                    return Some(m);
                }
            }
        }
        None
    }

    /// Forgets the last good reading.
    pub fn clear(&mut self)
        ensures
            final(self).last_metrics is None,
            final(self).consecutive_errors == old(self).consecutive_errors,
            final(self).last_error_time == old(self).last_error_time,
    {
        self.last_metrics = None;
    }

    /// Whether the last good reading shows throttling; `None` without a reading.
    pub fn is_throttling(&self) -> (r: Option<bool>)
        ensures
            r == match self.last_metrics {
                Some((m, _)) => Some(m.spec_throttle_status() != 0),
                None => None,
            },
    {
        match &self.last_metrics {
            Some((m, _)) => Some(m.get_throttle_status() != 0),
            None => None,
        }
    }
}

/// What masking a failure at `now` returns, given the recovery state before it.
pub open spec fn masked(before: ErrorRecovery, now: u64) -> Option<GpuMetrics> {
    let count = if before.consecutive_errors < usize::MAX {
        before.consecutive_errors + 1
    } else {
        before.consecutive_errors as int
    };
    match before.last_metrics {
        Some((m, t)) => if count <= MAX_MASKED_ERRORS && elapsed(t, now) < RECOVERY_WINDOW_MS {
            Some(m)
        } else {
            None
        },
        None => None,
    }
}

/// After a successful read of `m` at `now`: the failure count is zero, `m` is the last
/// good reading, and the cache holds `m` taken at `now` unless the strategy keeps
/// none, in which case the cache is unchanged.
pub open spec fn success_recorded(before: SensorReader, after: SensorReader, m: GpuMetrics, now: u64) -> bool {
    &&& after.recovery.consecutive_errors == 0
    &&& after.recovery.last_error_time is None
    &&& after.recovery.last_metrics == Some((m, now))
    &&& after.reader.error_count == 0
    &&& after.reader.last_successful_read == Some(now)
    &&& (before.reader.cache_strategy.keeps_entry() ==> (after.reader.cache matches Some(c)
        && c.metrics == m && c.timestamp == now && c.read_count == next_read_count(
        before.reader.cache,
    )))
    &&& (!before.reader.cache_strategy.keeps_entry() ==> after.reader.cache
        == before.reader.cache)
}

/// After a failed read at `now` with error `e`: the cache and the last good reading are
/// unchanged, the failure count rises by one (saturating) and the failure time is
/// `now`; the result is the masking reading where the policy allows, else `e`.
pub open spec fn failure_recorded(
    before: SensorReader,
    after: SensorReader,
    e: SensorError,
    r: Result<GpuMetrics, SensorError>,
    now: u64,
) -> bool {
    &&& after.reader == before.reader
    &&& after.recovery.last_metrics == before.recovery.last_metrics
    &&& after.recovery.consecutive_errors == if before.recovery.consecutive_errors < usize::MAX {
        before.recovery.consecutive_errors + 1
    } else {
        before.recovery.consecutive_errors as int
    }
    &&& after.recovery.last_error_time == Some(now)
    &&& match masked(before.recovery, now) {
        Some(m) => r == Ok::<GpuMetrics, SensorError>(m),
        None => r == Err::<GpuMetrics, SensorError>(e),
    }
}

/// The read path of the GPU sensor: the cache under its strategy, then local recovery
/// from failed reads. The caller performs the file access in between.
#[derive(Debug, Clone, Copy)]
pub struct SensorReader {
    pub reader: MetricsReader,
    pub recovery: ErrorRecovery,
}

impl SensorReader {
    /// A reader with the given cache strategy, an empty cache and no failures.
    pub fn new(strategy: CacheStrategy) -> (r: Self)
        ensures
            r.reader.cache_strategy == strategy,
            r.reader.cache is None,
            r.recovery.consecutive_errors == 0,
            r.recovery.last_metrics is None,
    {
        SensorReader {
            reader: MetricsReader::with_cache_strategy(strategy),
            recovery: ErrorRecovery::new(),
        }
    }

    /// First step of a read at `now`: the cached reading, if the cache serves one, which
    /// then counts as a successful read. `None` means the caller must read the file.
    pub fn serve_cached(&mut self, now: u64) -> (r: Option<GpuMetrics>)
        ensures
            r == old(self).reader.cached_at(now),
            final(self).reader == old(self).reader,
            r matches Some(m) ==> final(self).recovery == (ErrorRecovery {
                consecutive_errors: 0,
                last_error_time: None,
                last_metrics: Some((m, now)),
            }),
            r is None ==> final(self).recovery == old(self).recovery,
    {
        let hit = self.reader.check_cache(now);
        if let Some(m) = hit {
            self.recovery.record_success(m, now);
        }
        hit
    }

    /// Second step: the outcome of reading the file at `now`, the bytes or the error.
    /// Decoded bytes are the reading, and are cached; a failure, of the read or of the
    /// decoding, is masked by the last good reading where the recovery policy allows,
    /// and is returned otherwise. A failure leaves the cache as it was.
    pub fn finish_read(&mut self, outcome: Result<&[u8], SensorError>, now: u64) -> (r: Result<GpuMetrics, SensorError>)
        ensures
            final(self).reader.cache_strategy == old(self).reader.cache_strategy,
            match outcome {
                Ok(bytes) => exists|p: Result<GpuMetrics, SensorError>| {
                    &&& blob_decoded(p, bytes@)
                    &&& match p {
                        Ok(m) => r == Ok::<GpuMetrics, SensorError>(m) && success_recorded(
                            *old(self),
                            *final(self),
                            m,
                            now,
                        ),
                        Err(e) => failure_recorded(*old(self), *final(self), e, r, now),
                    }
                },
                Err(e) => failure_recorded(*old(self), *final(self), e, r, now),
            },
    {
        let failure = match outcome {
            Ok(bytes) => {
                let parsed = self.reader.complete_read(bytes, now);
                match parsed {
                    Ok(m) => {
                        self.recovery.record_success(m, now);
                        return Ok(m);
                    },
                    Err(e) => e,
                }
            },
            Err(e) => e,
        };
        match self.recovery.record_failure(now) {
            Some(m) => Ok(m),
            None => Err(failure),
        }
    }

    /// Forgets the cached and the last good reading, so that the next read is fresh.
    pub fn invalidate(&mut self)
        ensures
            final(self).reader.cache is None,
            final(self).reader.cache_strategy == old(self).reader.cache_strategy,
            final(self).recovery.last_metrics is None,
    {
        self.reader.invalidate_cache();
        self.recovery.clear();
    }
}

} // verus!
