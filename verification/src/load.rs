//! Graceful degradation under load: a token-bucket rate limiter, a sliding
//! window error tracker, a concurrency limit and load shedding, combined into
//! one admission decision.
//!
//! Clock readings and the number of free concurrency permits are taken where
//! the decision is made; the decision itself is a verified function of those
//! readings ([`LoadManager::check_admission_at`]).

use vstd::prelude::*;
use std::sync::Arc;
use std::time::Instant;
use tokio::sync::Semaphore;
use crate::clock::{now, unix_nanos, unix_secs, NANOS_PER_SEC};

verus! {

// ── Configuration ──────────────────────────────────────────────────────────

/// Load management configuration.
#[derive(Debug, Clone)]
pub struct LoadConfig {
    /// Maximum concurrent in-flight requests (0 = unlimited).
    pub max_concurrent_requests: usize,
    /// Maximum requests per second (0 = unlimited).
    pub rate_limit_per_second: u64,
    /// Maximum burst (0 = the per-second rate).
    pub rate_limit_burst: u64,
    /// Error rate, in percent, above which the load shedder activates.
    pub overload_error_threshold: u8,
    /// Window, in seconds, of the error tracker.
    pub overload_window_secs: u64,
    /// Queue depth above which load is shed (0 = disabled).
    pub shed_load_at_queue_depth: usize,
    /// Whether degradation features are on.
    pub enabled: bool,
}

impl Default for LoadConfig {
    fn default() -> (c: Self)
        ensures
            c.max_concurrent_requests == 50,
            c.rate_limit_per_second == 100,
            c.rate_limit_burst == 200,
            c.overload_error_threshold == 50,
            c.overload_window_secs == 60,
            c.shed_load_at_queue_depth == 1000,
            c.enabled,
    {
        LoadConfig {
            max_concurrent_requests: 50,
            rate_limit_per_second: 100,
            rate_limit_burst: 200,
            overload_error_threshold: 50,
            overload_window_secs: 60,
            shed_load_at_queue_depth: 1000,
            enabled: true,
        }
    }
}

// ── Admission ──────────────────────────────────────────────────────────────

/// Whether a request may proceed, and why not.
#[derive(Debug, Clone, Copy, PartialEq, Eq, Structural)]
#[non_exhaustive]
pub enum Admission {
    /// The request may proceed.
    Allowed,
    /// Too many requests per second.
    RateLimited,
    /// Too many requests in flight.
    ConcurrencyLimited,
    /// The system is overloaded.
    LoadShed,
}

impl Admission {
    /// Whether the request may proceed.
    pub fn is_allowed(self) -> (b: bool)
        ensures
            b == (self == Admission::Allowed),
    {
        match self {
            Admission::Allowed => true,
            _ => false,
        }
    }
}

// ── Token bucket ───────────────────────────────────────────────────────────

/// The whole tokens earned between `last` and `now` (nanoseconds) at `rate`
/// tokens a second.
pub open spec fn earned(rate: nat, last: nat, now: nat) -> nat {
    if now <= last { 0 } else { ((now - last) * rate / (NANOS_PER_SEC as int)) as nat }
}

/// Tokens in a bucket after a refill at `now` (nanoseconds): the tokens earned
/// since `last` are added, up to the capacity.
pub open spec fn refilled(tokens: nat, capacity: nat, rate: nat, last: nat, now: nat) -> nat {
    let add = earned(rate, last, now);
    if add > 0 {
        if tokens + add <= capacity { (tokens + add) as nat } else { capacity }
    } else {
        tokens
    }
}

/// The refill time after a refill at `now`: it moves forward by the time that
/// the earned tokens took to accrue, so that the unspent fraction of a token
/// carries over to the next refill; it stays where it was when no whole token
/// was earned.
pub open spec fn refill_time(rate: nat, last: nat, now: nat) -> nat {
    let add = earned(rate, last, now);
    if add > 0 { (last + add * (NANOS_PER_SEC as nat) / rate) as nat } else { last }
}

/// A token-bucket rate limiter: `rate_per_sec` tokens a second, at most
/// `capacity` stored, one token per request.
#[derive(Debug)]
pub struct TokenBucket {
    /// Tokens available.
    pub tokens: u64,
    /// Maximum tokens (the burst size).
    pub capacity: u64,
    /// Tokens added per second.
    pub rate_per_sec: u64,
    /// Time of the last refill, in nanoseconds since the Unix epoch.
    pub last_refill: u64,
}

/// `after` and `ok` are what taking a token from `before` gives at `now`
/// (nanoseconds since the Unix epoch): the bucket is refilled as of `now`,
/// and a token is taken when there is one.
pub open spec fn consumed_at(before: TokenBucket, after: TokenBucket, ok: bool, now: u64) -> bool {
    let t = refilled(
        before.tokens as nat,
        before.capacity as nat,
        before.rate_per_sec as nat,
        before.last_refill as nat,
        now as nat,
    );
    &&& ok == (t > 0)
    &&& after.tokens == (if t > 0 { t - 1 } else { 0 })
    &&& after.last_refill == refill_time(before.rate_per_sec as nat, before.last_refill as nat, now as nat)
    &&& after.capacity == before.capacity
    &&& after.rate_per_sec == before.rate_per_sec
}

impl TokenBucket {
    /// Never more tokens than the capacity.
    pub open spec fn well_formed(&self) -> bool {
        self.tokens <= self.capacity
    }

    /// A full bucket; a burst of 0 means a burst of `rate_per_sec`.
    pub fn new(rate_per_sec: u64, burst_size: u64) -> (b: Self)
        ensures
            b.well_formed(),
            b.capacity == (if burst_size > 0 { burst_size } else { rate_per_sec }),
            b.tokens == b.capacity,
            b.rate_per_sec == rate_per_sec,
    {
        let burst = if burst_size > 0 { burst_size } else { rate_per_sec };
        TokenBucket { tokens: burst, capacity: burst, rate_per_sec, last_refill: unix_nanos() }
    }

    /// Adds the tokens earned since the last refill, as of `now`.
    pub fn refill_at(&mut self, now: u64)
        ensures
            final(self).tokens == refilled(
                old(self).tokens as nat,
                old(self).capacity as nat,
                old(self).rate_per_sec as nat,
                old(self).last_refill as nat,
                now as nat,
            ),
            final(self).last_refill == refill_time(old(self).rate_per_sec as nat, old(self).last_refill as nat, now as nat),
            final(self).last_refill <= (if now > old(self).last_refill { now } else { old(self).last_refill }),
            final(self).capacity == old(self).capacity,
            final(self).rate_per_sec == old(self).rate_per_sec,
    {
        if now <= self.last_refill {
            return;
        }
        let elapsed = now - self.last_refill;
        let rate = self.rate_per_sec;
        assert(elapsed * rate <= u64::MAX * u64::MAX) by (nonlinear_arith)
            requires elapsed <= u64::MAX, rate <= u64::MAX;
        let add: u128 = (elapsed as u128) * (rate as u128) / NANOS_PER_SEC;
        if add > 0 {
            assert(add <= u64::MAX * u64::MAX / 1_000_000_000) by (nonlinear_arith)
                requires add == elapsed * rate / 1_000_000_000, elapsed <= u64::MAX, rate <= u64::MAX;
            assert(rate > 0) by (nonlinear_arith)
                requires add == elapsed * rate / 1_000_000_000, add > 0, rate >= 0, elapsed >= 0;
            assert(add * 1_000_000_000 <= elapsed * rate) by (nonlinear_arith)
                requires add == elapsed * rate / 1_000_000_000, elapsed >= 0, rate >= 0;
            assert(add * 1_000_000_000 / (rate as int) <= elapsed) by (nonlinear_arith)
                requires add * 1_000_000_000 <= elapsed * rate, rate > 0, elapsed >= 0, add >= 0;
            let spent: u128 = add * NANOS_PER_SEC / (rate as u128);
            self.last_refill = self.last_refill + (spent as u64);
            let total: u128 = (self.tokens as u128) + add;
            if total <= self.capacity as u128 {
                self.tokens = total as u64;
            } else {
                self.tokens = self.capacity;
            }
        }
    }

    /// Refills as of `now`, then takes one token if there is one.
    pub fn try_consume_at(&mut self, now: u64) -> (ok: bool)
        ensures
            ({
                let t = refilled(
                    old(self).tokens as nat,
                    old(self).capacity as nat,
                    old(self).rate_per_sec as nat,
                    old(self).last_refill as nat,
                    now as nat,
                );
                &&& ok == (t > 0)
                &&& final(self).tokens == (if t > 0 { t - 1 } else { 0 })
            }),
            final(self).last_refill == refill_time(old(self).rate_per_sec as nat, old(self).last_refill as nat, now as nat),
            final(self).capacity == old(self).capacity,
            final(self).rate_per_sec == old(self).rate_per_sec,
            old(self).well_formed() ==> final(self).well_formed(),
    {
        self.refill_at(now);
        if self.tokens == 0 {
            false
        } else {
            self.tokens = self.tokens - 1;
            true
        }
    }

    /// Takes one token if one is available now: what [`Self::try_consume_at`]
    /// does at the wall clock's reading (`now`), which decides how many tokens
    /// were earned since the last refill.
    pub fn try_consume(&mut self) -> (ok: bool)
        ensures
            exists|now: u64| #[trigger] consumed_at(*old(self), *final(self), ok, now),
            ok ==> old(self).tokens > 0 || old(self).rate_per_sec > 0,
            final(self).capacity == old(self).capacity,
            final(self).rate_per_sec == old(self).rate_per_sec,
            old(self).well_formed() ==> final(self).well_formed(),
    {
        let now = unix_nanos();
        proof {
            if old(self).rate_per_sec == 0 && now > old(self).last_refill {
                assert((now - old(self).last_refill) * 0 == 0);
            }
        }
        let ok = self.try_consume_at(now);
        assert(consumed_at(*old(self), *self, ok, now));
        ok
    }
}

// ── Error tracker ──────────────────────────────────────────────────────────

/// The entries recorded at or after `cutoff`.
pub open spec fn in_window(es: Seq<(u64, bool)>, cutoff: nat) -> Seq<(u64, bool)>
    decreases es.len(),
{
    if es.len() == 0 {
        seq![]
    } else {
        let prev = in_window(es.drop_last(), cutoff);
        if es.last().0 >= cutoff { prev.push(es.last()) } else { prev }
    }
}

/// The number of errors among `es`.
pub open spec fn error_count(es: Seq<(u64, bool)>) -> nat
    decreases es.len(),
{
    if es.len() == 0 {
        0
    } else {
        error_count(es.drop_last()) + if es.last().1 { 1nat } else { 0nat }
    }
}

/// The start of the window ending at `now`.
pub open spec fn window_start(now: u64, window_secs: u64) -> nat {
    if now >= window_secs { (now - window_secs) as nat } else { 0 }
}

/// Whether an error rate of `errors` out of `total` is above `threshold_percent` percent.
pub open spec fn above_threshold(errors: nat, total: nat, threshold_percent: nat) -> bool {
    total > 0 && errors * 100 > threshold_percent * total
}

/// Request outcomes within a sliding window, for overload detection.
#[derive(Debug)]
pub struct ErrorTracker {
    /// Window length in seconds.
    pub window_secs: u64,
    /// Recorded outcomes: (time in seconds since the Unix epoch, is error).
    pub entries: Vec<(u64, bool)>,
}

proof fn lemma_error_count_le(es: Seq<(u64, bool)>)
    ensures
        error_count(es) <= es.len(),
    decreases es.len(),
{
    if es.len() > 0 {
        lemma_error_count_le(es.drop_last());
    }
}

proof fn lemma_in_window_len(es: Seq<(u64, bool)>, cutoff: nat)
    ensures
        in_window(es, cutoff).len() <= es.len(),
    decreases es.len(),
{
    if es.len() > 0 {
        lemma_in_window_len(es.drop_last(), cutoff);
    }
}

impl ErrorTracker {
    /// A tracker with nothing recorded.
    pub fn new(window_secs: u64) -> (t: Self)
        ensures
            t.window_secs == window_secs,
            t.entries@.len() == 0,
    {
        ErrorTracker { window_secs, entries: Vec::new() }
    }

    /// Records an outcome at time `now` (seconds) and drops the entries older
    /// than the window.
    pub fn record_at(&mut self, now: u64, is_error: bool)
        ensures
            final(self).window_secs == old(self).window_secs,
            final(self).entries@ == in_window(old(self).entries@.push((now, is_error)), window_start(now, old(self).window_secs)),
    {
        self.entries.push((now, is_error));
        let cutoff: u64 = if now >= self.window_secs { now - self.window_secs } else { 0 };
        let ghost all = self.entries@;
        let mut kept: Vec<(u64, bool)> = Vec::new();
        let mut i: usize = 0;
        while i < self.entries.len()
            invariant
                self.entries@ == all,
                i <= all.len(),
                kept@ == in_window(all.take(i as int), cutoff as nat),
            decreases all.len() - i,
        {
            let e = self.entries[i];
            proof {
                let after = all.take(i + 1);
                assert(after.drop_last() == all.take(i as int));
                assert(after.last() == all[i as int]);
            }
            if e.0 >= cutoff {
                kept.push(e);
            }
            i = i + 1;
        }
        proof {
            assert(all.take(all.len() as int) == all);
        }
        self.entries = kept;
    }

    /// Records an outcome now.
    pub fn record(&mut self, is_error: bool)
        ensures
            final(self).window_secs == old(self).window_secs,
            exists|now: u64| final(self).entries@ == in_window(
                #[trigger] old(self).entries@.push((now, is_error)),
                window_start(now, old(self).window_secs),
            ),
    {
        let now = unix_secs();
        self.record_at(now, is_error);
    }

    /// The errors and the total of the outcomes within the window ending at
    /// `now` (seconds).
    pub fn counts_at(&self, now: u64) -> (r: (usize, usize))
        ensures
            r.1 == in_window(self.entries@, window_start(now, self.window_secs)).len(),
            r.0 == error_count(in_window(self.entries@, window_start(now, self.window_secs))),
    {
        let cutoff: u64 = if now >= self.window_secs { now - self.window_secs } else { 0 };
        let mut errors: usize = 0;
        let mut total: usize = 0;
        let mut i: usize = 0;
        while i < self.entries.len()
            invariant
                i <= self.entries@.len(),
                total == in_window(self.entries@.take(i as int), cutoff as nat).len(),
                errors == error_count(in_window(self.entries@.take(i as int), cutoff as nat)),
                total <= i,
            decreases self.entries@.len() - i,
        {
            let e = self.entries[i];
            proof {
                let after = self.entries@.take(i + 1);
                assert(after.drop_last() == self.entries@.take(i as int));
                assert(after.last() == self.entries@[i as int]);
                lemma_in_window_len(self.entries@.take(i as int), cutoff as nat);
                lemma_error_count_le(in_window(self.entries@.take(i as int), cutoff as nat));
            }
            if e.0 >= cutoff {
                proof {
                    let before = in_window(self.entries@.take(i as int), cutoff as nat);
                    let after = in_window(self.entries@.take(i + 1), cutoff as nat);
                    assert(after == before.push(e));
                    assert(after.drop_last() == before);
                    assert(after.last() == e);
                }
                total = total + 1;
                if e.1 {
                    errors = errors + 1;
                }
            }
            i = i + 1;
        }
        proof {
            assert(self.entries@.take(self.entries@.len() as int) == self.entries@);
        }
        (errors, total)
    }

    /// The errors and the total of the outcomes within the window ending now
    /// (the error rate is their quotient, 0 with no outcome).
    pub fn error_counts(&self) -> (r: (usize, usize))
        ensures
            exists|now: u64| {
                let w = in_window(self.entries@, #[trigger] window_start(now, self.window_secs));
                r.1 == w.len() && r.0 == error_count(w)
            },
    {
        let now = unix_secs();
        let r = self.counts_at(now);
        assert(r.1 == in_window(self.entries@, window_start(now, self.window_secs)).len());
        r
    }

    /// Whether the error rate within the window ending at `now` (seconds) is
    /// above `threshold_percent` percent.
    pub fn overloaded_at(&self, now: u64, threshold_percent: u8) -> (b: bool)
        ensures
            ({
                let w = in_window(self.entries@, window_start(now, self.window_secs));
                b == above_threshold(error_count(w), w.len(), threshold_percent as nat)
            }),
    {
        let (errors, total) = self.counts_at(now);
        proof {
            lemma_error_count_le(in_window(self.entries@, window_start(now, self.window_secs)));
            assert(threshold_percent * total <= 255 * usize::MAX) by (nonlinear_arith)
                requires threshold_percent <= 255, total <= usize::MAX;
        }
        total > 0 && (errors as u128) * 100 > (threshold_percent as u128) * (total as u128)
    }
}

// ── Load manager ───────────────────────────────────────────────────────────

/// Outcome of a request, fed back for error tracking.
#[derive(Debug, Clone, Copy, PartialEq, Eq, Structural)]
pub enum RequestOutcome {
    /// The request succeeded.
    Success,
    /// The request failed.
    Failure,
}

/// A counting semaphore (`tokio::sync::Semaphore`).
#[verifier::external_type_specification]
#[verifier::external_body]
pub struct ExSemaphore(Semaphore);

/// A semaphore with `permits` permits (`Semaphore::new`, which panics above
/// `Semaphore::MAX_PERMITS`, that is `usize::MAX >> 3`).
#[verifier::external_body]
fn new_semaphore(permits: usize) -> Semaphore
    requires
        permits <= usize::MAX / 8,
{
    Semaphore::new(permits)
}

/// The permits currently free (`Semaphore::available_permits`); they change
/// as other tasks acquire and release permits.
#[verifier::external_body]
fn available_permits(s: &Semaphore) -> usize {
    s.available_permits()
}

/// The admission decision for the given readings: a disabled manager admits
/// everything; otherwise load is shed when the queue is too deep, or when the
/// error rate is above the threshold while a queue builds up (more than 10);
/// then the rate limit (`has_token`: whether the bucket had a token) and the
/// concurrency limit (`free_permits`) apply.
pub open spec fn admission_decision(
    config: LoadConfig,
    depth: u64,
    overloaded: bool,
    has_token: Option<bool>,
    free_permits: Option<usize>,
) -> Admission {
    if !config.enabled {
        Admission::Allowed
    } else if config.shed_load_at_queue_depth > 0 && depth > config.shed_load_at_queue_depth {
        Admission::LoadShed
    } else if overloaded && depth > 10 {
        Admission::LoadShed
    } else if has_token == Some(false) {
        Admission::RateLimited
    } else if free_permits == Some(0usize) {
        Admission::ConcurrencyLimited
    } else {
        Admission::Allowed
    }
}

/// Combines rate limiting, concurrency limiting and load shedding into one
/// admission decision.
#[derive(Debug)]
pub struct LoadManager {
    /// Configuration.
    pub config: LoadConfig,
    /// Rate limiter, when rate limiting is on.
    pub rate_limiter: Option<TokenBucket>,
    /// Concurrency limiter, when concurrency limiting is on.
    pub concurrency_limiter: Option<Arc<Semaphore>>,
    /// Error tracker for overload detection.
    pub error_tracker: ErrorTracker,
    /// Current queue depth estimate.
    pub queue_depth: u64,
    /// Peak queue depth seen.
    pub peak_queue_depth: u64,
    /// Requests admitted.
    pub total_admitted: u64,
    /// Requests rejected.
    pub total_rejected: u64,
    /// When the manager started.
    pub start_time: Instant,
}

/// One admission step, from `before` to `after` with answer `a`, at the clock
/// readings `now_nanos` and `now_secs` and with `free_permits` free permits:
/// the answer is [`admission_decision`]; when the rate limiter is consulted
/// (the manager is enabled and no load is shed) one token is taken from it as
/// of `now_nanos` ([`consumed_at`]), and otherwise it is left as it was; the
/// admission and rejection counters count the answer (wrapping); everything
/// else is unchanged.
pub open spec fn admission_step(
    before: LoadManager,
    after: LoadManager,
    a: Admission,
    now_nanos: u64,
    now_secs: u64,
    free_permits: Option<usize>,
) -> bool {
    let c = before.config;
    let w = in_window(before.error_tracker.entries@, window_start(now_secs, before.error_tracker.window_secs));
    let overloaded = above_threshold(error_count(w), w.len(), c.overload_error_threshold as nat);
    let sheds = c.enabled && ((c.shed_load_at_queue_depth > 0 && before.queue_depth > c.shed_load_at_queue_depth) || (
    overloaded && before.queue_depth > 10));
    let has_token = match before.rate_limiter {
        Some(b) => Some(
            refilled(b.tokens as nat, b.capacity as nat, b.rate_per_sec as nat, b.last_refill as nat, now_nanos as nat)
                > 0,
        ),
        None => None,
    };
    &&& a == admission_decision(c, before.queue_depth, overloaded, has_token, free_permits)
    &&& after.total_admitted == (if a == Admission::Allowed && c.enabled {
        (before.total_admitted + 1) % 0x1_0000_0000_0000_0000
    } else {
        before.total_admitted as int
    })
    &&& after.total_rejected == (if a != Admission::Allowed {
        (before.total_rejected + 1) % 0x1_0000_0000_0000_0000
    } else {
        before.total_rejected as int
    })
    &&& (!c.enabled || sheds) ==> after.rate_limiter == before.rate_limiter
    &&& c.enabled && !sheds ==> match (before.rate_limiter, after.rate_limiter) {
        (Some(b), Some(nb)) => consumed_at(b, nb, has_token == Some(true), now_nanos),
        (None, None) => true,
        _ => false,
    }
    &&& after.config == before.config
    &&& after.error_tracker == before.error_tracker
    &&& after.queue_depth == before.queue_depth
    &&& after.peak_queue_depth == before.peak_queue_depth
    &&& after.concurrency_limiter == before.concurrency_limiter
    &&& after.start_time == before.start_time
}

impl LoadManager {
    /// A manager for `config`: a rate limiter when enabled with a non-zero
    /// rate, a concurrency limiter when enabled with a non-zero limit.
    pub fn new(config: LoadConfig) -> (m: Self)
        requires
            config.max_concurrent_requests <= usize::MAX / 8,
        ensures
            m.config == config,
            (config.enabled && config.rate_limit_per_second > 0) == m.rate_limiter is Some,
            m.rate_limiter matches Some(b) ==> b.well_formed() && b.rate_per_sec == config.rate_limit_per_second
                && b.capacity == (if config.rate_limit_burst > 0 {
                config.rate_limit_burst
            } else {
                config.rate_limit_per_second
            }) && b.tokens == b.capacity,
            (config.enabled && config.max_concurrent_requests > 0) == m.concurrency_limiter is Some,
            m.error_tracker.window_secs == config.overload_window_secs,
            m.error_tracker.entries@.len() == 0,
            m.queue_depth == 0,
            m.peak_queue_depth == 0,
            m.total_admitted == 0,
            m.total_rejected == 0,
    {
        let rate_limiter = if config.enabled && config.rate_limit_per_second > 0 {
            Some(TokenBucket::new(config.rate_limit_per_second, config.rate_limit_burst))
        } else {
            None
        };
        let concurrency_limiter = if config.enabled && config.max_concurrent_requests > 0 {
            Some(Arc::new(new_semaphore(config.max_concurrent_requests)))
        } else {
            None
        };
        LoadManager {
            error_tracker: ErrorTracker::new(config.overload_window_secs),
            rate_limiter,
            concurrency_limiter,
            queue_depth: 0,
            peak_queue_depth: 0,
            total_admitted: 0,
            total_rejected: 0,
            start_time: now(),
            config,
        }
    }

    /// The admission decision with the clock read as `now_nanos` (for the rate
    /// limiter) and `now_secs` (for the error window), and `free_permits` free
    /// concurrency permits. Rejections and admissions are counted (wrapping).
    pub fn check_admission_at(&mut self, now_nanos: u64, now_secs: u64, free_permits: Option<usize>) -> (a: Admission)
        requires
            old(self).concurrency_limiter is Some <==> free_permits is Some,
        ensures
            admission_step(*old(self), *final(self), a, now_nanos, now_secs, free_permits),
            old(self).rate_limiter matches Some(b) && b.well_formed() ==> (final(self).rate_limiter matches Some(nb)
                && nb.well_formed()),
    {
        if !self.config.enabled {
            return Admission::Allowed;
        }
        let depth = self.queue_depth;
        if self.config.shed_load_at_queue_depth > 0 && depth > self.config.shed_load_at_queue_depth as u64 {
            self.total_rejected = self.total_rejected.wrapping_add(1);
            return Admission::LoadShed;
        }
        if self.error_tracker.overloaded_at(now_secs, self.config.overload_error_threshold) && depth > 10 {
            self.total_rejected = self.total_rejected.wrapping_add(1);
            return Admission::LoadShed;
        }
        match &mut self.rate_limiter {
            Some(b) => {
                if !b.try_consume_at(now_nanos) {
                    self.total_rejected = self.total_rejected.wrapping_add(1);
                    return Admission::RateLimited;
                }
            },
            None => {},
        }
        match free_permits {
            Some(n) => {
                if n == 0 {
                    self.total_rejected = self.total_rejected.wrapping_add(1);
                    return Admission::ConcurrencyLimited;
                }
            },
            None => {},
        }
        self.total_admitted = self.total_admitted.wrapping_add(1);
        Admission::Allowed
    }

    /// Whether a request should be admitted now: one admission step at the
    /// wall clock's readings and the permits free at the time of the call.
    pub fn check_admission(&mut self) -> (a: Admission)
        ensures
            exists|now_nanos: u64, now_secs: u64, free: Option<usize>|
                (old(self).concurrency_limiter is Some <==> free is Some) && #[trigger] admission_step(
                    *old(self),
                    *final(self),
                    a,
                    now_nanos,
                    now_secs,
                    free,
                ),
            !old(self).config.enabled ==> a == Admission::Allowed,
            old(self).config.enabled && old(self).config.shed_load_at_queue_depth > 0 && old(self).queue_depth
                > old(self).config.shed_load_at_queue_depth ==> a == Admission::LoadShed,
            final(self).config == old(self).config,
            final(self).queue_depth == old(self).queue_depth,
    {
        let free = match &self.concurrency_limiter {
            Some(s) => Some(available_permits(s)),
            None => None,
        };
        let now_nanos = unix_nanos();
        let now_secs = unix_secs();
        self.check_admission_at(now_nanos, now_secs, free)
    }

    /// Records a request outcome for error tracking.
    pub fn record_outcome(&mut self, outcome: RequestOutcome)
        ensures
            final(self).error_tracker.window_secs == old(self).error_tracker.window_secs,
            exists|now: u64| final(self).error_tracker.entries@ == in_window(
                old(self).error_tracker.entries@.push((now, outcome == RequestOutcome::Failure)),
                #[trigger] window_start(now, old(self).error_tracker.window_secs),
            ),
            final(self).config == old(self).config,
            final(self).queue_depth == old(self).queue_depth,
            final(self).total_admitted == old(self).total_admitted,
            final(self).total_rejected == old(self).total_rejected,
    {
        match outcome {
            RequestOutcome::Success => self.error_tracker.record(false),
            RequestOutcome::Failure => self.error_tracker.record(true),
        }
    }

    /// Updates the queue depth estimate and the peak.
    pub fn set_queue_depth(&mut self, depth: u64)
        ensures
            final(self).queue_depth == depth,
            final(self).peak_queue_depth == (if depth > old(self).peak_queue_depth {
                depth
            } else {
                old(self).peak_queue_depth
            }),
            final(self).config == old(self).config,
            final(self).total_admitted == old(self).total_admitted,
            final(self).total_rejected == old(self).total_rejected,
    {
        self.queue_depth = depth;
        if depth > self.peak_queue_depth {
            self.peak_queue_depth = depth;
        }
    }
}

} // verus!
