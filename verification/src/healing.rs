//! Self-healing: per-agent failure tracking, per-agent circuit breakers,
//! exponential backoff for retries and dead-worker detection.
//!
//! The engine keeps one failure record and one circuit breaker per agent; the
//! two are created together on an agent's first failure and removed together.

use vstd::prelude::*;
use std::time::{Duration, Instant};
use crate::backoff::{backoff_delay_ms, backoff_in_range, capped_delay, fits_backoff, jitter_range, jittered_delay};
use crate::clock::{nanos_since, now, NANOS_PER_SEC};
use crate::text::{decimal, push_decimal, push_str, str_eq, string_from_chars};

verus! {

// ── Configuration ──────────────────────────────────────────────────────────

/// Configuration of the self-healing engine.
#[derive(Debug, Clone)]
pub struct HealingConfig {
    /// Maximum retries for a single agent task (default: 3).
    pub max_retries: u32,
    /// Base delay for exponential backoff in ms (default: 1000).
    pub base_delay_ms: u64,
    /// Maximum delay in ms (default: 30000).
    pub max_delay_ms: u64,
    /// Jitter, in percent of the capped delay (default: 30).
    pub jitter_percent: u32,
    /// Failures before a circuit opens (default: 5).
    pub circuit_breaker_threshold: u32,
    /// Seconds an open circuit waits before half-opening (default: 30).
    pub circuit_breaker_recovery_secs: u64,
    /// Seconds after its last failure before a dead worker may be revived
    /// or replaced (default: 60).
    pub worker_dead_after_secs: u64,
    /// Failures before a worker is marked dead (default: 10).
    pub max_failed_tasks: u32,
}

impl Default for HealingConfig {
    fn default() -> (c: Self)
        ensures
            c.max_retries == 3,
            c.base_delay_ms == 1000,
            c.max_delay_ms == 30000,
            c.jitter_percent == 30,
            c.circuit_breaker_threshold == 5,
            c.circuit_breaker_recovery_secs == 30,
            c.worker_dead_after_secs == 60,
            c.max_failed_tasks == 10,
    {
        HealingConfig {
            max_retries: 3,
            base_delay_ms: 1000,
            max_delay_ms: 30000,
            jitter_percent: 30,
            circuit_breaker_threshold: 5,
            circuit_breaker_recovery_secs: 30,
            worker_dead_after_secs: 60,
            max_failed_tasks: 10,
        }
    }
}

// ── Circuit breaker ────────────────────────────────────────────────────────

/// State of an agent's circuit.
#[derive(Debug, Clone, Copy, PartialEq, Eq, Structural)]
pub enum HealingCircuitState {
    /// Normal operation: requests allowed.
    Closed,
    /// Failure threshold reached: requests blocked.
    Open,
    /// Recovery period: requests allowed to test the agent.
    HalfOpen,
}

/// Whether `elapsed_nanos` since the last failure covers the recovery period.
pub open spec fn recovery_elapsed(elapsed_nanos: u128, open_duration_secs: u64) -> bool {
    elapsed_nanos >= open_duration_secs * NANOS_PER_SEC
}

/// A per-agent circuit breaker.
#[derive(Debug, Clone)]
pub struct HealingCircuitBreaker {
    /// Current state.
    pub state: HealingCircuitState,
    /// Consecutive failures.
    pub failure_count: u32,
    /// When the last failure happened.
    pub last_failure_time: Option<Instant>,
    /// Seconds the circuit stays open before half-opening.
    pub open_duration_secs: u64,
    /// Failures that open the circuit.
    pub threshold: u32,
}

/// The breaker `after` is `before` after one more failure.
pub open spec fn breaker_failed(before: HealingCircuitBreaker, after: HealingCircuitBreaker) -> bool {
    &&& after.failure_count == before.failure_count + 1
    &&& after.last_failure_time is Some
    &&& after.state == (if before.failure_count + 1 >= before.threshold {
        HealingCircuitState::Open
    } else {
        before.state
    })
    &&& after.open_duration_secs == before.open_duration_secs
    &&& after.threshold == before.threshold
}

/// The breaker after a success: no failures, closed.
pub open spec fn breaker_reset(b: HealingCircuitBreaker) -> HealingCircuitBreaker {
    HealingCircuitBreaker { state: HealingCircuitState::Closed, failure_count: 0, ..b }
}

/// The breaker moved to half-open.
pub open spec fn breaker_half_open(b: HealingCircuitBreaker) -> HealingCircuitBreaker {
    HealingCircuitBreaker { state: HealingCircuitState::HalfOpen, ..b }
}

/// Law: starting from a breaker with no failures, a run of consecutive
/// failures counts each one, leaves the circuit as it was below the
/// threshold, and opens it once the count reaches the threshold.
pub proof fn lemma_consecutive_failures_open_breaker(bs: Seq<HealingCircuitBreaker>)
    requires
        bs.len() >= 1,
        bs[0].failure_count == 0,
        forall|i: int| 0 <= i < bs.len() - 1 ==> breaker_failed(#[trigger] bs[i], bs[i + 1]),
    ensures
        forall|i: int| 0 <= i < bs.len() ==> #[trigger] bs[i].failure_count == i && bs[i].threshold == bs[0].threshold,
        forall|i: int|
            0 <= i < bs.len() ==> #[trigger] bs[i].state == (if i >= bs[0].threshold && i > 0 {
                HealingCircuitState::Open
            } else {
                bs[0].state
            }),
    decreases bs.len(),
{
    if bs.len() > 1 {
        let prefix = bs.drop_last();
        assert forall|i: int| 0 <= i < prefix.len() - 1 implies breaker_failed(#[trigger] prefix[i], prefix[i + 1]) by {
            assert(breaker_failed(bs[i], bs[i + 1]));
        }
        lemma_consecutive_failures_open_breaker(prefix);
        let n = bs.len() - 1;
        assert(breaker_failed(bs[n - 1], bs[n]));
        assert(prefix[n - 1] == bs[n - 1]);
        assert forall|i: int| 0 <= i < bs.len() implies #[trigger] bs[i].failure_count == i && bs[i].threshold
            == bs[0].threshold by {
            if i < n {
                assert(prefix[i] == bs[i]);
            }
        }
        assert forall|i: int|
            0 <= i < bs.len() implies #[trigger] bs[i].state == (if i >= bs[0].threshold && i > 0 {
                HealingCircuitState::Open
            } else {
                bs[0].state
            }) by {
            if i < n {
                assert(prefix[i] == bs[i]);
            }
        }
    }
}

impl HealingCircuitBreaker {
    /// A closed breaker with no failures.
    pub fn new(open_duration_secs: u64, threshold: u32) -> (cb: Self)
        ensures
            cb.state == HealingCircuitState::Closed,
            cb.failure_count == 0,
            cb.last_failure_time is None,
            cb.open_duration_secs == open_duration_secs,
            cb.threshold == threshold,
    {
        HealingCircuitBreaker {
            state: HealingCircuitState::Closed,
            failure_count: 0,
            last_failure_time: None,
            open_duration_secs,
            threshold,
        }
    }

    /// Records a success: the count is reset and the circuit closes.
    pub fn record_success(&mut self)
        ensures
            *final(self) == breaker_reset(*old(self)),
    {
        self.failure_count = 0;
        self.state = HealingCircuitState::Closed;
    }

    /// Records a failure: the count grows and the circuit opens at the threshold.
    pub fn record_failure(&mut self)
        requires
            old(self).failure_count < u32::MAX,
        ensures
            breaker_failed(*old(self), *final(self)),
    {
        self.failure_count = self.failure_count + 1;
        self.last_failure_time = Some(now());
        if self.failure_count >= self.threshold {
            self.state = HealingCircuitState::Open;
        }
    }

    /// Whether a request may go through, given the nanoseconds elapsed since
    /// the last failure (`None` when no failure time is known). An open
    /// circuit half-opens once the recovery period has passed.
    pub fn can_execute_after(&mut self, elapsed_nanos: Option<u128>) -> (r: bool)
        ensures
            old(self).state != HealingCircuitState::Open ==> r && *final(self) == *old(self),
            old(self).state == HealingCircuitState::Open ==> if elapsed_nanos matches Some(e)
                && recovery_elapsed(e, old(self).open_duration_secs) {
                r && *final(self) == breaker_half_open(*old(self))
            } else {
                !r && *final(self) == *old(self)
            },
    {
        match self.state {
            HealingCircuitState::Closed => true,
            HealingCircuitState::HalfOpen => true,
            HealingCircuitState::Open => {
                match elapsed_nanos {
                    Some(e) => {
                        if e >= (self.open_duration_secs as u128) * NANOS_PER_SEC {
                            self.state = HealingCircuitState::HalfOpen;
                            true
                        } else {
                            false
                        }
                    },
                    None => false,
                }
            },
        }
    }

    /// Whether a request may go through now; an open circuit half-opens once
    /// its recovery period has passed on the clock.
    pub fn can_execute(&mut self) -> (r: bool)
        ensures
            old(self).state != HealingCircuitState::Open ==> r && *final(self) == *old(self),
            old(self).state == HealingCircuitState::Open && old(self).last_failure_time is None ==> !r
                && *final(self) == *old(self),
            old(self).state == HealingCircuitState::Open && old(self).last_failure_time is Some
                && old(self).open_duration_secs == 0 ==> r && *final(self) == breaker_half_open(*old(self)),
            old(self).state == HealingCircuitState::Open ==> (r && *final(self) == breaker_half_open(*old(self)))
                || (!r && *final(self) == *old(self)),
    {
        let elapsed = if self.state == HealingCircuitState::Open {
            match &self.last_failure_time {
                Some(t) => Some(nanos_since(t)),
                None => None,
            }
        } else {
            None
        };
        self.can_execute_after(elapsed)
    }
}

// ── Failure records ────────────────────────────────────────────────────────

/// The failure history of one agent or worker.
#[derive(Debug, Clone)]
pub struct FailureRecord {
    /// Agent/worker identifier.
    pub agent_id: String,
    /// Consecutive failures.
    pub failure_count: u32,
    /// When the first failure of this run happened.
    pub first_failure: Instant,
    /// When the latest failure happened.
    pub last_failure: Instant,
    /// Error message of the latest failure.
    pub last_error: String,
    /// Whether the agent is considered dead.
    pub is_dead: bool,
}

/// The record `after` is `before` after one more failure with `error` (its
/// dead flag aside).
pub open spec fn record_failed(before: FailureRecord, after: FailureRecord, error: Seq<char>) -> bool {
    &&& after.agent_id == before.agent_id
    &&& after.failure_count == before.failure_count + 1
    &&& after.first_failure == before.first_failure
    &&& after.last_error@ == error
}

/// The record after a success: no failures, alive.
pub open spec fn record_reset(r: FailureRecord) -> FailureRecord {
    FailureRecord { failure_count: 0, is_dead: false, ..r }
}

impl FailureRecord {
    /// A record of a first failure.
    pub fn new(agent_id: &str, error: &str) -> (r: Self)
        ensures
            r.agent_id@ == agent_id@,
            r.failure_count == 1,
            r.last_error@ == error@,
            !r.is_dead,
    {
        FailureRecord {
            agent_id: String::from_str(agent_id),
            failure_count: 1,
            first_failure: now(),
            last_failure: now(),
            last_error: String::from_str(error),
            is_dead: false,
        }
    }

    /// Records another failure.
    pub fn add_failure(&mut self, error: &str)
        requires
            old(self).failure_count < u32::MAX,
        ensures
            record_failed(*old(self), *final(self), error@),
            final(self).is_dead == old(self).is_dead,
    {
        self.failure_count = self.failure_count + 1;
        self.last_failure = now();
        self.last_error = String::from_str(error);
    }

    /// Records a success: the count is reset and the agent is alive.
    pub fn record_success(&mut self)
        ensures
            *final(self) == record_reset(*old(self)),
    {
        self.failure_count = 0;
        self.is_dead = false;
    }

    /// Time since the last failure (`Instant::elapsed`); it depends on the
    /// clock, so nothing is stated of it.
    #[verifier::external_body]
    pub fn time_since_last_failure(&self) -> Duration {
        self.last_failure.elapsed()
    }
}

/// Whether a dead worker whose last failure was `elapsed_nanos` ago is past
/// the dead timeout.
pub open spec fn past_dead_timeout(elapsed_nanos: u128, dead_after_secs: u64) -> bool {
    elapsed_nanos > dead_after_secs * NANOS_PER_SEC
}

/// Decides [`past_dead_timeout`].
pub fn is_past_dead_timeout(elapsed_nanos: u128, dead_after_secs: u64) -> (b: bool)
    ensures
        b == past_dead_timeout(elapsed_nanos, dead_after_secs),
{
    elapsed_nanos > (dead_after_secs as u128) * NANOS_PER_SEC
}

// ── The engine ─────────────────────────────────────────────────────────────

/// The ids of the dead records whose clock reading (`elapsed`, nanoseconds
/// since the record's last failure; one per record) is past the dead
/// timeout, in order.
pub open spec fn dead_past_timeout(rs: Seq<FailureRecord>, elapsed: Seq<u128>, dead_after_secs: u64) -> Seq<
    Seq<char>,
>
    decreases rs.len(),
{
    if rs.len() == 0 {
        seq![]
    } else {
        let prev = dead_past_timeout(rs.drop_last(), elapsed.drop_last(), dead_after_secs);
        if rs.last().is_dead && past_dead_timeout(elapsed.last(), dead_after_secs) {
            prev.push(rs.last().agent_id@)
        } else {
            prev
        }
    }
}

/// `i` is the slot of agent `id` among the records.
pub open spec fn slot_of(rs: Seq<FailureRecord>, id: Seq<char>, i: int) -> bool {
    0 <= i < rs.len() && rs[i].agent_id@ == id
}

/// Agent `id` has a record.
pub open spec fn is_tracked(rs: Seq<FailureRecord>, id: Seq<char>) -> bool {
    exists|i: int| slot_of(rs, id, i)
}

/// No two records share an agent id.
pub open spec fn distinct_ids(rs: Seq<FailureRecord>) -> bool {
    forall|i: int, j: int|
        0 <= i < rs.len() && 0 <= j < rs.len() && i != j ==> (#[trigger] rs[i]).agent_id@ != (#[trigger] rs[j]).agent_id@
}

/// The ids of the dead records, in order.
pub open spec fn dead_ids(rs: Seq<FailureRecord>) -> Seq<Seq<char>>
    decreases rs.len(),
{
    if rs.len() == 0 {
        seq![]
    } else {
        let prev = dead_ids(rs.drop_last());
        if rs.last().is_dead { prev.push(rs.last().agent_id@) } else { prev }
    }
}

/// The dead ids of a non-empty sequence extend those of its prefix.
proof fn lemma_dead_ids_prefix(rs: Seq<FailureRecord>)
    requires
        rs.len() > 0,
    ensures
        dead_ids(rs) == if rs.last().is_dead {
            dead_ids(rs.drop_last()).push(rs.last().agent_id@)
        } else {
            dead_ids(rs.drop_last())
        },
{
}

/// The number of open circuits.
pub open spec fn open_count(bs: Seq<HealingCircuitBreaker>) -> nat
    decreases bs.len(),
{
    if bs.len() == 0 {
        0
    } else {
        open_count(bs.drop_last()) + if bs.last().state == HealingCircuitState::Open { 1nat } else { 0nat }
    }
}

/// The message when every attempt of a retried operation failed.
pub open spec fn attempts_failed_message(attempts: nat, agent_id: Seq<char>, last_error: Seq<char>) -> Seq<char> {
    "All "@ + decimal(attempts) + " attempts failed for agent '"@ + agent_id + "': "@ + last_error
}

/// The next step of a retried operation.
#[derive(Debug)]
pub enum RetryStep<T> {
    /// The operation is over, with this result.
    Return(Result<T, String>),
    /// Wait `delay_ms` milliseconds ([`SelfHealingEngine::delay_for_attempt`]
    /// of `next_attempt - 1`; `None` when `base_delay_ms · 2^(next_attempt - 1)`
    /// does not fit in 64 bits and no delay can be computed), then run attempt
    /// `next_attempt`.
    Retry { next_attempt: u32, delay_ms: Option<u64> },
}

/// What [`SelfHealingEngine::is_healthy_after`] answers and does for
/// `agent_id` at the clock readings `breaker_elapsed` and `dead_elapsed`.
pub open spec fn health_answer(
    before: SelfHealingEngine,
    after: SelfHealingEngine,
    agent_id: Seq<char>,
    breaker_elapsed: Option<u128>,
    dead_elapsed: u128,
    h: bool,
) -> bool {
    &&& after.config == before.config
    &&& after.records() == before.records()
    &&& !is_tracked(before.records(), agent_id) ==> h && after.breakers() == before.breakers()
    &&& forall|i: int| #[trigger]
        slot_of(before.records(), agent_id, i) ==> {
            let b = before.breakers()[i];
            let nb = if b.state == HealingCircuitState::Open && breaker_elapsed is Some && recovery_elapsed(
                breaker_elapsed.unwrap(),
                b.open_duration_secs,
            ) {
                breaker_half_open(b)
            } else {
                b
            };
            &&& after.breakers() == before.breakers().update(i, nb)
            &&& h == (nb.state != HealingCircuitState::Open && (!before.records()[i].is_dead || past_dead_timeout(
                dead_elapsed,
                before.config.worker_dead_after_secs,
            )))
        }
}

/// Tracks failures, manages circuit breakers and decides retries for agents.
#[derive(Debug)]
pub struct SelfHealingEngine {
    /// Configuration.
    pub config: HealingConfig,
    /// Per-agent failure records.
    pub failure_records: Vec<FailureRecord>,
    /// Per-agent circuit breakers, in the order of the records.
    pub circuit_breakers: Vec<HealingCircuitBreaker>,
}

impl Default for SelfHealingEngine {
    fn default() -> (e: Self)
        ensures
            e.well_formed(),
            e.records().len() == 0,
            e.breakers().len() == 0,
    {
        SelfHealingEngine::new()
    }
}

impl SelfHealingEngine {
    /// The failure records, one per tracked agent.
    pub open spec fn records(&self) -> Seq<FailureRecord> {
        self.failure_records@
    }

    /// The circuit breakers; the `i`-th belongs to the agent of the `i`-th record.
    pub open spec fn breakers(&self) -> Seq<HealingCircuitBreaker> {
        self.circuit_breakers@
    }

    /// One breaker per record, distinct agent ids, and each breaker counts the
    /// same failures as its record.
    pub open spec fn well_formed(&self) -> bool {
        &&& self.records().len() == self.breakers().len()
        &&& distinct_ids(self.records())
        &&& forall|i: int|
            0 <= i < self.records().len() ==> #[trigger] self.breakers()[i].failure_count
                == self.records()[i].failure_count
    }

    /// An engine with the default configuration and nothing tracked.
    pub fn new() -> (e: Self)
        ensures
            e.well_formed(),
            e.records().len() == 0,
            e.breakers().len() == 0,
            e.config.max_failed_tasks == 10,
            e.config.circuit_breaker_threshold == 5,
            e.config.circuit_breaker_recovery_secs == 30,
            e.config.max_retries == 3,
            e.config.base_delay_ms == 1000,
            e.config.max_delay_ms == 30000,
            e.config.jitter_percent == 30,
            e.config.worker_dead_after_secs == 60,
    {
        SelfHealingEngine {
            config: HealingConfig::default(),
            failure_records: Vec::new(),
            circuit_breakers: Vec::new(),
        }
    }

    /// An engine with the given configuration and nothing tracked.
    pub fn with_config(config: HealingConfig) -> (e: Self)
        ensures
            e.well_formed(),
            e.records().len() == 0,
            e.breakers().len() == 0,
            e.config == config,
    {
        SelfHealingEngine { config, failure_records: Vec::new(), circuit_breakers: Vec::new() }
    }

    fn position(&self, agent_id: &str) -> (r: Option<usize>)
        ensures
            match r {
                Some(i) => slot_of(self.records(), agent_id@, i as int),
                None => !is_tracked(self.records(), agent_id@),
            },
    {
        let mut i: usize = 0;
        while i < self.failure_records.len()
            invariant
                i <= self.failure_records@.len(),
                forall|j: int| 0 <= j < i ==> self.failure_records@[j].agent_id@ != agent_id@,
            decreases self.failure_records@.len() - i,
        {
            if str_eq(self.failure_records[i].agent_id.as_str(), agent_id) {
                return Some(i);
            }
            i = i + 1;
        }
        None
    }

    /// Records a failure of an agent and returns its failure count. The agent
    /// is marked dead once the count reaches `max_failed_tasks`; its circuit
    /// opens at the configured threshold.
    pub fn record_failure(&mut self, agent_id: &str, error: &str) -> (n: u32)
        requires
            old(self).well_formed(),
            forall|i: int| #[trigger]
                slot_of(old(self).records(), agent_id@, i) ==> old(self).records()[i].failure_count < u32::MAX,
        ensures
            final(self).well_formed(),
            final(self).config == old(self).config,
            forall|i: int| #[trigger]
                slot_of(old(self).records(), agent_id@, i) ==> {
                    &&& final(self).records().len() == old(self).records().len()
                    &&& forall|j: int|
                        0 <= j < old(self).records().len() && j != i ==> final(self).records()[j]
                            == old(self).records()[j] && final(self).breakers()[j] == old(self).breakers()[j]
                    &&& record_failed(old(self).records()[i], final(self).records()[i], error@)
                    &&& final(self).records()[i].is_dead == (old(self).records()[i].is_dead
                        || old(self).records()[i].failure_count + 1 >= old(self).config.max_failed_tasks)
                    &&& breaker_failed(old(self).breakers()[i], final(self).breakers()[i])
                    &&& n == final(self).records()[i].failure_count
                },
            !is_tracked(old(self).records(), agent_id@) ==> {
                &&& final(self).records().len() == old(self).records().len() + 1
                &&& final(self).records().drop_last() == old(self).records()
                &&& final(self).breakers().drop_last() == old(self).breakers()
                &&& final(self).records().last().agent_id@ == agent_id@
                &&& final(self).records().last().failure_count == 1
                &&& final(self).records().last().last_error@ == error@
                &&& final(self).records().last().is_dead == (1 >= old(self).config.max_failed_tasks)
                &&& final(self).breakers().last().failure_count == 1
                &&& final(self).breakers().last().last_failure_time is Some
                &&& final(self).breakers().last().threshold == old(self).config.circuit_breaker_threshold
                &&& final(self).breakers().last().open_duration_secs
                    == old(self).config.circuit_breaker_recovery_secs
                &&& final(self).breakers().last().state == (if 1 >= old(self).config.circuit_breaker_threshold {
                    HealingCircuitState::Open
                } else {
                    HealingCircuitState::Closed
                })
                &&& n == 1
            },
    {
        match self.position(agent_id) {
            Some(i) => {
                let ghost old_records = self.failure_records@;
                let ghost old_breakers = self.circuit_breakers@;
                let mut r = self.failure_records.remove(i);
                r.add_failure(error);
                if r.failure_count >= self.config.max_failed_tasks {
                    r.is_dead = true;
                }
                let n = r.failure_count;
                self.failure_records.insert(i, r);
                let mut b = self.circuit_breakers.remove(i);
                b.record_failure();
                self.circuit_breakers.insert(i, b);
                proof {
                    assert(self.failure_records@ =~= old_records.update(i as int, r));
                    assert(self.circuit_breakers@ =~= old_breakers.update(i as int, b));
                    assert(distinct_ids(self.failure_records@));
                }
                n
            },
            None => {
                let ghost pre = self.failure_records@;
                let mut r = FailureRecord::new(agent_id, error);
                if r.failure_count >= self.config.max_failed_tasks {
                    r.is_dead = true;
                }
                self.failure_records.push(r);
                let mut b = HealingCircuitBreaker::new(
                    self.config.circuit_breaker_recovery_secs,
                    self.config.circuit_breaker_threshold,
                );
                b.record_failure();
                let ghost old_records = pre;
                self.circuit_breakers.push(b);
                proof {
                    let rs = self.failure_records@;
                    assert(rs.drop_last() == old_records);
                    assert forall|x: int, y: int|
                        0 <= x < rs.len() && 0 <= y < rs.len() && x != y implies (#[trigger] rs[x]).agent_id@
                        != (#[trigger] rs[y]).agent_id@ by {
                        if x < old_records.len() && y < old_records.len() {
                            assert(old_records[x] == rs[x] && old_records[y] == rs[y]);
                        } else if x < old_records.len() {
                            assert(!slot_of(old_records, agent_id@, x));
                        } else {
                            assert(!slot_of(old_records, agent_id@, y));
                        }
                    }
                }
                1
            },
        }
    }

    /// Records a success of an agent: its record and its circuit are reset;
    /// an untracked agent changes nothing.
    pub fn record_success(&mut self, agent_id: &str)
        requires
            old(self).well_formed(),
        ensures
            final(self).well_formed(),
            final(self).config == old(self).config,
            forall|i: int| #[trigger]
                slot_of(old(self).records(), agent_id@, i) ==> final(self).records() == old(self).records().update(
                    i,
                    record_reset(old(self).records()[i]),
                ) && final(self).breakers() == old(self).breakers().update(i, breaker_reset(old(self).breakers()[i])),
            !is_tracked(old(self).records(), agent_id@) ==> final(self).records() == old(self).records()
                && final(self).breakers() == old(self).breakers(),
    {
        match self.position(agent_id) {
            Some(i) => {
                let ghost old_records = self.failure_records@;
                let ghost old_breakers = self.circuit_breakers@;
                let mut r = self.failure_records.remove(i);
                r.record_success();
                self.failure_records.insert(i, r);
                let mut b = self.circuit_breakers.remove(i);
                b.record_success();
                self.circuit_breakers.insert(i, b);
                proof {
                    assert(self.failure_records@ =~= old_records.update(i as int, r));
                    assert(self.circuit_breakers@ =~= old_breakers.update(i as int, b));
                    assert(distinct_ids(self.failure_records@));
                }
            },
            None => {},
        }
    }

    /// The health of `agent_id` given the clock readings: `breaker_elapsed`,
    /// the nanoseconds since its circuit's last failure (`None` when unknown),
    /// and `dead_elapsed`, the nanoseconds since its last recorded failure. An
    /// untracked agent is healthy and nothing changes. Otherwise its circuit is
    /// asked first (an open circuit half-opens once its recovery period has
    /// passed); the agent is healthy when the circuit is not open afterwards and
    /// it is either not dead or dead for longer than `worker_dead_after_secs`.
    pub fn is_healthy_after(&mut self, agent_id: &str, breaker_elapsed: Option<u128>, dead_elapsed: u128) -> (h: bool)
        requires
            old(self).well_formed(),
        ensures
            final(self).well_formed(),
            health_answer(*old(self), *final(self), agent_id@, breaker_elapsed, dead_elapsed, h),
    {
        match self.position(agent_id) {
            None => true,
            Some(i) => {
                let ghost old_breakers = self.circuit_breakers@;
                let mut b = self.circuit_breakers.remove(i);
                let ok = b.can_execute_after(breaker_elapsed);
                self.circuit_breakers.insert(i, b);
                proof {
                    assert(self.circuit_breakers@ =~= old_breakers.update(i as int, b));
                }
                if !ok {
                    return false;
                }
                if self.failure_records[i].is_dead {
                    return is_past_dead_timeout(dead_elapsed, self.config.worker_dead_after_secs);
                }
                true
            },
        }
    }

    /// Whether an agent is healthy now: [`Self::is_healthy_after`] at the
    /// clock's readings since the circuit's and the record's last failures.
    pub fn is_healthy(&mut self, agent_id: &str) -> (h: bool)
        requires
            old(self).well_formed(),
        ensures
            final(self).well_formed(),
            exists|breaker_elapsed: Option<u128>, dead_elapsed: u128| #[trigger] health_answer(
                *old(self),
                *final(self),
                agent_id@,
                breaker_elapsed,
                dead_elapsed,
                h,
            ),
            final(self).config == old(self).config,
            final(self).records() == old(self).records(),
            !is_tracked(old(self).records(), agent_id@) ==> h && final(self).breakers() == old(self).breakers(),
            forall|i: int| #[trigger]
                slot_of(old(self).records(), agent_id@, i) ==> {
                    let before = old(self).breakers()[i];
                    let after = final(self).breakers()[i];
                    &&& final(self).breakers() == old(self).breakers().update(i, after)
                    &&& before.state != HealingCircuitState::Open ==> after == before
                    &&& before.state == HealingCircuitState::Open ==> after == before || (before.last_failure_time is Some
                        && after == breaker_half_open(before))
                    &&& after.state == HealingCircuitState::Open ==> !h
                    &&& after.state != HealingCircuitState::Open && !old(self).records()[i].is_dead ==> h
                },
    {
        let (breaker_elapsed, dead_elapsed): (Option<u128>, u128) = match self.position(agent_id) {
            None => (None, 0),
            Some(i) => {
                let be = if self.circuit_breakers[i].state == HealingCircuitState::Open {
                    match &self.circuit_breakers[i].last_failure_time {
                        Some(t) => Some(nanos_since(t)),
                        None => None,
                    }
                } else {
                    None
                };
                let de = if self.failure_records[i].is_dead {
                    nanos_since(&self.failure_records[i].last_failure)
                } else {
                    0
                };
                (be, de)
            },
        };
        let ghost be = breaker_elapsed;
        let ghost before = *self;
        let h = self.is_healthy_after(agent_id, breaker_elapsed, dead_elapsed);
        proof {
            assert(health_answer(before, *self, agent_id@, be, dead_elapsed, h));
            assert forall|i: int| #[trigger] slot_of(before.records(), agent_id@, i) implies (be is Some
                ==> before.breakers()[i].last_failure_time is Some) by {
                assert(distinct_ids(before.records()));
            }
        }
        h
    }

    /// The failure count of an agent (0 when untracked).
    pub fn failure_count(&self, agent_id: &str) -> (n: u32)
        requires
            self.well_formed(),
        ensures
            forall|i: int| #[trigger] slot_of(self.records(), agent_id@, i) ==> n == self.records()[i].failure_count,
            !is_tracked(self.records(), agent_id@) ==> n == 0,
    {
        match self.position(agent_id) {
            Some(i) => self.failure_records[i].failure_count,
            None => 0,
        }
    }

    /// The circuit state of an agent, if it has a circuit.
    pub fn circuit_state(&self, agent_id: &str) -> (s: Option<HealingCircuitState>)
        requires
            self.well_formed(),
        ensures
            forall|i: int| #[trigger]
                slot_of(self.records(), agent_id@, i) ==> s == Some(self.breakers()[i].state),
            !is_tracked(self.records(), agent_id@) ==> s is None,
    {
        match self.position(agent_id) {
            Some(i) => Some(self.circuit_breakers[i].state),
            None => None,
        }
    }

    /// The dead workers whose last failure is older than
    /// `worker_dead_after_secs`, ready for replacement, in order. Each dead
    /// worker's age is read from the clock (`elapsed`, nanoseconds since its
    /// last failure, one reading per record), so which of them qualify
    /// depends on those readings.
    pub fn dead_workers(&self) -> (ids: Vec<String>)
        ensures
            exists|elapsed: Seq<u128>|
                elapsed.len() == self.records().len() && ids@.map_values(|s: String| s@) == dead_past_timeout(
                    self.records(),
                    elapsed,
                    self.config.worker_dead_after_secs,
                ),
            ids@.len() <= dead_ids(self.records()).len(),
            forall|k: int| 0 <= k < ids@.len() ==> dead_ids(self.records()).contains(#[trigger] ids@[k]@),
    {
        let mut out: Vec<String> = Vec::new();
        let mut i: usize = 0;
        let ghost mut readings: Seq<u128> = Seq::empty();
        while i < self.failure_records.len()
            invariant
                i <= self.failure_records@.len(),
                readings.len() == i,
                out@.map_values(|s: String| s@) == dead_past_timeout(
                    self.failure_records@.take(i as int),
                    readings,
                    self.config.worker_dead_after_secs,
                ),
                out@.len() <= dead_ids(self.failure_records@.take(i as int)).len(),
                forall|k: int|
                    0 <= k < out@.len() ==> dead_ids(self.failure_records@.take(i as int)).contains(#[trigger] out@[k]@),
            decreases self.failure_records@.len() - i,
        {
            let r = &self.failure_records[i];
            let ghost before = self.failure_records@.take(i as int);
            let ghost after = self.failure_records@.take(i + 1);
            let ghost out_before = out@;
            proof {
                assert(after.drop_last() == before);
                assert(after.last() == self.failure_records@[i as int]);
                lemma_dead_ids_prefix(after);
            }
            let ghost mut reading: u128 = 0;
            let past = if r.is_dead {
                let n = nanos_since(&r.last_failure);
                proof {
                    reading = n;
                }
                is_past_dead_timeout(n, self.config.worker_dead_after_secs)
            } else {
                false
            };
            proof {
                let next = readings.push(reading);
                assert(next.drop_last() =~= readings);
                assert(next.last() == reading);
            }
            if past {
                out.push(r.agent_id.clone());
                proof {
                    assert(out@.map_values(|s: String| s@) =~= out_before.map_values(|s: String| s@).push(
                        r.agent_id@,
                    ));
                    assert(dead_ids(after) == dead_ids(before).push(r.agent_id@));
                    assert forall|k: int| 0 <= k < out@.len() implies dead_ids(after).contains(#[trigger] out@[k]@) by {
                        if k < out@.len() - 1 {
                            let w = choose|w: int| 0 <= w < dead_ids(before).len() && dead_ids(before)[w] == out@[k]@;
                            assert(dead_ids(after)[w] == out@[k]@);
                        } else {
                            assert(dead_ids(after)[dead_ids(before).len() as int] == out@[k]@);
                        }
                    }
                }
            } else {
                proof {
                    assert forall|k: int| 0 <= k < out@.len() implies dead_ids(after).contains(#[trigger] out@[k]@) by {
                        let w = choose|w: int| 0 <= w < dead_ids(before).len() && dead_ids(before)[w] == out@[k]@;
                        assert(dead_ids(after)[w] == out@[k]@);
                    }
                }
            }
            proof {
                readings = readings.push(reading);
            }
            i = i + 1;
        }
        proof {
            assert(self.failure_records@.take(self.failure_records@.len() as int) == self.failure_records@);
            assert(readings.len() == self.records().len() && out@.map_values(|s: String| s@) == dead_past_timeout(
                self.records(),
                readings,
                self.config.worker_dead_after_secs,
            ));
        }
        out
    }

    /// The ids of all dead workers, in order.
    pub fn all_dead_workers(&self) -> (ids: Vec<String>)
        ensures
            ids@.len() == dead_ids(self.records()).len(),
            forall|k: int| 0 <= k < ids@.len() ==> #[trigger] ids@[k]@ == dead_ids(self.records())[k],
    {
        let mut out: Vec<String> = Vec::new();
        let mut i: usize = 0;
        while i < self.failure_records.len()
            invariant
                i <= self.failure_records@.len(),
                out@.len() == dead_ids(self.failure_records@.take(i as int)).len(),
                forall|k: int|
                    0 <= k < out@.len() ==> #[trigger] out@[k]@ == dead_ids(self.failure_records@.take(i as int))[k],
            decreases self.failure_records@.len() - i,
        {
            let r = &self.failure_records[i];
            let ghost before = self.failure_records@.take(i as int);
            let ghost after = self.failure_records@.take(i + 1);
            proof {
                assert(after.drop_last() == before);
                assert(after.last() == self.failure_records@[i as int]);
            }
            if r.is_dead {
                out.push(r.agent_id.clone());
            }
            i = i + 1;
        }
        proof {
            assert(self.failure_records@.take(self.failure_records@.len() as int) == self.failure_records@);
        }
        out
    }

    /// Whether `d` is a delay that [`Self::delay_for_attempt`] may give for
    /// `attempt`: the capped backoff plus some jitter within the range.
    pub open spec fn is_backoff_delay(&self, attempt: nat, d: nat) -> bool {
        let capped = capped_delay(self.config.base_delay_ms as nat, self.config.max_delay_ms as nat, attempt);
        let range = jitter_range(capped, self.config.jitter_percent as nat);
        exists|sample: int| -range <= sample <= range && d == #[trigger] jittered_delay(
            self.config.base_delay_ms as nat,
            capped,
            sample,
        )
    }

    /// The delay in milliseconds before retry `attempt`: `base_delay_ms ·
    /// 2^attempt` capped at `max_delay_ms`, plus a random jitter of up to
    /// `jitter_percent` percent when positive, never below `base_delay_ms`.
    pub fn delay_for_attempt(&self, attempt: u32) -> (d: u64)
        requires
            backoff_in_range(self.config.base_delay_ms as nat, attempt as nat),
        ensures
            self.is_backoff_delay(attempt as nat, d as nat),
    {
        backoff_delay_ms(self.config.base_delay_ms, self.config.max_delay_ms, self.config.jitter_percent, attempt)
    }

    /// Decides what follows attempt `attempt` (0-based) of a retried
    /// operation: success and non-transient errors end it; a transient error
    /// is retried until `max_retries` retries were made, after which the
    /// operation fails with a message naming the attempts, the agent and the
    /// last error.
    pub fn retry_step<T>(&self, agent_id: &str, attempt: u32, outcome: Result<T, String>, transient: bool) -> (s:
        RetryStep<T>)
        requires
            self.config.max_retries < u32::MAX,
            attempt <= self.config.max_retries,
        ensures
            match outcome {
                Ok(v) => s == RetryStep::Return(Ok::<T, String>(v)),
                Err(e) => if !transient {
                    s == RetryStep::<T>::Return(Err(e))
                } else if attempt < self.config.max_retries {
                    s matches RetryStep::Retry { next_attempt, delay_ms } && next_attempt == attempt + 1
                        && (backoff_in_range(self.config.base_delay_ms as nat, attempt as nat) <==> delay_ms is Some)
                        && (delay_ms matches Some(d) ==> self.is_backoff_delay(attempt as nat, d as nat))
                } else {
                    s matches RetryStep::Return(Err(m)) && m@ == attempts_failed_message(
                        (self.config.max_retries + 1) as nat,
                        agent_id@,
                        e@,
                    )
                },
            },
    {
        match outcome {
            Ok(v) => RetryStep::Return(Ok(v)),
            Err(e) => {
                if !transient {
                    return RetryStep::Return(Err(e));
                }
                if attempt < self.config.max_retries {
                    let delay_ms = if attempt < 64 && fits_backoff(self.config.base_delay_ms, attempt) {
                        Some(self.delay_for_attempt(attempt))
                    } else {
                        None
                    };
                    return RetryStep::Retry { next_attempt: attempt + 1, delay_ms };
                }
                let max_attempts = self.config.max_retries + 1;
                let mut v: Vec<char> = Vec::new();
                push_str(&mut v, "All ");
                push_decimal(&mut v, max_attempts as u64);
                push_str(&mut v, " attempts failed for agent '");
                push_str(&mut v, agent_id);
                push_str(&mut v, "': ");
                push_str(&mut v, e.as_str());
                RetryStep::Return(Err(string_from_chars(&v)))
            },
        }
    }

    /// Forgets every agent.
    pub fn reset(&mut self)
        ensures
            final(self).well_formed(),
            final(self).config == old(self).config,
            final(self).records().len() == 0,
            final(self).breakers().len() == 0,
    {
        self.failure_records.clear();
        self.circuit_breakers.clear();
    }

    /// Forgets one agent.
    pub fn reset_agent(&mut self, agent_id: &str)
        requires
            old(self).well_formed(),
        ensures
            final(self).well_formed(),
            final(self).config == old(self).config,
            forall|i: int| #[trigger]
                slot_of(old(self).records(), agent_id@, i) ==> final(self).records() == old(self).records().remove(i)
                    && final(self).breakers() == old(self).breakers().remove(i),
            !is_tracked(old(self).records(), agent_id@) ==> final(self).records() == old(self).records()
                && final(self).breakers() == old(self).breakers(),
            !is_tracked(final(self).records(), agent_id@),
    {
        match self.position(agent_id) {
            Some(i) => {
                let ghost old_records = self.failure_records@;
                self.failure_records.remove(i);
                self.circuit_breakers.remove(i);
                proof {
                    let rs = self.failure_records@;
                    assert forall|x: int, y: int|
                        0 <= x < rs.len() && 0 <= y < rs.len() && x != y implies (#[trigger] rs[x]).agent_id@
                        != (#[trigger] rs[y]).agent_id@ by {
                        let ox = if x < i { x } else { x + 1 };
                        let oy = if y < i { y } else { y + 1 };
                        assert(rs[x] == old_records[ox] && rs[y] == old_records[oy]);
                    }
                    assert forall|k: int| !slot_of(rs, agent_id@, k) by {
                        if 0 <= k < rs.len() {
                            let ok = if k < i { k } else { k + 1 };
                            assert(rs[k] == old_records[ok]);
                        }
                    }
                }
            },
            None => {},
        }
    }

    /// The number of tracked agents.
    pub fn tracked_agents(&self) -> (n: usize)
        ensures
            n == self.records().len(),
    {
        self.failure_records.len()
    }

    /// The number of dead agents.
    pub fn dead_agent_count(&self) -> (n: usize)
        ensures
            n == dead_ids(self.records()).len(),
    {
        self.all_dead_workers().len()
    }

    /// The number of open circuits.
    pub fn open_circuit_count(&self) -> (n: usize)
        ensures
            n == open_count(self.breakers()),
    {
        let mut n: usize = 0;
        let mut i: usize = 0;
        while i < self.circuit_breakers.len()
            invariant
                i <= self.circuit_breakers@.len(),
                n == open_count(self.circuit_breakers@.take(i as int)),
                n <= i,
            decreases self.circuit_breakers@.len() - i,
        {
            proof {
                let after = self.circuit_breakers@.take(i + 1);
                assert(after.drop_last() == self.circuit_breakers@.take(i as int));
                assert(after.last() == self.circuit_breakers@[i as int]);
            }
            if self.circuit_breakers[i].state == HealingCircuitState::Open {
                n = n + 1;
            }
            i = i + 1;
        }
        proof {
            assert(self.circuit_breakers@.take(self.circuit_breakers@.len() as int) == self.circuit_breakers@);
        }
        n
    }
}

} // verus!
