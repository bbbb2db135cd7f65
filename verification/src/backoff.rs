//! Exponential backoff with jitter, shared by the model retries and the
//! self-healing retries.
//!
//! A delay for attempt `n` is `base · 2ⁿ`, capped at `max`; a random jitter
//! drawn from `[-range, range]` (`range` = a percentage of the capped delay)
//! is added when positive, and the result is never below `base`.

use vstd::prelude::*;
use crate::clock::random_between;
use vstd::arithmetic::power2::{pow2, lemma2_to64, lemma2_to64_rest, lemma_pow2_unfold, lemma_pow2_strictly_increases, lemma_pow2_pos};

verus! {

/// The smaller of two numbers.
pub open spec fn min_nat(a: nat, b: nat) -> nat {
    if a <= b { a } else { b }
}

/// The larger of two numbers.
pub open spec fn max_nat(a: nat, b: nat) -> nat {
    if a >= b { a } else { b }
}

/// The delay before jitter: `base · 2^attempt`, capped at `max`.
pub open spec fn capped_delay(base: nat, max: nat, attempt: nat) -> nat {
    min_nat(base * pow2(attempt), max)
}

/// The jitter bound: `percent` percent of the capped delay, rounded down.
pub open spec fn jitter_range(capped: nat, percent: nat) -> nat {
    capped * percent / 100
}

/// The jitter actually added for a drawn `sample`: negative draws add
/// nothing, and the addition saturates at `u64::MAX`.
pub open spec fn jitter_added(sample: int) -> nat {
    if sample <= 0 { 0 } else if sample > u64::MAX { u64::MAX as nat } else { sample as nat }
}

/// The delay for a drawn `sample`: capped delay plus jitter (saturating),
/// never below `base`.
pub open spec fn jittered_delay(base: nat, capped: nat, sample: int) -> nat {
    max_nat(min_nat(capped + jitter_added(sample), u64::MAX as nat), base)
}

/// Whether `base · 2^attempt` can be computed in 64 bits.
pub open spec fn backoff_in_range(base: nat, attempt: nat) -> bool {
    attempt < 64 && base * pow2(attempt) <= u64::MAX
}

/// `2^attempt` as a 64-bit number.
pub fn pow2_u64(attempt: u32) -> (r: u64)
    requires
        attempt < 64,
    ensures
        r == pow2(attempt as nat),
{
    let mut r: u64 = 1;
    let mut i: u32 = 0;
    proof {
        lemma2_to64();
    }
    while i < attempt
        invariant
            i <= attempt < 64,
            r == pow2(i as nat),
        decreases attempt - i,
    {
        proof {
            lemma2_to64_rest();
            if i < 63 {
                lemma_pow2_strictly_increases(i as nat, 63);
            }
            lemma_pow2_unfold((i + 1) as nat);
        }
        assert(r * 2 <= u64::MAX);
        r = r * 2;
        i = i + 1;
    }
    r
}

/// Whether `base · 2^attempt` fits in 64 bits, for `attempt < 64`.
pub fn fits_backoff(base: u64, attempt: u32) -> (r: bool)
    requires
        attempt < 64,
    ensures
        r == backoff_in_range(base as nat, attempt as nat),
{
    let e = pow2_u64(attempt);
    base.checked_mul(e).is_some()
}

/// The capped delay `min(base · 2^attempt, max)`.
pub fn capped_backoff(base: u64, max: u64, attempt: u32) -> (r: u64)
    requires
        backoff_in_range(base as nat, attempt as nat),
    ensures
        r == capped_delay(base as nat, max as nat, attempt as nat),
{
    let e = pow2_u64(attempt);
    proof {
        lemma_pow2_pos(attempt as nat);
    }
    let b = base * e;
    if b <= max { b } else { max }
}

/// The jitter bound for a capped delay and a percentage.
pub fn jitter_bound(capped: u64, percent: u32) -> (r: u128)
    ensures
        r == jitter_range(capped as nat, percent as nat),
{
    assert(capped * percent <= u64::MAX * u32::MAX) by (nonlinear_arith)
        requires capped <= u64::MAX, percent <= u32::MAX;
    (capped as u128) * (percent as u128) / 100
}

/// The delay for a drawn jitter `sample`.
pub fn delay_with_jitter(base: u64, capped: u64, sample: i128) -> (r: u64)
    ensures
        r == jittered_delay(base as nat, capped as nat, sample as int),
{
    let j: u64 = if sample <= 0 {
        0
    } else if sample > u64::MAX as i128 {
        u64::MAX
    } else {
        sample as u64
    };
    let d = capped.saturating_add(j);
    if d >= base { d } else { base }
}

/// The delay in milliseconds before retry `attempt`: exponential backoff
/// capped at `max`, with a random jitter of up to `jitter_percent` percent.
pub fn backoff_delay_ms(base: u64, max: u64, jitter_percent: u32, attempt: u32) -> (r: u64)
    requires
        backoff_in_range(base as nat, attempt as nat),
    ensures
        exists|sample: int|
            -jitter_range(capped_delay(base as nat, max as nat, attempt as nat), jitter_percent as nat)
                <= sample <= jitter_range(capped_delay(base as nat, max as nat, attempt as nat), jitter_percent as nat)
                && r == jittered_delay(base as nat, capped_delay(base as nat, max as nat, attempt as nat), sample),
{
    let capped = capped_backoff(base, max, attempt);
    let range = jitter_bound(capped, jitter_percent);
    assert(range <= u64::MAX * u32::MAX / 100) by (nonlinear_arith)
        requires range == capped * jitter_percent / 100, capped <= u64::MAX, jitter_percent <= u32::MAX;
    let hi = range as i128;
    // Without a random source there is no jitter.
    let sample = match random_between(-hi, hi) {
        Some(x) => x,
        None => 0,
    };
    delay_with_jitter(base, capped, sample)
}

/// Law: the delay never drops below the base delay, and never exceeds the
/// capped delay plus its jitter bound.
pub proof fn lemma_delay_bounds(base: nat, max: nat, attempt: nat, percent: nat, sample: int)
    requires
        base <= u64::MAX,
        max <= u64::MAX,
        -jitter_range(capped_delay(base, max, attempt), percent) <= sample <= jitter_range(
            capped_delay(base, max, attempt),
            percent,
        ),
    ensures
        jittered_delay(base, capped_delay(base, max, attempt), sample) >= base,
        jittered_delay(base, capped_delay(base, max, attempt), sample) >= capped_delay(base, max, attempt),
        jittered_delay(base, capped_delay(base, max, attempt), sample) <= max_nat(
            capped_delay(base, max, attempt) + jitter_range(capped_delay(base, max, attempt), percent),
            base,
        ),
        capped_delay(base, max, attempt) <= max,
{
}

} // verus!
