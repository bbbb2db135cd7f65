//! The monotonic clock and the random source that the timing logic reads.
//!
//! Each reading depends on the machine, not on its arguments, so nothing is
//! promised of a value beyond its range; the decisions built on these readings
//! take them as arguments and are verified for every value.

use vstd::prelude::*;
use rand::{Rng, SeedableRng};
use std::time::{Instant, SystemTime, UNIX_EPOCH};

verus! {

/// A point in time of the monotonic clock (`std::time::Instant`).
#[verifier::external_type_specification]
#[verifier::external_body]
pub struct ExInstant(Instant);

/// `Instant` is `Copy`: its `clone` hands back the same instant.
pub assume_specification[ <Instant as Clone>::clone ](t: &Instant) -> (r: Instant)
    ensures
        r == *t,
;

/// Nanoseconds in one second.
pub const NANOS_PER_SEC: u128 = 1_000_000_000;

/// The current instant (`Instant::now`).
#[verifier::external_body]
pub(crate) fn now() -> Instant {
    Instant::now()
}

/// Nanoseconds elapsed since `t` (`Instant::elapsed`, read in nanoseconds).
#[verifier::external_body]
pub(crate) fn nanos_since(t: &Instant) -> u128 {
    t.elapsed().as_nanos()
}

/// Nanoseconds since the Unix epoch on the wall clock (`SystemTime::now`),
/// 0 if the clock is set before the epoch.
#[verifier::external_body]
pub(crate) fn unix_nanos() -> u64 {
    SystemTime::now().duration_since(UNIX_EPOCH).unwrap_or_default().as_nanos() as u64
}

/// Whole seconds since the Unix epoch on the wall clock (`SystemTime::now`),
/// 0 if the clock is set before the epoch.
#[verifier::external_body]
pub(crate) fn unix_secs() -> u64 {
    SystemTime::now().duration_since(UNIX_EPOCH).unwrap_or_default().as_secs()
}

/// The current UTC time as RFC 3339 text: the wall clock (`SystemTime::now`)
/// read as seconds and nanoseconds since the Unix epoch, made a UTC date with
/// `chrono::DateTime::from_timestamp` and written with `to_rfc3339`. `None`
/// when the clock reads before the epoch or beyond the dates chrono holds.
#[verifier::external_body]
fn rfc3339_now() -> Option<String> {
    let d = SystemTime::now().duration_since(UNIX_EPOCH).ok()?;
    let secs = i64::try_from(d.as_secs()).ok()?;
    let t = chrono::DateTime::<chrono::Utc>::from_timestamp(secs, d.subsec_nanos())?;
    Some(t.to_rfc3339())
}

/// The Unix epoch as RFC 3339 text.
pub const EPOCH_RFC3339: &'static str = "1970-01-01T00:00:00+00:00";

/// The current UTC time as RFC 3339 text; the epoch itself
/// ([`EPOCH_RFC3339`]) when the wall clock cannot be read as a date.
pub(crate) fn now_rfc3339() -> String {
    match rfc3339_now() {
        Some(s) => s,
        None => String::from_str(EPOCH_RFC3339),
    }
}

/// A uniformly drawn integer of `lo..=hi`: a `rand::rngs::StdRng` seeded from
/// the operating system's random source (`SeedableRng::from_rng(OsRng)`), then
/// `Rng::gen_range`. The draw is random; only its range is promised. `None`
/// when the operating system's random source fails.
#[verifier::external_body]
pub(crate) fn random_between(lo: i128, hi: i128) -> (r: Option<i128>)
    requires
        lo <= hi,
    ensures
        r matches Some(x) ==> lo <= x <= hi,
{
    let mut rng = rand::rngs::StdRng::from_rng(rand::rngs::OsRng).ok()?;
    Some(rng.gen_range(lo..=hi))
}

} // verus!
