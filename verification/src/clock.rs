//! Time, in ticks of the embassy clock.
//!
//! The clock runs at 32 768 Hz, the rate of the nRF's RTC; the package
//! manifest fixes that rate for `embassy_time`.

use vstd::prelude::*;

verus! {

/// The ticks that `micros` microseconds take, rounded up: 32 768 ticks are
/// 1 000 000 microseconds, and both have the factor 64.
pub open spec fn micros_in_ticks(micros: int) -> int {
    (micros * 512 + 15_624) / 15_625
}

/// `embassy_time::Duration::from_micros`, its result as a tick count.
///
/// Claimed: the duration has the ticks that the microseconds take at
/// 32 768 Hz, rounded up. Left out are the counts for which that product is
/// past the range of `u64`.
#[verifier::external_body]
fn duration_from_micros(micros: u64) -> (ticks: u64)
    requires
        micros * 512 + 15_624 <= u64::MAX,
    ensures
        ticks == micros_in_ticks(micros as int),
{
    embassy_time::Duration::from_micros(micros).as_ticks()
}

/// The sum of an `embassy_time::Instant` and a `Duration`, all three as tick
/// counts.
///
/// Claimed: the sum's tick count is the sum of the tick counts. Left out are
/// sums past the range of `u64`, on which the addition panics.
#[verifier::external_body]
fn instant_plus(now: u64, delay: u64) -> (at: u64)
    requires
        now + delay <= u64::MAX,
    ensures
        at == now + delay,
{
    (embassy_time::Instant::from_ticks(now) + embassy_time::Duration::from_ticks(delay)).as_ticks()
}

/// The delay of `micros` microseconds, rounded up to whole ticks.
pub fn from_micros(micros: u64) -> (ticks: u64)
    requires
        micros * 512 + 15_624 <= u64::MAX,
    ensures
        ticks == micros_in_ticks(micros as int),
{
    duration_from_micros(micros)
}

/// The instant that comes `delay` ticks after `now`.
pub fn add(now: u64, delay: u64) -> (at: u64)
    requires
        now + delay <= u64::MAX,
    ensures
        at == now + delay,
{
    instant_plus(now, delay)
}

} // verus!
