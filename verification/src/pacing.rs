//! Inter-send pacing of a single connection.

use vstd::prelude::*;

verus! {

/// Nanoseconds in one second.
pub const NANOS_PER_SECOND: u64 = 1_000_000_000;

/// The gap between two transmissions at `rate` packets per second, as a
/// mathematical value: one second divided by the rate, in whole nanoseconds.
pub open spec fn interval_nanos(rate: int) -> int
    recommends
        rate > 0,
{
    NANOS_PER_SECOND as int / rate
}

/// A rate can be paced when it is positive and its interval is at least one
/// nanosecond long.
pub open spec fn paceable(rate: int) -> bool {
    1 <= rate <= NANOS_PER_SECOND as int
}

/// Computes the inter-send interval for `rate` packets per second.
///
/// Returns `None` exactly for the rates that cannot be paced: zero, and rates
/// whose interval would round down to no time at all.
pub fn send_interval_nanos(rate: usize) -> (interval: Option<u64>)
    ensures
        paceable(rate as int) ==> interval == Some(interval_nanos(rate as int) as u64),
        !paceable(rate as int) ==> interval.is_none(),
        interval matches Some(n) ==> 1 <= n <= NANOS_PER_SECOND,
{
    if rate == 0 || rate > 1_000_000_000 {
        return None;
    }
    let r: u64 = rate as u64;
    let n: u64 = NANOS_PER_SECOND / r;
    assert(n >= 1) by (nonlinear_arith)
        requires
            1 <= r <= 1_000_000_000,
            n == 1_000_000_000u64 / r,
    ;
    assert(n <= 1_000_000_000) by (nonlinear_arith)
        requires
            1 <= r,
            n == 1_000_000_000u64 / r,
    ;
    Some(n)
}

/// How many ticks fall due within `seconds` seconds of the start at `rate`
/// packets per second. Ticks are scheduled at absolute times, the `k`-th one
/// `k` intervals after the start, so lateness in handling one tick does not
/// move the next: the count is the number of whole intervals in the time.
pub open spec fn ticks_within(rate: int, seconds: int) -> int
    recommends
        paceable(rate),
        seconds >= 0,
{
    (seconds * NANOS_PER_SECOND as int) / interval_nanos(rate)
}

/// For a rate `r` and an observation window of `T` seconds, a connection
/// sends `r * T` packets: never fewer, and more only by what rounding the
/// interval down to whole nanoseconds brings, at most `r` parts in
/// `10^9 - r`. Where the rate divides a second evenly, the count is exact.
pub proof fn lemma_rate_is_kept(rate: int, seconds: int)
    requires
        paceable(rate),
        seconds >= 0,
    ensures
        rate * seconds <= ticks_within(rate, seconds),
        ticks_within(rate, seconds) * (NANOS_PER_SECOND - rate) <= rate * seconds
            * NANOS_PER_SECOND,
        NANOS_PER_SECOND as int % rate == 0 ==> ticks_within(rate, seconds) == rate * seconds,
{
    let second = NANOS_PER_SECOND as int;
    let interval = interval_nanos(rate);
    let span = seconds * second;
    let ticks = ticks_within(rate, seconds);
    assert(interval * rate <= second < interval * rate + rate && interval >= 1)
        by (nonlinear_arith)
        requires
            1 <= rate <= second,
            interval == second / rate,
    ;
    assert(ticks * interval <= span < ticks * interval + interval && ticks >= 0)
        by (nonlinear_arith)
        requires
            interval >= 1,
            span >= 0,
            ticks == span / interval,
    ;
    assert(rate * seconds <= ticks) by (nonlinear_arith)
        requires
            interval * rate <= second,
            span == seconds * second,
            span < ticks * interval + interval,
            interval >= 1,
            seconds >= 0,
            rate >= 1,
    ;
    assert(ticks * (second - rate) <= rate * seconds * second) by (nonlinear_arith)
        requires
            second < interval * rate + rate,
            span == seconds * second,
            ticks * interval <= span,
            ticks >= 0,
            rate >= 1,
    ;
    if second % rate == 0 {
        assert(interval * rate == second) by (nonlinear_arith)
            requires
                rate >= 1,
                interval == second / rate,
                second % rate == 0,
        ;
        assert(ticks == rate * seconds) by (nonlinear_arith)
            requires
                interval * rate == second,
                span == seconds * second,
                ticks * interval <= span < ticks * interval + interval,
                interval >= 1,
        ;
    }
}

} // verus!
