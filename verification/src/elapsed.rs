//! Elapsed time as the time limits take it: in whole milliseconds, rounded
//! up, so that a limit counts as passed as soon as the time is past it by
//! any fraction of a millisecond.

use vstd::prelude::*;

verus! {

/// The nanoseconds of a millisecond.
pub const NANOS_PER_MILLI: u128 = 1_000_000;

/// A time in nanoseconds as whole milliseconds, rounded up; a time too long
/// to be counted is taken as the longest time that can be.
pub open spec fn millis_up_of(nanos: u128) -> u64 {
    let whole = (nanos as int + 999_999) / 1_000_000;
    if whole > u64::MAX {
        u64::MAX
    } else {
        whole as u64
    }
}

/// A time in nanoseconds as whole milliseconds, rounded up.
pub fn millis_up(nanos: u128) -> (millis: u64)
    ensures
        millis == millis_up_of(nanos),
{
    let quotient: u128 = nanos / NANOS_PER_MILLI;
    let rest: u128 = nanos % NANOS_PER_MILLI;
    let whole: u128 = if rest == 0 {
        quotient
    } else {
        quotient + 1
    };
    assert(whole as int == (nanos as int + 999_999) / 1_000_000);
    if whole > u64::MAX as u128 {
        u64::MAX
    } else {
        whole as u64
    }
}

/// Rounding up keeps every time limit exact: the rounded time is more than a
/// limit in milliseconds exactly when the time itself is more than the
/// limit.
pub proof fn lemma_rounding_keeps_limits(nanos: u128, limit_ms: u64)
    requires
        limit_ms < u64::MAX,
    ensures
        millis_up_of(nanos) > limit_ms <==> nanos as int > limit_ms as int * 1_000_000,
{
}

/// A time of whole milliseconds is left as it is.
pub proof fn lemma_whole_millis_stay(millis: u64)
    ensures
        millis_up_of((millis as int * 1_000_000) as u128) == millis,
{
}

} // verus!
