use std::time::Instant;
use vstd::prelude::*;

verus! {

/// The longest span a `std::time::Duration` can hold, in nanoseconds:
/// `u64::MAX` seconds and 999_999_999 nanoseconds.
pub const MAX_DURATION_NANOS: u128 = 18_446_744_073_709_551_615_999_999_999;

/// A point on the monotonic clock.
#[verifier::external_type_specification]
#[verifier::external_body]
pub struct ExInstant(std::time::Instant);

/// Reads the monotonic clock through `std::time::Instant::now`.
/// Nothing is claimed of the instant it returns.
#[verifier::external_body]
pub(crate) fn now() -> Instant {
    std::time::Instant::now()
}

/// The span from `earlier` to `later`, in whole nanoseconds, as
/// `Instant::duration_since` gives it.
pub uninterp spec fn instant_gap(earlier: Instant, later: Instant) -> nat;

/// Calls `std::time::Instant::elapsed` on `since` and gives the span in whole
/// nanoseconds (`Duration::as_nanos`). `elapsed` is the span from `since` to
/// the instant the clock reads during the call, so the result is the gap from
/// `since` to some instant; which instant depends on when the call is made
/// and is left unsaid. It fits a `Duration`.
#[verifier::external_body]
pub(crate) fn nanos_since(since: &Instant) -> (r: u128)
    ensures
        exists|read_at: Instant| r == #[trigger] instant_gap(*since, read_at),
        r <= MAX_DURATION_NANOS,
{
    since.elapsed().as_nanos()
}

/// Calls `std::time::Instant::duration_since` (`later` minus `earlier`, zero
/// when `earlier` is the later one) and gives the span in whole nanoseconds.
/// The span depends on the two instants alone, so it is named `instant_gap`;
/// what that gap is for given instants is left unsaid, as instants are opaque
/// here. It fits a `Duration`.
#[verifier::external_body]
pub(crate) fn nanos_between(earlier: &Instant, later: &Instant) -> (r: u128)
    ensures
        r == instant_gap(*earlier, *later),
        r <= MAX_DURATION_NANOS,
{
    later.duration_since(*earlier).as_nanos()
}

} // verus!
