//! The one place where the crate reads the wall clock. Everything downstream
//! takes the reading as an ordinary `i64` argument, so the token and gate
//! logic is verified for every possible time.
use vstd::prelude::*;

verus! {

/// Upper bound on any Unix timestamp that `chrono` can hand out: its
/// calendar ends on the last day of year 262142, below 2^43 seconds.
pub const MAX_UNIX_SECONDS: i64 = 0x7FFFFFFFFFF;

/// A plausible clock reading: what `now_seconds` can return.
pub open spec fn clock_in_range(now: int) -> bool {
    0 <= now <= MAX_UNIX_SECONDS
}

/// Relies on chrono's `Utc::now`: the system clock read as whole Unix
/// seconds. chrono refuses a reading before the epoch (it panics rather than
/// return one) and cannot represent a date past year 262142, so the result
/// lies in `[0, MAX_UNIX_SECONDS]`. Nothing else can be promised of a clock.
#[verifier::external_body]
pub(crate) fn now_seconds() -> (r: i64)
    ensures
        clock_in_range(r as int),
{
    chrono::Utc::now().timestamp()
}

} // verus!
