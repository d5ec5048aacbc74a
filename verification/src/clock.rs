//! Points in time as plain numbers.
//!
//! Reading a clock is left to the caller: every function that depends on the
//! time takes it as an argument.
use vstd::prelude::*;

verus! {

/// Nanoseconds in a millisecond.
pub const NANOS_PER_MS: u64 = 1_000_000;

/// A reading of a monotonic clock, in nanoseconds since an origin that the
/// caller fixes once per process.
#[derive(Clone, Copy, Debug, PartialEq, Eq, Structural)]
pub struct Instant {
    pub nanos: u64,
}

/// Whole milliseconds from `earlier` to `later`; zero if `earlier` is later.
pub open spec fn elapsed_ms(earlier: Instant, later: Instant) -> nat {
    if earlier.nanos <= later.nanos {
        ((later.nanos - earlier.nanos) / NANOS_PER_MS as int) as nat
    } else {
        0
    }
}

impl Instant {
    /// Whole milliseconds that passed since `earlier`.
    pub fn ms_since(self, earlier: Instant) -> (ms: u64)
        ensures
            ms == elapsed_ms(earlier, self),
    {
        if earlier.nanos <= self.nanos {
            (self.nanos - earlier.nanos) / NANOS_PER_MS
        } else {
            0
        }
    }
}

/// A wall-clock time in UTC: seconds since the Unix epoch, and nanoseconds.
#[derive(Clone, Copy, Debug, PartialEq, Eq, Structural)]
pub struct Timestamp {
    pub secs: i64,
    pub nanos: u32,
}

/// The time that passed is counted in whole milliseconds of a million nanoseconds
/// each, rounded down; time never runs backwards.
pub proof fn law_elapsed_counts_milliseconds(earlier: Instant, later: Instant)
    ensures
        earlier.nanos <= later.nanos ==> elapsed_ms(earlier, later) * 1_000_000 <= later.nanos
            - earlier.nanos,
        earlier.nanos <= later.nanos ==> later.nanos - earlier.nanos < (elapsed_ms(earlier, later)
            + 1) * 1_000_000,
        earlier.nanos > later.nanos ==> elapsed_ms(earlier, later) == 0,
{
}

/// `ms_since` counts whole milliseconds, and none where the other time lies ahead.
pub proof fn law_ms_since_counts_milliseconds(now: Instant, earlier: Instant, ms: u64)
    requires
        call_ensures(Instant::ms_since, (now, earlier), ms),
    ensures
        earlier.nanos <= now.nanos ==> ms * 1_000_000 <= now.nanos - earlier.nanos < (ms + 1)
            * 1_000_000,
        earlier.nanos > now.nanos ==> ms == 0,
{
}

} // verus!
