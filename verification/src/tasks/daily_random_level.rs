use vstd::prelude::*;

verus! {

/// The seconds of one day.
pub const SECONDS_PER_DAY: u64 = 86_400;

/// The nanoseconds of one second.
pub const NANOS_PER_SECOND: u32 = 1_000_000_000;

/// The seconds to let pass between two channels when the daily level is sent round.
pub const SEND_PAUSE_SECS: u64 = 2;

/// A moment or a span of time in nanoseconds, given as whole seconds and
/// the nanoseconds beyond them.
pub open spec fn nanoseconds(seconds: u64, nanos: u32) -> int {
    seconds * 1_000_000_000 + nanos
}

/// The time from a moment to the next midnight, both by the clock of UTC.
///
/// The moment is given as the seconds since midnight of the first day of
/// 1970 and the nanoseconds beyond them, and the wait comes back as seconds
/// and nanoseconds too. The wait is never nothing: at midnight sharp it is
/// a whole day.
pub fn until_next_midnight(seconds: u64, nanos: u32) -> (wait: (u64, u32))
    requires
        nanos < NANOS_PER_SECOND,
    ensures
        wait.1 < NANOS_PER_SECOND,
        0 < nanoseconds(wait.0, wait.1) <= nanoseconds(SECONDS_PER_DAY, 0),
        (nanoseconds(seconds, nanos) + nanoseconds(wait.0, wait.1)) % nanoseconds(
            SECONDS_PER_DAY,
            0,
        ) == 0,
{
    let into_day: u64 = seconds % SECONDS_PER_DAY;
    let wait: (u64, u32) = if nanos == 0 {
        (SECONDS_PER_DAY - into_day, 0)
    } else {
        (SECONDS_PER_DAY - into_day - 1, NANOS_PER_SECOND - nanos)
    };
    proof {
        let days = seconds as int / 86_400;
        assert(seconds == days * 86_400 + into_day);
        assert(nanoseconds(seconds, nanos) + nanoseconds(wait.0, wait.1) == (days + 1)
            * 86_400_000_000_000);
        assert(((days + 1) * 86_400_000_000_000) % 86_400_000_000_000 == 0) by (nonlinear_arith);
    }
    wait
}

} // verus!
