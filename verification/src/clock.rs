use vstd::prelude::*;

verus! {

/// `std::time::Instant`, a point on the machine's monotonic clock. Nothing
/// of what a value holds is visible to the verifier.
#[verifier::external_type_specification]
#[verifier::external_body]
pub struct ExInstant(std::time::Instant);

/// `std::time::Instant::now` reads the monotonic clock. What it returns
/// depends on the moment of the call, so nothing is claimed of it.
pub assume_specification[ std::time::Instant::now ]() -> (now: std::time::Instant)
;

/// `std::time::Instant::elapsed` gives the time that has passed since the
/// instant was taken. It depends on the moment of the call, so nothing is
/// claimed of it.
pub assume_specification[ std::time::Instant::elapsed ](start: &std::time::Instant) -> (passed:
    std::time::Duration)
;

/// `std::time::Duration::as_secs` gives the whole seconds of a duration.
/// Durations are opaque here, so nothing is claimed of the number.
pub assume_specification[ std::time::Duration::as_secs ](span: &std::time::Duration) -> (secs: u64)
;

/// A monotonic clock that counts whole seconds from the moment it was started.
pub struct Clock {
    started: std::time::Instant,
}

impl Clock {
    /// Starts a clock at the present moment.
    pub fn start() -> Clock {
        Clock { started: std::time::Instant::now() }
    }

    /// The whole seconds that have passed since the clock was started.
    ///
    /// Two readings may differ, and no reading is known beforehand; what has
    /// to hold at a given second is stated by the functions that take the
    /// reading as an argument.
    pub fn now(&self) -> u64 {
        self.started.elapsed().as_secs()
    }
}

} // verus!
