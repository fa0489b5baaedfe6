//! A microsecond clock over the platform's monotonic timer.

use vstd::prelude::*;

verus! {

#[verifier::external_type_specification]
#[verifier::external_body]
pub struct ExInstant(std::time::Instant);

/// Relies on std::time::Instant::now: a reading of the monotonic clock.
/// Nothing can be promised of it; the value is opaque to the library.
#[verifier::external_body]
fn instant_now() -> std::time::Instant {
    std::time::Instant::now()
}

/// Relies on std::time::Instant::elapsed: the time since the reading was
/// taken. The result depends on the clock, so nothing is promised of it.
#[verifier::external_body]
fn instant_elapsed(start: &std::time::Instant) -> std::time::Duration {
    start.elapsed()
}

/// Relies on std::time::Duration::as_micros: the duration in whole
/// microseconds.
#[verifier::external_body]
fn duration_as_micros(d: &std::time::Duration) -> u128 {
    d.as_micros()
}

pub struct Clock {
    start_time: std::time::Instant,
}

impl Clock {
    pub fn new() -> Self {
        Clock { start_time: instant_now() }
    }

    /// Microseconds since the clock was created or last reset.
    pub fn elapsed(&self) -> u128 {
        duration_as_micros(&instant_elapsed(&self.start_time))
    }

    pub fn reset(&mut self) {
        self.start_time = instant_now();
    }
}

} // verus!
