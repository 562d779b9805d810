//! Wall-clock timing of named phases.
use vstd::prelude::*;

verus! {

/// A moment read from the monotonic clock, opaque to reasoning.
#[verifier::external_type_specification]
#[verifier::external_body]
pub struct ExInstant(std::time::Instant);

/// Relies on std::time::Instant::now: a reading of the monotonic
/// clock. Nothing is promised of it; the clock decides.
#[verifier::external_body]
fn instant_now() -> std::time::Instant {
    std::time::Instant::now()
}

/// Relies on std::time::Instant::elapsed: the span from the reading to
/// now. Nothing is promised of it; the clock decides.
#[verifier::external_body]
fn instant_elapsed(start: &std::time::Instant) -> core::time::Duration {
    start.elapsed()
}

/// Relies on core::time::Duration::as_millis: the span in whole
/// milliseconds.
#[verifier::external_body]
fn duration_as_millis(d: &core::time::Duration) -> u128 {
    d.as_millis()
}

/// A named phase being timed, from the moment it was created.
pub struct Timer {
    /// The clock reading the timer started at.
    pub start: std::time::Instant,
    /// The phase's name, as reported next to its elapsed time.
    pub label: String,
}

impl Timer {
    /// Start timing a phase under the given name.
    pub fn new(label: &str) -> (t: Timer)
        ensures
            t.label@ == label@,
    {
        Timer { start: instant_now(), label: label.to_owned() }
    }

    /// How many whole milliseconds have passed since the timer started.
    /// The clock alone decides the value.
    pub fn elapsed_ms(&self) -> u128 {
        let d = instant_elapsed(&self.start);
        duration_as_millis(&d)
    }
}

} // verus!
