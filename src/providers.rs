//! Ports shared across the crate.

use vstd::prelude::*;

verus! {

/// A source of Unix timestamps, in seconds.
///
/// Nothing is promised of the value: a clock may stand still or go back.
pub trait TimeProvider {
    fn now(&self) -> u64;
}

/// The system clock.
pub struct SystemTimeProvider;

impl TimeProvider for SystemTimeProvider {
    /// Seconds since the Unix epoch; 0 when the clock reads earlier than it.
    fn now(&self) -> u64 {
        match since_epoch() {
            Some(d) => whole_seconds(&d),
            None => 0,
        }
    }
}

/// Relies on `SystemTime::elapsed` applied to `UNIX_EPOCH`: the time since
/// the epoch, `None` when the clock reads earlier.
#[verifier::external_body]
fn since_epoch() -> Option<std::time::Duration> {
    std::time::UNIX_EPOCH.elapsed().ok()
}

/// Relies on `Duration::as_secs`: the whole seconds of a duration.
#[verifier::external_body]
fn whole_seconds(d: &std::time::Duration) -> u64 {
    d.as_secs()
}

} // verus!
