//! Durations of the standard library, as the library builds them.
use vstd::prelude::*;
use std::time::Duration;

verus! {

/// The duration of `s` whole seconds.
pub uninterp spec fn secs_duration(s: u64) -> Duration;

/// The duration of `ms` milliseconds.
pub uninterp spec fn millis_duration(ms: u64) -> Duration;

/// Relies on `Duration::from_secs`, which depends on its argument alone.
#[verifier::external_body]
pub(crate) fn duration_from_secs(s: u64) -> (r: Duration)
    ensures
        r == secs_duration(s),
{
    Duration::from_secs(s)
}

/// Relies on `Duration::from_millis`, which depends on its argument alone.
#[verifier::external_body]
pub(crate) fn duration_from_millis(ms: u64) -> (r: Duration)
    ensures
        r == millis_duration(ms),
{
    Duration::from_millis(ms)
}

/// Relies on `Duration`'s `Clone`, which copies the value.
pub assume_specification[ <Duration as Clone>::clone ](d: &Duration) -> (r: Duration)
    ensures
        r == *d,
;

} // verus!
