//! Durations of the protocol's timeouts.
use vstd::prelude::*;

use std::time::Duration;

verus! {

/// What `Duration::new(secs, nanos)` returns.
pub uninterp spec fn duration_new(secs: u64, nanos: u32) -> Duration;

/// What `Duration::from_millis(millis)` returns.
pub uninterp spec fn duration_from_millis(millis: u64) -> Duration;

/// `Duration::new`. It panics when the nanoseconds carry over into a
/// seconds count beyond `u64::MAX`; nanoseconds below one second never do.
#[verifier::external_body]
pub(crate) fn new_duration(secs: u64, nanos: u32) -> (d: Duration)
    requires
        nanos < 1_000_000_000,
    ensures
        d == duration_new(secs, nanos),
{
    Duration::new(secs, nanos)
}

/// `Duration::from_millis`.
#[verifier::external_body]
pub(crate) fn duration_millis(millis: u64) -> (d: Duration)
    ensures
        d == duration_from_millis(millis),
{
    Duration::from_millis(millis)
}

} // verus!
