//! The monotonic clock.

use std::time::Instant;
use vstd::prelude::*;

verus! {

#[verifier::external_type_specification]
#[verifier::external_body]
pub struct ExInstant(Instant);

/// `Instant::now`: the current instant of the monotonic clock. Nothing is
/// stated of it: it depends on when the call happens.
#[verifier::external_body]
pub fn monotonic_now() -> Instant {
    Instant::now()
}

/// `Instant::elapsed`, as whole nanoseconds (`Duration::as_nanos`): the time
/// since `start`. Its value depends on when the call happens and is not
/// stated; what is stated is that a `Duration` counts its whole seconds in a
/// `u64`, so that the whole seconds of the result fit in one.
#[verifier::external_body]
pub fn elapsed_nanos(start: &Instant) -> (nanos: u128)
    ensures
        nanos / 1_000_000_000 <= u64::MAX,
{
    start.elapsed().as_nanos()
}

/// Returns the whole seconds in `nanos` nanoseconds.
pub fn whole_seconds(nanos: u128) -> (secs: u64)
    requires
        nanos / 1_000_000_000 <= u64::MAX,
    ensures
        secs == nanos / 1_000_000_000,
{
    (nanos / 1_000_000_000) as u64
}

} // verus!
