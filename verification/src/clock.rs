//! The clock of the machine.  Nothing is known of what it shows; the
//! library only hands moments on and asks how long ago they were.

use vstd::prelude::*;

verus! {

/// `std::time::Instant`, taken as it is: nothing inside a moment is read.
#[verifier::external_type_specification]
#[verifier::external_body]
pub struct ExInstant(std::time::Instant);

/// `Instant::now`: the present moment.  Nothing is known of it.
#[verifier::external_body]
pub(crate) fn now() -> std::time::Instant {
    std::time::Instant::now()
}

/// `Instant::elapsed`, in whole nanoseconds: the time since `since`.
/// Nothing is known of it.
#[verifier::external_body]
pub(crate) fn elapsed_nanos(since: &std::time::Instant) -> u128 {
    since.elapsed().as_nanos()
}

} // verus!
