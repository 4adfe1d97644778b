//! The monotonic clock packets are stamped with.

use vstd::prelude::*;

verus! {

#[verifier::external_type_specification]
#[verifier::external_body]
pub struct ExInstant(std::time::Instant);

/// Relies on `std::time::Instant::now`: one reading of the monotonic clock,
/// to serve as the base every later stamp is measured from.
#[verifier::external_body]
pub(crate) fn instant_now() -> std::time::Instant {
    std::time::Instant::now()
}

/// Relies on `std::time::Instant::elapsed`: the monotonic time since `base`,
/// in nanoseconds, truncated into a `u64` (enough for centuries).  `Instant`
/// is documented monotone, so of two sequential readings the later is never
/// smaller.
#[verifier::external_body]
pub(crate) fn elapsed_nanos(base: &std::time::Instant) -> u64 {
    base.elapsed().as_nanos() as u64
}

} // verus!
