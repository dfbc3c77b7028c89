//! Trusted access to the monotonic clock.
//!
//! An [`std::time::Instant`] is opaque to the verifier: a value of it is only
//! ever created here, carried through the data model, and handed back here.

use vstd::prelude::*;

verus! {

#[verifier::external_type_specification]
#[verifier::external_body]
pub struct ExInstant(std::time::Instant);

/// Relies on `std::time::Instant::now`: an opaque mark on the monotonic
/// clock. Nothing is promised of the mark itself.
#[verifier::external_body]
pub(crate) fn instant_now() -> std::time::Instant {
    std::time::Instant::now()
}

/// Relies on `std::time::Instant::elapsed` and `std::time::Duration::as_secs`:
/// the whole seconds that passed since `earlier` was captured, zero if the
/// clock has not advanced (`elapsed` saturates and never panics). The result
/// depends on the moment of the call, so nothing is promised of it.
#[verifier::external_body]
pub(crate) fn secs_since(earlier: &std::time::Instant) -> u64 {
    earlier.elapsed().as_secs()
}

} // verus!
