use vstd::prelude::*;

verus! {

/// Declares `std::time::Instant`, a reading of the host's monotonic clock,
/// so that it can stand in fields and signatures. A value of it is opaque.
#[verifier::external_type_specification]
#[verifier::external_body]
pub struct ExInstant(std::time::Instant);

/// Relies on `std::time::Instant::now`: a fresh reading of the monotonic
/// clock. The value depends on when the call happens, so nothing is
/// promised of it.
pub assume_specification[ std::time::Instant::now ]() -> std::time::Instant;

/// Relies on `std::time::Instant::elapsed`: the span between this reading
/// and the clock now. The value depends on when the call happens, so
/// nothing is promised of it.
pub assume_specification[ std::time::Instant::elapsed ](i: &std::time::Instant) -> core::time::Duration;

/// Relies on `core::time::Duration::as_millis`: the duration in whole
/// milliseconds. The duration itself is opaque here, so nothing more is
/// promised of the value.
pub assume_specification[ core::time::Duration::as_millis ](d: &core::time::Duration) -> u128;

} // verus!
