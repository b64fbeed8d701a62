//! The monotonic clock of the standard library, as far as the timer reads it.
//!
//! Nothing is claimed of what the clock returns: the timer is verified for
//! every reading.

use vstd::prelude::*;
use std::time::Duration;
use std::time::Instant;
use crate::span::Span;

verus! {

/// A point on the monotonic clock. Verus sees nothing inside it.
#[verifier::external_type_specification]
#[verifier::external_body]
pub struct ExInstant(Instant);

/// `Instant::now` reads the clock. No claim is made of the reading.
pub assume_specification[ Instant::now ]() -> (instant: Instant)
;

/// `Instant::saturating_duration_since` gives the time from `earlier` to
/// `later`, and no time where `earlier` is the later of the two. No claim
/// is made of the length.
pub assume_specification[ Instant::saturating_duration_since ](
    later: &Instant,
    earlier: Instant,
) -> (elapsed: Duration)
;

/// `Duration::as_secs` gives the whole seconds of a duration. No claim is
/// made of the number.
pub assume_specification[ Duration::as_secs ](duration: &Duration) -> (secs: u64)
;

/// `Duration::subsec_nanos` gives the nanoseconds of a duration beyond its
/// whole seconds. No claim is made of the number.
pub assume_specification[ Duration::subsec_nanos ](duration: &Duration) -> (nanos: u32)
;

/// The time gone by since `origin`, whatever the clock says it is.
pub(crate) fn since(origin: Instant) -> (elapsed: Span) {
    let now: Instant = Instant::now();
    let elapsed: Duration = now.saturating_duration_since(origin);
    Span::new(elapsed.as_secs(), elapsed.subsec_nanos())
}

} // verus!
