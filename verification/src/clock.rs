//! The clocks and time spans of the standard library.

use std::time::{Duration, Instant, SystemTime, SystemTimeError};
use vstd::prelude::*;

verus! {

/// Nanoseconds in a second.
pub const NANOS_PER_SEC: u64 = 1_000_000_000;

/// A reading of the wall clock.
#[verifier::external_type_specification]
#[verifier::external_body]
pub struct ExSystemTime(SystemTime);

/// What is reported of two wall clock readings that are the wrong way round.
#[verifier::external_type_specification]
#[verifier::external_body]
pub struct ExSystemTimeError(SystemTimeError);

/// A reading of the monotonic clock.
#[verifier::external_type_specification]
#[verifier::external_body]
pub struct ExInstant(Instant);

/// The length of a time span, in nanoseconds.
pub uninterp spec fn duration_nanos(d: Duration) -> nat;

/// Where a wall clock reading lies, in nanoseconds after the Unix epoch (negative before it).
pub uninterp spec fn unix_nanos(t: SystemTime) -> int;

/// The span from one reading of the monotonic clock to another, in nanoseconds; zero where the
/// second is the earlier one.
pub uninterp spec fn span_nanos(from: Instant, to: Instant) -> nat;

/// `SystemTime::now` reads the wall clock: nothing is promised of the reading.
pub assume_specification[ SystemTime::now ]() -> SystemTime;

/// `Instant::now` reads the monotonic clock: nothing is promised of the reading.
pub assume_specification[ Instant::now ]() -> Instant;

/// `Instant::saturating_duration_since` gives the span from an earlier reading to this one, and
/// none where the other reading is the later one.
pub assume_specification[ Instant::saturating_duration_since ](
    this: &Instant,
    earlier: Instant,
) -> (r: Duration)
    ensures
        duration_nanos(r) == span_nanos(earlier, *this),
;

/// `Duration::from_secs` makes a span of that many whole seconds.
pub assume_specification[ Duration::from_secs ](secs: u64) -> (r: Duration)
    ensures
        duration_nanos(r) == secs * NANOS_PER_SEC,
;

/// `Duration::as_secs` gives the whole seconds of a span, without its fraction.
pub assume_specification[ Duration::as_secs ](this: &Duration) -> (r: u64)
    ensures
        r == duration_nanos(*this) as int / NANOS_PER_SEC as int,
;

/// `Duration::as_nanos` gives the whole length of a span.
pub assume_specification[ Duration::as_nanos ](this: &Duration) -> (r: u128)
    ensures
        r == duration_nanos(*this),
;

/// `SystemTime::duration_since`, from the Unix epoch: the span up to `t`, or an error exactly
/// when `t` lies before the epoch.
#[verifier::external_body]
pub(crate) fn since_epoch(t: SystemTime) -> (r: Result<Duration, SystemTimeError>)
    ensures
        r is Ok <==> unix_nanos(t) >= 0,
        r matches Ok(d) ==> duration_nanos(d) == unix_nanos(t),
{
    t.duration_since(std::time::UNIX_EPOCH)
}

} // verus!
