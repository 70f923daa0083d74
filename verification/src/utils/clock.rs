use vstd::prelude::*;

verus! {

/// Time that has passed at `now` since `since`, both in milliseconds on one
/// monotonic clock. A reading that lies before `since` counts as no time.
pub open spec fn elapsed(now: u64, since: u64) -> int {
    if now >= since {
        now - since
    } else {
        0
    }
}

/// `std::time::Instant`: a reading of the monotonic clock, opaque here.
#[verifier::external_type_specification]
#[verifier::external_body]
pub struct ExInstant(std::time::Instant);

/// Calls `Instant::now`. The reading depends on the moment of the call, so
/// nothing is claimed of it.
#[verifier::external_body]
pub(crate) fn instant_now() -> std::time::Instant {
    std::time::Instant::now()
}

/// Calls `Instant::elapsed` and gives the whole milliseconds of the answer.
/// The answer depends on the moment of the call, so nothing is claimed of it.
#[verifier::external_body]
pub(crate) fn millis_since(origin: &std::time::Instant) -> u64 {
    origin.elapsed().as_millis() as u64
}

/// Reads the system clock with `SystemTime::now` and gives the milliseconds
/// since the Unix epoch, by the conversion of `chrono` into a `DateTime<Utc>`
/// and its `timestamp_millis`; a clock that stands before the epoch reads as
/// a negative number. The reading depends on the moment of the call, so
/// nothing is claimed of it.
#[verifier::external_body]
pub(crate) fn utc_now_millis() -> i64 {
    chrono::DateTime::<chrono::Utc>::from(std::time::SystemTime::now()).timestamp_millis()
}

} // verus!
