use vstd::prelude::*;

verus! {

/// `std::time::Instant`, carried through the library without being read.
#[verifier::external_type_specification]
#[verifier::external_body]
pub struct ExInstant(std::time::Instant);

/// Calls `std::time::Instant::now`. The instant comes from the system's
/// monotonic clock; nothing is stated of it.
#[verifier::external_body]
pub(crate) fn instant_now() -> std::time::Instant {
    std::time::Instant::now()
}

/// Calls `std::time::Instant::elapsed` on `since` and returns the duration in
/// whole nanoseconds (`Duration::as_nanos`). The value depends on when the
/// call is made; nothing is stated of it.
#[verifier::external_body]
pub(crate) fn nanos_since(since: &std::time::Instant) -> u128 {
    since.elapsed().as_nanos()
}

} // verus!
