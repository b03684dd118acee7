use vstd::prelude::*;

verus! {

#[verifier::external_type_specification]
#[verifier::external_body]
pub struct ExInstant(std::time::Instant);

/// The length of a `Duration` in nanoseconds.
pub uninterp spec fn duration_nanos(d: core::time::Duration) -> nat;

/// Wraps `Duration::from_secs`: the duration of `secs` whole seconds.
#[verifier::external_body]
pub(crate) fn duration_from_secs(secs: u64) -> (d: core::time::Duration)
    ensures
        duration_nanos(d) == secs * 1_000_000_000,
{
    core::time::Duration::from_secs(secs)
}

/// Wraps `Duration::as_nanos`: the whole length of the duration in nanoseconds.
#[verifier::external_body]
pub(crate) fn duration_as_nanos(d: &core::time::Duration) -> (n: u128)
    ensures
        n == duration_nanos(*d),
{
    d.as_nanos()
}

/// Wraps `Instant::now`. The reading depends on the machine's clock, so
/// nothing is stated of it.
#[verifier::external_body]
pub(crate) fn instant_now() -> std::time::Instant {
    std::time::Instant::now()
}

/// Wraps `Instant::elapsed`: the time since `origin` was taken. It depends
/// on the clock, so nothing is stated of it.
#[verifier::external_body]
pub(crate) fn instant_elapsed(origin: &std::time::Instant) -> core::time::Duration {
    origin.elapsed()
}

/// The nanoseconds since `origin` was taken, as the clock reads them.
pub fn nanos_since(origin: &std::time::Instant) -> u128 {
    let d = instant_elapsed(origin);
    duration_as_nanos(&d)
}

} // verus!
