//! Nanosecond view of [`Duration`], the only time representation the
//! verified logic reasons about.
use std::time::Duration;
use vstd::prelude::*;

verus! {

/// The length of a [`Duration`] in whole nanoseconds, as `Duration::as_nanos` returns it.
pub uninterp spec fn duration_nanos(d: Duration) -> u128;

/// `Duration::as_nanos`: the std documentation defines it as the total number
/// of whole nanoseconds contained by the duration.
pub assume_specification[ Duration::as_nanos ](d: &Duration) -> (n: u128)
    ensures
        n == duration_nanos(*d),
;

/// `Duration::from_secs`: a duration of `secs` whole seconds.
pub assume_specification[ Duration::from_secs ](secs: u64) -> (d: Duration)
    ensures
        duration_nanos(d) == secs * 1_000_000_000,
;

/// `Duration::from_millis`: a duration of `millis` milliseconds.
pub assume_specification[ Duration::from_millis ](millis: u64) -> (d: Duration)
    ensures
        duration_nanos(d) == millis * 1_000_000,
;

/// `Duration::from_micros`: a duration of `micros` microseconds.
pub assume_specification[ Duration::from_micros ](micros: u64) -> (d: Duration)
    ensures
        duration_nanos(d) == micros * 1_000,
;

/// A nanosecond count converted to `u64`, saturating at `u64::MAX`.
pub open spec fn saturate_nanos_spec(nanos: u128) -> u64 {
    if nanos <= u64::MAX {
        nanos as u64
    } else {
        u64::MAX
    }
}

/// Converts a nanosecond count to `u64`, saturating at `u64::MAX`.
pub fn saturate_nanos(nanos: u128) -> (r: u64)
    ensures
        r == saturate_nanos_spec(nanos),
{
    if nanos <= 0xffff_ffff_ffff_ffffu128 {
        nanos as u64
    } else {
        u64::MAX
    }
}

} // verus!
