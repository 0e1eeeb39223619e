//! Durations of `std`, as the option builders read them. The item here is
//! trusted: its contract restates what the documentation of the called
//! function shows.
use core::time::Duration;
use vstd::prelude::*;

verus! {

/// The number of whole seconds that a duration holds.
pub uninterp spec fn duration_secs(d: Duration) -> u64;

/// `Duration::as_secs`: the number of whole seconds of `d`, which the
/// documentation defines as the duration's whole seconds; the contract only
/// names that number.
#[verifier::external_body]
pub fn duration_as_secs(d: Duration) -> (r: u64)
    ensures
        r == duration_secs(d),
{
    d.as_secs()
}

/// `Duration::from_secs`: a duration of `secs` whole seconds. The
/// documentation of `as_secs` gives back those seconds.
#[verifier::external_body]
pub fn duration_from_secs(secs: u64) -> (r: Duration)
    ensures
        duration_secs(r) == secs,
{
    Duration::from_secs(secs)
}

} // verus!
