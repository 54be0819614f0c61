//! The delay between the graceful and the forceful signal.

use std::time::Duration;
use vstd::prelude::*;

verus! {

/// Seconds that a session grants between the two signals when nobody asked
/// for another delay.
pub const DEFAULT_GRACE_SECS: u64 = 5;

/// The duration of a whole number of seconds.
pub uninterp spec fn seconds(secs: u64) -> Duration;

/// `Duration::from_secs` builds the duration of the given number of whole
/// seconds; the contract gives that duration the name `seconds(secs)`.
pub assume_specification[ Duration::from_secs ](secs: u64) -> (d: Duration)
    ensures
        d == seconds(secs),
;

/// The delay of a session on which no termination was requested.
pub fn default_grace() -> (delay: Duration)
    ensures
        delay == seconds(DEFAULT_GRACE_SECS),
{
    Duration::from_secs(DEFAULT_GRACE_SECS)
}

} // verus!
