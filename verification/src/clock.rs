use crate::models::poll::Timestamp;
use chrono::Utc;
use vstd::prelude::*;

verus! {

/// Calls `Utc::now`, which reads the system clock as the time elapsed since the Unix
/// epoch: the seconds are not negative and the nanoseconds stay below one second.
#[verifier::external_body]
pub(crate) fn now() -> (at: Timestamp)
    ensures
        at.from_clock(),
{
    let now = Utc::now();
    Timestamp { seconds: now.timestamp(), nanoseconds: now.timestamp_subsec_nanos() }
}

} // verus!
