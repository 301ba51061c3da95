//! The wall clock.
use crate::identifiers::MillisSinceEpoch;
use std::time::{Duration, UNIX_EPOCH};
use vstd::prelude::*;

verus! {

/// Asks the system clock, with `SystemTime::elapsed`, how much time has
/// passed since the Unix epoch; `None` if the clock stands before the
/// epoch. Nothing is promised of the value: two readings may differ.
#[verifier::external_body]
pub(crate) fn elapsed_since_epoch() -> Option<Duration> {
    UNIX_EPOCH.elapsed().ok()
}

/// `Duration::as_millis` gives the whole milliseconds of a duration.
/// Nothing is stated of the number.
pub assume_specification[ Duration::as_millis ](duration: &Duration) -> u128;

/// The time that the wall clock shows, in milliseconds since the Unix
/// epoch: 0 if the clock stands before the epoch, and the largest value if
/// the time does not fit.
pub fn now_millis() -> MillisSinceEpoch {
    let elapsed = match elapsed_since_epoch() {
        Some(elapsed) => Some(elapsed.as_millis()),
        None => None,
    };
    millis_since_epoch(elapsed)
}

/// The point in time that lies `elapsed` milliseconds after the Unix epoch:
/// the epoch itself where there is no reading, and the latest point that
/// can be told where the reading is too large.
pub open spec fn point_in_time(elapsed: Option<u128>) -> MillisSinceEpoch {
    match elapsed {
        Some(millis) => if millis <= u64::MAX {
            millis as MillisSinceEpoch
        } else {
            u64::MAX
        },
        None => 0,
    }
}

/// Turns a reading of the clock, in milliseconds since the Unix epoch, into
/// a point in time.
pub fn millis_since_epoch(elapsed: Option<u128>) -> (r: MillisSinceEpoch)
    ensures
        r == point_in_time(elapsed),
{
    match elapsed {
        Some(millis) => {
            if millis <= 0xFFFF_FFFF_FFFF_FFFF {
                millis as MillisSinceEpoch
            } else {
                MillisSinceEpoch::MAX
            }
        },
        None => 0,
    }
}

} // verus!
