//! The wall clock, read in whole seconds.

use vstd::prelude::*;

verus! {

/// Reads the system clock with `std::time::SystemTime::now` and turns the
/// reading into seconds since the unix epoch with chrono's
/// `DateTime::<Utc>::from` and `timestamp`, which give a negative number for
/// a clock that reads before 1970. Nothing is claimed of the value: every
/// caller has to be right whatever the clock says.
#[verifier::external_body]
fn utc_timestamp() -> i64 {
    chrono::DateTime::<chrono::Utc>::from(std::time::SystemTime::now()).timestamp()
}

/// Two to the power 64, the number of values an unsigned timestamp can take.
pub open spec fn timestamp_range() -> int {
    0x1_0000_0000_0000_0000
}

/// A signed timestamp read as an unsigned one: unchanged from the epoch on,
/// and wrapped round to the far future before it, so that a clock set before
/// 1970 makes every entitlement look expired rather than fresh.
pub open spec fn unsigned_seconds(timestamp: i64) -> int {
    if timestamp >= 0 {
        timestamp as int
    } else {
        timestamp + timestamp_range()
    }
}

/// Turns a signed timestamp into unsigned seconds.
pub fn seconds_since_epoch(timestamp: i64) -> (seconds: u64)
    ensures
        seconds == unsigned_seconds(timestamp),
{
    if timestamp >= 0 {
        timestamp as u64
    } else {
        let below: u64 = (-(timestamp + 1)) as u64;
        u64::MAX - below
    }
}

/// The current time in unsigned unix seconds: what [`seconds_since_epoch`]
/// makes of the system clock. Nothing is promised of the value, since
/// nothing is known of the clock.
pub fn now() -> u64 {
    let timestamp = utc_timestamp();
    seconds_since_epoch(timestamp)
}

} // verus!
