//! The beacon chain: its genesis and its units of time.

pub mod units;

use crate::time::UtcDateTime;
use vstd::prelude::*;

verus! {

/// Beacon chain genesis, 2020-12-01T12:00:23Z, in seconds since the UNIX epoch.
pub const GENESIS_UNIX_TIMESTAMP: i64 = 1_606_824_023i64;

/// Beacon chain genesis as a date-time.
pub fn genesis_timestamp() -> (r: UtcDateTime)
    ensures
        r.secs() == GENESIS_UNIX_TIMESTAMP,
        r.nanos() == 0,
{
    UtcDateTime::at_second(GENESIS_UNIX_TIMESTAMP)
}

} // verus!
