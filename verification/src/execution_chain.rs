//! Milestones of the execution chain.

use vstd::prelude::*;

use crate::time::UtcDateTime;

verus! {

/// The London hard fork, which introduced the base fee burn, in seconds since
/// the UNIX epoch.
pub const LONDON_HARD_FORK_UNIX_TIMESTAMP: i64 = 1_628_166_822i64;

/// The Bellatrix hard fork, 2022-09-15T06:42:42Z, in seconds since the UNIX
/// epoch.
pub const BELLATRIX_HARD_FORK_UNIX_TIMESTAMP: i64 = 1_663_224_162i64;

#[allow(dead_code)]
pub const TOTAL_TERMINAL_DIFFICULTY: u128 = 58_750_000_000_000_000_000_000u128;

/// The London hard fork as a date-time.
pub fn london_hard_fork_timestamp() -> (r: UtcDateTime)
    ensures
        r.secs() == LONDON_HARD_FORK_UNIX_TIMESTAMP,
        r.nanos() == 0,
{
    UtcDateTime::at_second(LONDON_HARD_FORK_UNIX_TIMESTAMP)
}

/// The Bellatrix hard fork as a date-time.
pub fn bellatrix_hard_fork_timestamp() -> (r: UtcDateTime)
    ensures
        r.secs() == BELLATRIX_HARD_FORK_UNIX_TIMESTAMP,
        r.nanos() == 0,
{
    UtcDateTime::at_second(BELLATRIX_HARD_FORK_UNIX_TIMESTAMP)
}

} // verus!
