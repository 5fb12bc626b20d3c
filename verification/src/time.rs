//! UTC date-times as the library reads them: whole seconds since the UNIX epoch
//! plus the nanoseconds within the second, and the calendar fields that chrono
//! computes from them.

use chrono::{DateTime, Datelike, Timelike};
use vstd::prelude::*;

verus! {

/// Earliest UNIX timestamp that chrono can represent (start of its first day).
pub const MIN_UTC_TIMESTAMP: i64 = -8_334_601_228_800i64;

/// Latest UNIX timestamp that chrono can represent (December 31, 262142 CE, 23:59:59).
pub const MAX_UTC_TIMESTAMP: i64 = 8_210_266_876_799i64;

pub const NANOS_PER_SECOND: u32 = 1_000_000_000u32;

pub const SECONDS_PER_DAY: i64 = 86_400i64;

/// A timestamp chrono can turn into a date.
pub open spec fn in_utc_range(timestamp: int) -> bool {
    MIN_UTC_TIMESTAMP <= timestamp <= MAX_UTC_TIMESTAMP
}

/// Start of the UTC day that holds `timestamp`.
pub open spec fn start_of_day(timestamp: int) -> int {
    timestamp - timestamp % (SECONDS_PER_DAY as int)
}

/// A point in UTC time: seconds since the epoch and the nanoseconds that follow
/// within that second. Leap seconds are not represented.
#[derive(Clone, Copy, Debug, PartialEq, Eq, Structural)]
pub struct UtcDateTime {
    timestamp: i64,
    subsec_nanos: u32,
}

impl UtcDateTime {
    #[verifier::type_invariant]
    spec fn well_formed(self) -> bool {
        &&& in_utc_range(self.timestamp as int)
        &&& self.subsec_nanos < NANOS_PER_SECOND
    }

    /// Whole seconds since the UNIX epoch, rounded down.
    pub closed spec fn secs(self) -> int {
        self.timestamp as int
    }

    /// Nanoseconds past `secs`.
    pub closed spec fn nanos(self) -> int {
        self.subsec_nanos as int
    }

    /// The date-time with the given parts; meaningful when they are in range.
    pub closed spec fn with_parts(secs: int, nanos: int) -> UtcDateTime {
        UtcDateTime { timestamp: secs as i64, subsec_nanos: nanos as u32 }
    }

    pub proof fn lemma_with_parts(secs: int, nanos: int)
        requires
            in_utc_range(secs),
            0 <= nanos < NANOS_PER_SECOND,
        ensures
            Self::with_parts(secs, nanos).secs() == secs,
            Self::with_parts(secs, nanos).nanos() == nanos,
    {
    }

    /// The date-time `timestamp` seconds and `subsec_nanos` nanoseconds after
    /// the epoch; `None` outside chrono's range or with a second or more of
    /// nanoseconds.
    pub fn from_timestamp(timestamp: i64, subsec_nanos: u32) -> (r: Option<UtcDateTime>)
        ensures
            r is Some <==> (in_utc_range(timestamp as int) && subsec_nanos < NANOS_PER_SECOND),
            r matches Some(d) ==> d.secs() == timestamp && d.nanos() == subsec_nanos,
    {
        if MIN_UTC_TIMESTAMP <= timestamp && timestamp <= MAX_UTC_TIMESTAMP
            && subsec_nanos < NANOS_PER_SECOND {
            Some(UtcDateTime { timestamp, subsec_nanos })
        } else {
            None
        }
    }

    /// The date-time at a whole second.
    pub(crate) fn at_second(timestamp: i64) -> (r: UtcDateTime)
        requires
            in_utc_range(timestamp as int),
        ensures
            r.secs() == timestamp,
            r.nanos() == 0,
            r == Self::with_parts(timestamp as int, 0),
    {
        UtcDateTime { timestamp, subsec_nanos: 0 }
    }

    /// Seconds since the epoch, rounded down.
    pub fn timestamp(&self) -> (r: i64)
        ensures
            r == self.secs(),
            in_utc_range(r as int),
    {
        proof {
            use_type_invariant(self);
        }
        self.timestamp
    }

    /// Nanoseconds past the whole second.
    pub fn timestamp_subsec_nanos(&self) -> (r: u32)
        ensures
            r == self.nanos(),
            r < NANOS_PER_SECOND,
    {
        proof {
            use_type_invariant(self);
        }
        self.subsec_nanos
    }
}

/// Day of the month, counted from 1, of the UTC date that holds `timestamp`,
/// as chrono computes it.
pub uninterp spec fn utc_day_of_month(timestamp: int) -> int;

/// Calls chrono's `DateTime::from_timestamp(timestamp, 0)`, which is `Some` on
/// chrono's range, and then `Datelike::day`. Claimed: the result is the day of
/// the month, between 1 and 31 as chrono documents; it depends only on the day
/// number `timestamp.div_euclid(86_400)` from which chrono builds the date; and
/// the next calendar day has another day of the month (the month either goes
/// on by one day or starts again at 1 after at least 28 days).
#[verifier::external_body]
pub(crate) fn day_of_month(timestamp: i64) -> (r: u32)
    requires
        in_utc_range(timestamp as int),
    ensures
        1 <= r <= 31,
        r == utc_day_of_month(timestamp as int),
        r == utc_day_of_month(start_of_day(timestamp as int)),
        in_utc_range(start_of_day(timestamp as int) + SECONDS_PER_DAY) ==> r
            != utc_day_of_month(start_of_day(timestamp as int) + SECONDS_PER_DAY),
{
    DateTime::from_timestamp(timestamp, 0).unwrap().day()
}

/// Minute within the hour of the UTC time at `timestamp`: chrono splits the
/// timestamp into `rem_euclid(86_400)` seconds of the day and takes
/// `secs / 60 % 60`.
pub open spec fn utc_minute(timestamp: int) -> int {
    (timestamp % (SECONDS_PER_DAY as int)) / 60 % 60
}

/// Calls chrono's `DateTime::from_timestamp(timestamp, 0)`, which is `Some` on
/// chrono's range, and then `Timelike::minute`. Claimed: the result is
/// `timestamp.rem_euclid(86_400) / 60 % 60`, as chrono's source computes it.
#[verifier::external_body]
pub(crate) fn minute_of_hour(timestamp: i64) -> (r: u32)
    requires
        in_utc_range(timestamp as int),
    ensures
        r == utc_minute(timestamp as int),
{
    DateTime::from_timestamp(timestamp, 0).unwrap().minute()
}

} // verus!
