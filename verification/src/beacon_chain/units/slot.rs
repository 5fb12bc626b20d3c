//! Beacon chain slots: twelve second periods counted from genesis.

use std::ops::{Add, Mul, Rem, Sub};
use std::str::FromStr;

use vstd::arithmetic::div_mod::lemma_fundamental_div_mod;
use vstd::arithmetic::div_mod::lemma_fundamental_div_mod_converse;
use vstd::arithmetic::div_mod::lemma_small_mod;
use vstd::prelude::*;
use vstd::std_specs::convert::FromSpec;
use vstd::std_specs::ops::{AddSpec, SubSpec};

use crate::beacon_chain::GENESIS_UNIX_TIMESTAMP;
use crate::decimal::{decimal_text, i32_to_decimal, law_decimal_text_parses_as_i32, parse_i32, parsed_i32};
use crate::time::{
    day_of_month, in_utc_range, minute_of_hour, start_of_day, utc_day_of_month, utc_minute,
    UtcDateTime,
};

verus! {

/// Seconds since the UNIX epoch at which `slot` starts.
pub open spec fn slot_timestamp(slot: int) -> int {
    GENESIS_UNIX_TIMESTAMP + 12 * slot
}

/// Remainder that takes the sign of the dividend and is smaller than the
/// divisor in magnitude, as Rust's `%` computes it.
pub open spec fn rem_toward_zero(a: int, b: int) -> int {
    let m = if b < 0 {
        -b
    } else {
        b
    };
    if a >= 0 {
        a % m
    } else {
        -((-a) % m)
    }
}

/// Beacon chain slots are defined as 12 second periods starting from genesis.
/// As an `i32` the count passes `i32::MAX` after about 817 years.
#[derive(Clone, Copy, Debug, Eq, Ord, PartialOrd, PartialEq, Structural)]
pub struct Slot(pub i32);

/// Every slot starts within the range of UTC date-times.
pub proof fn lemma_slot_timestamp_in_range(slot: i32)
    ensures
        in_utc_range(slot_timestamp(slot as int)),
        i64::MIN <= slot_timestamp(slot as int) <= i64::MAX,
{
}

impl Slot {
    /// The first slot of the beacon chain.
    pub fn genesis() -> (r: Slot)
        ensures
            r.0 == 0,
    {
        Slot(0)
    }

    pub const SECONDS_PER_SLOT: i32 = 12i32;

    /// The date-time at which this slot starts.
    pub fn date_time(&self) -> (r: UtcDateTime)
        ensures
            r.secs() == slot_timestamp(self.0 as int),
            r.nanos() == 0,
            r == UtcDateTime::with_parts(slot_timestamp(self.0 as int), 0),
    {
        let seconds = self.0 as i64 * 12;
        proof {
            lemma_slot_timestamp_in_range(self.0);
        }
        UtcDateTime::at_second(GENESIS_UNIX_TIMESTAMP + seconds)
    }

    /// The slot that starts exactly at `date_time`'s second, if any. The slot
    /// number is the `i32` that the count of slots since genesis wraps to.
    pub fn from_date_time(date_time: &UtcDateTime) -> (r: Option<Slot>)
        ensures
            r is Some <==> (date_time.secs() - GENESIS_UNIX_TIMESTAMP) % 12 == 0,
            r matches Some(slot) ==> slot.0 == ((date_time.secs() - GENESIS_UNIX_TIMESTAMP)
                / 12) as i32,
    {
        let seconds_since_genesis = date_time.timestamp() - GENESIS_UNIX_TIMESTAMP;
        if seconds_since_genesis % Self::SECONDS_PER_SLOT as i64 != 0 {
            None
        } else {
            let slots_since_genesis = seconds_since_genesis / Self::SECONDS_PER_SLOT as i64;
            Some(Slot(slots_since_genesis as i32))
        }
    }

    /// Returns the most recent slot before the given date_time: the slot in
    /// progress at it, wrapped to an `i32` as `from_date_time` wraps.
    pub fn from_date_time_rounded_down(date_time: &UtcDateTime) -> (r: Slot)
        ensures
            r.0 == ((date_time.secs() - GENESIS_UNIX_TIMESTAMP) / 12) as i32,
    {
        let diff_seconds = date_time.timestamp() - GENESIS_UNIX_TIMESTAMP;
        let mut slot = diff_seconds / Slot::SECONDS_PER_SLOT as i64;
        // Rust's division rounds toward zero; before genesis, step back to
        // the slot that started before `date_time`.
        if diff_seconds % (Slot::SECONDS_PER_SLOT as i64) < 0 {
            slot = slot - 1;
        }
        proof {
            let d = date_time.secs() - GENESIS_UNIX_TIMESTAMP;
            lemma_fundamental_div_mod(d, 12);
            if d < 0 {
                lemma_fundamental_div_mod(-d, 12);
                if (-d) % 12 == 0 {
                    lemma_fundamental_div_mod_converse(d, 12, -((-d) / 12), 0);
                } else {
                    lemma_fundamental_div_mod_converse(
                        d,
                        12,
                        -((-d) / 12) - 1,
                        12 - (-d) % 12,
                    );
                }
            }
        }
        Slot(slot as i32)
    }
}

/// The UTC day changes between the start of `slot - 1` and the start of `slot`
/// exactly when `slot` is 3599 more than a multiple of 7200.
proof fn lemma_day_boundary(slot: int)
    ensures
        (slot - 3599) % 7200 == 0 ==> start_of_day(slot_timestamp(slot)) == start_of_day(
            slot_timestamp(slot) - 12,
        ) + 86400,
        (slot - 3599) % 7200 != 0 ==> start_of_day(slot_timestamp(slot)) == start_of_day(
            slot_timestamp(slot) - 12,
        ),
{
    let q = slot - 3599;
    lemma_fundamental_div_mod(q, 7200);
    let k = q / 7200;
    let j = q % 7200;
    let ts = slot_timestamp(slot);
    assert(ts == (18598 + k) * 86400 + (11 + 12 * j));
    lemma_fundamental_div_mod_converse(ts, 86400, 18598 + k, 11 + 12 * j);
    if j == 0 {
        lemma_fundamental_div_mod_converse(ts - 12, 86400, 18597 + k, 86399);
    } else {
        lemma_fundamental_div_mod_converse(ts - 12, 86400, 18598 + k, 12 * j - 1);
    }
}

/// chrono's minute of the hour is the count of whole minutes since the epoch,
/// modulo 60.
proof fn lemma_utc_minute(t: int)
    ensures
        utc_minute(t) == (t / 60) % 60,
{
    lemma_fundamental_div_mod(t, 60);
    let f = t / 60;
    let r = t % 60;
    lemma_fundamental_div_mod(f, 1440);
    let a = f / 1440;
    let b = f % 1440;
    lemma_fundamental_div_mod(b, 60);
    let c = b / 60;
    let e = b % 60;
    assert(t == a * 86400 + (60 * b + r));
    lemma_fundamental_div_mod_converse(t, 86400, a, 60 * b + r);
    lemma_fundamental_div_mod_converse(60 * b + r, 60, b, r);
    assert(f == (24 * a + c) * 60 + e);
    lemma_fundamental_div_mod_converse(f, 60, 24 * a + c, e);
}

/// The minute of the hour changes between the start of `slot - 1` and the
/// start of `slot` exactly when `slot` is 4 more than a multiple of 5.
proof fn lemma_minute_boundary(slot: int)
    ensures
        (utc_minute(slot_timestamp(slot)) != utc_minute(slot_timestamp(slot) - 12)) == (slot % 5
            == 4),
{
    lemma_fundamental_div_mod(slot, 5);
    let m = slot / 5;
    let j = slot % 5;
    let ts = slot_timestamp(slot);
    let big_m = 26780400 + m;
    assert(ts == big_m * 60 + 23 + 12 * j);
    lemma_utc_minute(ts);
    lemma_utc_minute(ts - 12);
    if j == 4 {
        lemma_fundamental_div_mod_converse(ts, 60, big_m + 1, 11);
        lemma_fundamental_div_mod_converse(ts - 12, 60, big_m, 59);
        lemma_fundamental_div_mod(big_m, 60);
        lemma_fundamental_div_mod(big_m + 1, 60);
        if (big_m % 60) == 59 {
            lemma_fundamental_div_mod_converse(big_m + 1, 60, big_m / 60 + 1, 0);
        } else {
            lemma_fundamental_div_mod_converse(big_m + 1, 60, big_m / 60, big_m % 60 + 1);
        }
    } else {
        lemma_fundamental_div_mod_converse(ts, 60, big_m, 23 + 12 * j);
        lemma_fundamental_div_mod_converse(ts - 12, 60, big_m, 11 + 12 * j);
    }
}

impl Slot {
    /// Whether this slot is the first of its UTC day: genesis, or a slot whose
    /// day of the month differs from the previous slot's. Slots that start a day
    /// come every 7200 slots from slot 3599 on.
    pub fn is_first_of_day(&self) -> (r: bool)
        requires
            self.0 > i32::MIN,
        ensures
            r == (self.0 == 0 || utc_day_of_month(slot_timestamp(self.0 - 1)) != utc_day_of_month(
                slot_timestamp(self.0 as int),
            )),
            r == (self.0 == 0 || (self.0 - 3599) % 7200 == 0),
    {
        if self.0 == 0 {
            return true;
        };
        proof {
            lemma_slot_timestamp_in_range((self.0 - 1) as i32);
            lemma_slot_timestamp_in_range(self.0);
            lemma_day_boundary(self.0 as int);
        }
        let day_previous_slot = day_of_month(Slot(self.0 - 1).date_time().timestamp());
        let day = day_of_month(Slot(self.0).date_time().timestamp());

        day_previous_slot != day
    }

    /// Whether this slot is the first of its minute: genesis, or a slot whose
    /// minute of the hour differs from the previous slot's. Slots that start a
    /// minute are those 4 more than a multiple of 5.
    pub fn is_first_of_minute(&self) -> (r: bool)
        requires
            self.0 > i32::MIN,
        ensures
            r == (self.0 == 0 || utc_minute(slot_timestamp(self.0 - 1)) != utc_minute(
                slot_timestamp(self.0 as int),
            )),
            r == (self.0 == 0 || self.0 % 5 == 4),
    {
        if self.0 == 0 {
            return true;
        };
        proof {
            lemma_slot_timestamp_in_range((self.0 - 1) as i32);
            lemma_slot_timestamp_in_range(self.0);
            lemma_minute_boundary(self.0 as int);
        }
        let minute_previous_slot = minute_of_hour(Slot(self.0 - 1).date_time().timestamp());
        let minute = minute_of_hour(Slot(self.0).date_time().timestamp());

        minute_previous_slot != minute
    }
}


impl Add<i32> for Slot {
    type Output = Slot;

    fn add(self, rhs: i32) -> Slot {
        Slot(self.0 + rhs)
    }
}

impl vstd::std_specs::ops::AddSpecImpl<i32> for Slot {
    open spec fn obeys_add_spec() -> bool {
        true
    }

    open spec fn add_req(self, rhs: i32) -> bool {
        i32::MIN <= self.0 + rhs <= i32::MAX
    }

    open spec fn add_spec(self, rhs: i32) -> Slot {
        Slot((self.0 + rhs) as i32)
    }
}

impl Sub<i32> for Slot {
    type Output = Slot;

    fn sub(self, rhs: i32) -> Slot {
        Slot(self.0 - rhs)
    }
}

impl vstd::std_specs::ops::SubSpecImpl<i32> for Slot {
    open spec fn obeys_sub_spec() -> bool {
        true
    }

    open spec fn sub_req(self, rhs: i32) -> bool {
        i32::MIN <= self.0 - rhs <= i32::MAX
    }

    open spec fn sub_spec(self, rhs: i32) -> Slot {
        Slot((self.0 - rhs) as i32)
    }
}

impl Mul<i32> for Slot {
    type Output = Slot;

    fn mul(self, rhs: i32) -> Slot {
        Slot(self.0 * rhs)
    }
}

impl vstd::std_specs::ops::MulSpecImpl<i32> for Slot {
    open spec fn obeys_mul_spec() -> bool {
        true
    }

    open spec fn mul_req(self, rhs: i32) -> bool {
        i32::MIN <= self.0 * rhs <= i32::MAX
    }

    open spec fn mul_spec(self, rhs: i32) -> Slot {
        Slot((self.0 * rhs) as i32)
    }
}

impl Rem<i32> for Slot {
    type Output = Slot;

    fn rem(self, rhs: i32) -> Slot {
        // Rust's remainder takes its magnitude from the divisor's magnitude
        // alone, so a negative divisor gives what its negation gives.
        let r = if rhs > 0 {
            self.0 % rhs
        } else if rhs == i32::MIN {
            proof {
                if self.0 >= 0 {
                    lemma_small_mod(self.0 as nat, 0x8000_0000nat);
                } else if self.0 > i32::MIN {
                    lemma_small_mod((-self.0) as nat, 0x8000_0000nat);
                }
            }
            if self.0 == i32::MIN {
                0
            } else {
                self.0
            }
        } else {
            self.0 % (-rhs)
        };
        Slot(r)
    }
}

impl vstd::std_specs::ops::RemSpecImpl<i32> for Slot {
    open spec fn obeys_rem_spec() -> bool {
        true
    }

    open spec fn rem_req(self, rhs: i32) -> bool {
        rhs != 0 && !(self.0 == i32::MIN && rhs == -1)
    }

    open spec fn rem_spec(self, rhs: i32) -> Slot {
        Slot(rem_toward_zero(self.0 as int, rhs as int) as i32)
    }
}

impl From<Slot> for UtcDateTime {
    fn from(slot: Slot) -> (r: UtcDateTime)
        ensures
            r.secs() == GENESIS_UNIX_TIMESTAMP + 12 * slot.0,
            r.nanos() == 0,
    {
        slot.date_time()
    }
}

impl vstd::std_specs::convert::FromSpecImpl<Slot> for UtcDateTime {
    open spec fn obeys_from_spec() -> bool {
        true
    }

    open spec fn from_spec(slot: Slot) -> UtcDateTime {
        UtcDateTime::with_parts(slot_timestamp(slot.0 as int), 0)
    }
}

impl From<&Slot> for UtcDateTime {
    fn from(slot: &Slot) -> (r: UtcDateTime)
        ensures
            r.secs() == GENESIS_UNIX_TIMESTAMP + 12 * slot.0,
            r.nanos() == 0,
    {
        slot.date_time()
    }
}

impl vstd::std_specs::convert::FromSpecImpl<&Slot> for UtcDateTime {
    open spec fn obeys_from_spec() -> bool {
        true
    }

    open spec fn from_spec(slot: &Slot) -> UtcDateTime {
        UtcDateTime::with_parts(slot_timestamp(slot.0 as int), 0)
    }
}

impl From<&Slot> for i32 {
    fn from(slot: &Slot) -> i32 {
        slot.0
    }
}

impl vstd::std_specs::convert::FromSpecImpl<&Slot> for i32 {
    open spec fn obeys_from_spec() -> bool {
        true
    }

    open spec fn from_spec(slot: &Slot) -> i32 {
        slot.0
    }
}

impl From<i32> for Slot {
    fn from(slot: i32) -> Slot {
        Slot(slot)
    }
}

impl vstd::std_specs::convert::FromSpecImpl<i32> for Slot {
    open spec fn obeys_from_spec() -> bool {
        true
    }

    open spec fn from_spec(slot: i32) -> Slot {
        Slot(slot)
    }
}

impl From<Slot> for i64 {
    fn from(slot: Slot) -> i64 {
        slot.0 as i64
    }
}

impl vstd::std_specs::convert::FromSpecImpl<Slot> for i64 {
    open spec fn obeys_from_spec() -> bool {
        true
    }

    open spec fn from_spec(slot: Slot) -> i64 {
        slot.0 as i64
    }
}

/// A negative slot wraps around, as `as u64` does.
impl From<Slot> for u64 {
    fn from(slot: Slot) -> u64 {
        slot.0 as u64
    }
}

impl vstd::std_specs::convert::FromSpecImpl<Slot> for u64 {
    open spec fn obeys_from_spec() -> bool {
        true
    }

    open spec fn from_spec(slot: Slot) -> u64 {
        slot.0 as u64
    }
}

impl From<&i32> for Slot {
    fn from(slot: &i32) -> Slot {
        Slot(*slot)
    }
}

impl vstd::std_specs::convert::FromSpecImpl<&i32> for Slot {
    open spec fn obeys_from_spec() -> bool {
        true
    }

    open spec fn from_spec(slot: &i32) -> Slot {
        Slot(*slot)
    }
}

/// Text that is not a decimal `i32` (an optional sign followed by digits, in
/// range).
#[derive(Clone, Copy, Debug, PartialEq, Eq, Structural)]
pub struct ParseSlotError;

impl Slot {
    /// Reads a slot number written in decimal.
    pub fn parse(s: &str) -> (r: Result<Slot, ParseSlotError>)
        ensures
            match parsed_i32(s@) {
                Some(n) => r == Ok::<Slot, ParseSlotError>(Slot(n)),
                None => r == Err::<Slot, ParseSlotError>(ParseSlotError),
            },
    {
        match parse_i32(s) {
            Some(n) => Ok(Slot(n)),
            None => Err(ParseSlotError),
        }
    }
}

impl FromStr for Slot {
    type Err = ParseSlotError;

    fn from_str(s: &str) -> (r: Result<Slot, ParseSlotError>)
        ensures
            match parsed_i32(s@) {
                Some(n) => r == Ok::<Slot, ParseSlotError>(Slot(n)),
                None => r == Err::<Slot, ParseSlotError>(ParseSlotError),
            },
    {
        Slot::parse(s)
    }
}

/// The first slot of a UTC day that holds a block.
#[derive(Debug)]
pub struct FirstOfDaySlotWithBlock(pub Slot);


/// Going from a slot to the date-time at which it starts and back, exactly or
/// rounding down (both count slots since genesis as `((secs - genesis) / 12)`),
/// gives the slot again.
pub proof fn law_date_time_round_trip(slot: Slot)
    ensures
        (slot_timestamp(slot.0 as int) - GENESIS_UNIX_TIMESTAMP) % 12 == 0,
        ((slot_timestamp(slot.0 as int) - GENESIS_UNIX_TIMESTAMP) / 12) as i32 == slot.0,
{
    lemma_fundamental_div_mod_converse(12 * slot.0, 12, slot.0 as int, 0);
}

/// Converting a slot, or a reference to one, into a date-time gives the
/// whole second twelve seconds per slot after genesis: the same date-time as
/// `date_time`.
pub proof fn law_from_slot_is_slot_start(slot: Slot)
    ensures
        <UtcDateTime as FromSpec<Slot>>::from_spec(slot).secs() == GENESIS_UNIX_TIMESTAMP + 12
            * slot.0,
        <UtcDateTime as FromSpec<Slot>>::from_spec(slot).nanos() == 0,
        <UtcDateTime as FromSpec<&Slot>>::from_spec(&slot).secs() == GENESIS_UNIX_TIMESTAMP
            + 12 * slot.0,
        <UtcDateTime as FromSpec<&Slot>>::from_spec(&slot).nanos() == 0,
{
    lemma_slot_timestamp_in_range(slot.0);
    UtcDateTime::lemma_with_parts(slot_timestamp(slot.0 as int), 0);
}

/// A date-time that `from_date_time` accepts is the start of the slot it
/// gives, as long as the count of slots since genesis fits in an `i32`.
pub proof fn law_from_date_time_gives_start(date_time: UtcDateTime)
    requires
        (date_time.secs() - GENESIS_UNIX_TIMESTAMP) % 12 == 0,
        i32::MIN <= (date_time.secs() - GENESIS_UNIX_TIMESTAMP) / 12 <= i32::MAX,
    ensures
        slot_timestamp(((date_time.secs() - GENESIS_UNIX_TIMESTAMP) / 12) as i32 as int)
            == date_time.secs(),
{
    lemma_fundamental_div_mod(date_time.secs() - GENESIS_UNIX_TIMESTAMP, 12);
}

/// The slot found by rounding down is the one in progress at `date_time`: it
/// starts at or before `date_time` and the next one starts after it, as long
/// as the count of slots fits in an `i32`.
pub proof fn law_rounded_down_slot_holds_date_time(date_time: UtcDateTime)
    requires
        i32::MIN <= (date_time.secs() - GENESIS_UNIX_TIMESTAMP) / 12 <= i32::MAX,
    ensures
        ({
            let slot = ((date_time.secs() - GENESIS_UNIX_TIMESTAMP) / 12) as i32;
            &&& slot_timestamp(slot as int) <= date_time.secs()
            &&& date_time.secs() < slot_timestamp(slot as int) + 12
        }),
{
    lemma_fundamental_div_mod(date_time.secs() - GENESIS_UNIX_TIMESTAMP, 12);
}


/// Moving a slot forward by some slots and back again gives the slot back.
pub proof fn law_add_then_sub(slot: Slot, n: i32)
    requires
        slot.add_req(n),
    ensures
        slot.add_spec(n).sub_req(n),
        slot.add_spec(n).sub_spec(n) == slot,
{
}


impl Slot {
    /// The slot number written in decimal, as its `Display` writes it.
    pub fn to_string(&self) -> (r: String)
        ensures
            r@ == decimal_text(self.0 as int),
    {
        i32_to_decimal(self.0)
    }
}

/// A slot's text reads back as the slot.
pub proof fn law_text_round_trip(slot: Slot)
    ensures
        parsed_i32(decimal_text(slot.0 as int)) == Some(slot.0),
{
    law_decimal_text_parses_as_i32(slot.0);
}

} // verus!
