use chrono::{DateTime, Utc};
use eth_analysis::beacon_chain::genesis_timestamp;
use eth_analysis::beacon_chain::units::slot::{FirstOfDaySlotWithBlock, ParseSlotError, Slot};
use eth_analysis::beacon_chain::GENESIS_UNIX_TIMESTAMP;
use eth_analysis::execution_chain::london_hard_fork_timestamp;
use eth_analysis::time::UtcDateTime;

fn utc(text: &str) -> UtcDateTime {
    let date_time = text.parse::<DateTime<Utc>>().unwrap();
    UtcDateTime::from_timestamp(date_time.timestamp(), date_time.timestamp_subsec_nanos()).unwrap()
}

#[test]
fn first_of_day_genesis_test() {
    assert!(Slot(0).is_first_of_day());
}

#[test]
fn first_of_day_test() {
    assert!(Slot(3599).is_first_of_day());
}

#[test]
fn not_first_of_day_test() {
    assert!(!Slot(1).is_first_of_day());
    assert!(!Slot(3598).is_first_of_day());
    assert!(!Slot(3600).is_first_of_day());
}

#[test]
fn get_timestamp_test() {
    assert_eq!(Slot(0).date_time(), utc("2020-12-01T12:00:23Z"));
    assert_eq!(Slot(3599).date_time(), utc("2020-12-02T00:00:11Z"));
}

#[test]
fn start_of_day_test() {
    assert!(Slot(0).is_first_of_day());
    assert!(Slot(3599).is_first_of_day());
}

#[test]
fn not_start_of_day_test() {
    assert!(!Slot(1).is_first_of_day());
    assert!(!Slot(3598).is_first_of_day());
    assert!(!Slot(3600).is_first_of_day());
}

#[test]
fn first_of_minute_genesis_test() {
    assert!(Slot(0).is_first_of_minute());
}

#[test]
fn first_of_minute_test() {
    assert!(Slot(4).is_first_of_minute());
}

#[test]
fn not_first_of_minute_test() {
    assert!(!Slot(3).is_first_of_minute());
    assert!(!Slot(5).is_first_of_minute());
}

#[test]
fn merge_from_date_time() {
    println!("{:?}", Slot::from_date_time(&london_hard_fork_timestamp()));
}

#[test]
fn genesis_is_slot_zero_at_genesis_timestamp() {
    assert_eq!(Slot::genesis(), Slot(0));
    assert_eq!(Slot::genesis().date_time(), genesis_timestamp());
    assert_eq!(genesis_timestamp().timestamp(), 1_606_824_023);
    assert_eq!(GENESIS_UNIX_TIMESTAMP, utc("2020-12-01T12:00:23Z").timestamp());
    assert_eq!(Slot::SECONDS_PER_SLOT, 12);
}

#[test]
fn date_time_counts_twelve_seconds_per_slot() {
    assert_eq!(Slot(1).date_time().timestamp(), 1_606_824_035);
    assert_eq!(Slot(-1).date_time().timestamp(), 1_606_824_011);
    assert_eq!(Slot(i32::MAX).date_time().timestamp(), 1_606_824_023 + 12 * i32::MAX as i64);
    assert_eq!(Slot(i32::MIN).date_time().timestamp(), 1_606_824_023 + 12 * i32::MIN as i64);
    assert_eq!(Slot(7).date_time().timestamp_subsec_nanos(), 0);
}

#[test]
fn london_is_not_at_a_slot_start() {
    // 21342799 seconds after genesis, 7 seconds into slot 1778566.
    assert_eq!(Slot::from_date_time(&london_hard_fork_timestamp()), None);
    assert_eq!(Slot::from_date_time_rounded_down(&london_hard_fork_timestamp()), Slot(1_778_566));
}

#[test]
fn from_date_time_round_trips() {
    for n in [0, 1, 3599, -5, 1_000_000, i32::MAX, i32::MIN] {
        let slot = Slot(n);
        assert_eq!(Slot::from_date_time(&slot.date_time()), Some(slot));
        assert_eq!(Slot::from_date_time_rounded_down(&slot.date_time()), slot);
    }
}

#[test]
fn from_date_time_needs_a_slot_start() {
    assert_eq!(Slot::from_date_time(&utc("2020-12-01T12:00:24Z")), None);
    assert_eq!(Slot::from_date_time(&utc("2020-12-01T12:00:35Z")), Some(Slot(1)));
    assert_eq!(Slot::from_date_time(&utc("2020-12-01T12:00:11Z")), Some(Slot(-1)));
    // The subsecond part is ignored.
    assert_eq!(Slot::from_date_time(&utc("2020-12-01T12:00:35.5Z")), Some(Slot(1)));
}

#[test]
fn from_date_time_wraps_far_slots() {
    // 2^31 slots after genesis wraps around to i32::MIN.
    let date_time = UtcDateTime::from_timestamp(GENESIS_UNIX_TIMESTAMP + 12 * (1i64 << 31), 0).unwrap();
    assert_eq!(Slot::from_date_time(&date_time), Some(Slot(i32::MIN)));
    assert_eq!(Slot::from_date_time_rounded_down(&date_time), Slot(i32::MIN));
}

#[test]
fn rounded_down_gives_slot_in_progress() {
    assert_eq!(Slot::from_date_time_rounded_down(&utc("2020-12-01T12:00:34.999Z")), Slot(0));
    assert_eq!(Slot::from_date_time_rounded_down(&utc("2020-12-01T12:00:35Z")), Slot(1));
    assert_eq!(Slot::from_date_time_rounded_down(&utc("2020-12-02T00:00:11Z")), Slot(3599));
}

#[test]
fn rounded_down_before_genesis_gives_slot_in_progress() {
    // Half a second before genesis lies in slot -1.
    assert_eq!(Slot::from_date_time_rounded_down(&utc("2020-12-01T12:00:22.5Z")), Slot(-1));
    assert_eq!(Slot::from_date_time_rounded_down(&utc("2020-12-01T12:00:22Z")), Slot(-1));
    assert_eq!(Slot::from_date_time_rounded_down(&utc("2020-12-01T12:00:10Z")), Slot(-2));
    assert_eq!(Slot::from_date_time_rounded_down(&utc("2020-12-01T12:00:11Z")), Slot(-1));
    assert_eq!(Slot::from_date_time_rounded_down(&utc("2020-12-01T12:00:12Z")), Slot(-1));
    for seconds in -100i64..100 {
        let date_time = UtcDateTime::from_timestamp(GENESIS_UNIX_TIMESTAMP + seconds, 0).unwrap();
        let slot = Slot::from_date_time_rounded_down(&date_time);
        assert!(slot.date_time().timestamp() <= date_time.timestamp());
        assert!(date_time.timestamp() < (slot + 1).date_time().timestamp());
    }
}

#[test]
fn first_of_day_every_7200_slots() {
    assert!(Slot(3599 + 7200).is_first_of_day());
    assert!(Slot(3599 - 7200).is_first_of_day());
    assert!(!Slot(3599 + 7199).is_first_of_day());
    assert!(!Slot(-1).is_first_of_day());
    assert!(Slot(i32::MAX - ((i32::MAX - 3599) % 7200)).is_first_of_day());
    for n in 1..20_000 {
        assert_eq!(Slot(n).is_first_of_day(), (n - 3599).rem_euclid(7200) == 0);
    }
}

#[test]
fn first_of_minute_every_five_slots() {
    assert!(Slot(9).is_first_of_minute());
    assert!(Slot(-1).is_first_of_minute());
    assert!(!Slot(-2).is_first_of_minute());
    for n in -1000..1000 {
        assert_eq!(Slot(n).is_first_of_minute(), n == 0 || n.rem_euclid(5) == 4);
    }
}

#[test]
fn slot_arithmetic() {
    assert_eq!(Slot(10) + 5, Slot(15));
    assert_eq!(Slot(10) - 15, Slot(-5));
    assert_eq!(Slot(10) * 3, Slot(30));
    assert_eq!(Slot(10) % 3, Slot(1));
    assert_eq!(Slot(-10) % 3, Slot(-1));
    assert_eq!(Slot(10) % -3, Slot(1));
    assert_eq!(Slot(-10) % -3, Slot(-1));
    assert_eq!(Slot(i32::MIN) % i32::MIN, Slot(0));
    assert_eq!(Slot(-7) % i32::MIN, Slot(-7));
    assert_eq!(Slot(7) % i32::MIN, Slot(7));
}

#[test]
fn slot_conversions() {
    assert_eq!(Slot::from(7), Slot(7));
    assert_eq!(Slot::from(&-7), Slot(-7));
    assert_eq!(i32::from(&Slot(9)), 9);
    assert_eq!(i64::from(Slot(-9)), -9);
    assert_eq!(u64::from(Slot(9)), 9);
    assert_eq!(u64::from(Slot(-1)), u64::MAX);
    assert_eq!(UtcDateTime::from(Slot(3599)), utc("2020-12-02T00:00:11Z"));
    assert_eq!(UtcDateTime::from(&Slot(0)), utc("2020-12-01T12:00:23Z"));
}

#[test]
fn slot_parsing() {
    assert_eq!(Slot::parse("3599"), Ok(Slot(3599)));
    assert_eq!(Slot::parse("+12"), Ok(Slot(12)));
    assert_eq!(Slot::parse("-12"), Ok(Slot(-12)));
    assert_eq!(Slot::parse("2147483647"), Ok(Slot(i32::MAX)));
    assert_eq!(Slot::parse("2147483648"), Err(ParseSlotError));
    assert_eq!(Slot::parse(""), Err(ParseSlotError));
    assert_eq!(Slot::parse(" 1"), Err(ParseSlotError));
    assert_eq!(Slot::parse("1_000"), Err(ParseSlotError));
    assert_eq!(Slot::parse("-"), Err(ParseSlotError));
    assert_eq!("42".parse::<Slot>(), Ok(Slot(42)));
}

#[test]
fn first_of_day_slot_with_block_holds_its_slot() {
    let first = FirstOfDaySlotWithBlock(Slot(3599));
    assert_eq!(first.0, Slot(3599));
    assert_eq!(format!("{:?}", first), "FirstOfDaySlotWithBlock(Slot(3599))");
}

#[test]
fn add_then_sub_gives_slot_back() {
    for (n, k) in [(0, 5), (3599, 7200), (-10, 3), (i32::MAX - 1, 1)] {
        assert_eq!((Slot(n) + k) - k, Slot(n));
    }
}

#[test]
fn slot_text_reads_back() {
    for n in [0, 7, -7, 3599, 10, -10, i32::MAX, i32::MIN] {
        let text = Slot(n).to_string();
        assert_eq!(text, format!("{}", n));
        assert_eq!(text.parse::<Slot>(), Ok(Slot(n)));
    }
}
