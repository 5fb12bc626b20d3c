use chrono::{DateTime, Utc};
use eth_analysis::execution_chain::{
    bellatrix_hard_fork_timestamp, london_hard_fork_timestamp, TOTAL_TERMINAL_DIFFICULTY,
};
use eth_analysis::time::{UtcDateTime, MAX_UTC_TIMESTAMP, MIN_UTC_TIMESTAMP};

#[test]
fn utc_range_is_chronos() {
    assert_eq!(DateTime::<Utc>::MIN_UTC.timestamp(), MIN_UTC_TIMESTAMP);
    assert_eq!(DateTime::<Utc>::MAX_UTC.timestamp(), MAX_UTC_TIMESTAMP);
    assert!(UtcDateTime::from_timestamp(MIN_UTC_TIMESTAMP, 0).is_some());
    assert!(UtcDateTime::from_timestamp(MAX_UTC_TIMESTAMP, 999_999_999).is_some());
    assert!(UtcDateTime::from_timestamp(MIN_UTC_TIMESTAMP - 1, 0).is_none());
    assert!(UtcDateTime::from_timestamp(MAX_UTC_TIMESTAMP + 1, 0).is_none());
    assert!(UtcDateTime::from_timestamp(0, 1_000_000_000).is_none());
}

#[test]
fn date_time_parts() {
    let date_time = UtcDateTime::from_timestamp(-5, 7).unwrap();
    assert_eq!(date_time.timestamp(), -5);
    assert_eq!(date_time.timestamp_subsec_nanos(), 7);
}

#[test]
fn hard_fork_timestamps() {
    let london = "2021-08-05T12:33:42Z".parse::<DateTime<Utc>>().unwrap();
    assert_eq!(london_hard_fork_timestamp().timestamp(), london.timestamp());
    let bellatrix = "2022-09-15T06:42:42Z".parse::<DateTime<Utc>>().unwrap();
    assert_eq!(bellatrix_hard_fork_timestamp().timestamp(), bellatrix.timestamp());
    assert_eq!(TOTAL_TERMINAL_DIFFICULTY, 58_750_000_000_000_000_000_000);
}
