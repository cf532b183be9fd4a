use aodata::time::Date;
use aodata::time::DateFormat;
use aodata::time::Timestamp;
use aodata::time::MAX_DAYS;
use aodata::time::MAX_SECS;
use aodata::time::MIN_DAYS;
use aodata::time::MIN_SECS;
use chrono::Datelike;

#[test]
fn earlier_second_is_before() {
    let a = Timestamp { secs: 10, nanos: 999_999_999 };
    let b = Timestamp { secs: 11, nanos: 0 };
    assert!(a.is_before(&b));
    assert!(!b.is_before(&a));
    assert!(!a.is_before(&a));
}

#[test]
fn same_second_orders_by_nanos() {
    let a = Timestamp { secs: -5, nanos: 1 };
    let b = Timestamp { secs: -5, nanos: 2 };
    assert!(a.is_before(&b));
    assert!(!b.is_before(&a));
}

#[test]
fn millis_split_into_seconds_and_nanos() {
    assert_eq!(
        Timestamp::from_timestamp_millis(1_706_618_096_789),
        Some(Timestamp { secs: 1_706_618_096, nanos: 789_000_000 })
    );
    assert_eq!(Timestamp::from_timestamp_millis(0), Some(Timestamp { secs: 0, nanos: 0 }));
}

#[test]
fn negative_millis_round_down() {
    assert_eq!(
        Timestamp::from_timestamp_millis(-1),
        Some(Timestamp { secs: -1, nanos: 999_000_000 })
    );
    assert_eq!(
        Timestamp::from_timestamp_millis(-1_001),
        Some(Timestamp { secs: -2, nanos: 999_000_000 })
    );
}

#[test]
fn millis_reach_exactly_as_far_as_the_calendar() {
    assert_eq!(
        Timestamp::from_timestamp_millis(MIN_SECS * 1000),
        Some(Timestamp { secs: MIN_SECS, nanos: 0 })
    );
    assert_eq!(Timestamp::from_timestamp_millis(MIN_SECS * 1000 - 1), None);
    assert_eq!(
        Timestamp::from_timestamp_millis(MAX_SECS * 1000 + 999),
        Some(Timestamp { secs: MAX_SECS, nanos: 999_000_000 })
    );
    assert_eq!(Timestamp::from_timestamp_millis(MAX_SECS * 1000 + 1000), None);
    assert_eq!(Timestamp::from_timestamp_millis(i64::MAX), None);
    assert_eq!(Timestamp::from_timestamp_millis(i64::MIN), None);
}

#[test]
fn calendar_bounds_are_those_of_chrono() {
    assert_eq!(chrono::DateTime::<chrono::Utc>::MIN_UTC.timestamp(), MIN_SECS);
    assert_eq!(chrono::DateTime::<chrono::Utc>::MAX_UTC.timestamp(), MAX_SECS);
    assert_eq!(chrono::NaiveDate::MIN.num_days_from_ce(), MIN_DAYS);
    assert_eq!(chrono::NaiveDate::MAX.num_days_from_ce(), MAX_DAYS);
}

#[test]
fn parses_date_and_time() {
    assert_eq!(
        Timestamp::parse("2024-01-30T12:34:56"),
        Some(Timestamp { secs: 1_706_618_096, nanos: 0 })
    );
    assert_eq!(
        Timestamp::parse("2024-01-30T12:34:56.789"),
        Some(Timestamp { secs: 1_706_618_096, nanos: 789_000_000 })
    );
    assert_eq!(Timestamp::parse("1969-12-31T23:59:59"), Some(Timestamp { secs: -1, nanos: 0 }));
}

#[test]
fn parses_a_leap_second() {
    assert_eq!(
        Timestamp::parse("2016-12-31T23:59:60"),
        Some(Timestamp { secs: 1_483_228_799, nanos: 1_000_000_000 })
    );
}

#[test]
fn rejects_what_is_no_date_and_time() {
    assert_eq!(Timestamp::parse(""), None);
    assert_eq!(Timestamp::parse("2024-01-30"), None);
    assert_eq!(Timestamp::parse("2024-01-30 12:34:56"), None);
    assert_eq!(Timestamp::parse("2024-02-30T00:00:00"), None);
    assert_eq!(Timestamp::parse("tomorrow"), None);
}

#[test]
fn now_is_a_recent_instant() {
    let now = Timestamp::now();
    assert!(now.secs > 1_700_000_000);
    assert!(now.secs <= MAX_SECS);
    assert!(now.nanos < 2_000_000_000);
}

#[test]
fn parses_dates_in_both_formats() {
    let expected = Some(Date { days_from_ce: 738_915 });
    assert_eq!(Date::parse("2024-01-30", DateFormat::YearMonthDay), expected);
    assert_eq!(Date::parse("2024-01-30", DateFormat::Plain), expected);
    assert_eq!(
        Date::parse("1970-01-01", DateFormat::Plain),
        Some(Date { days_from_ce: 719_163 })
    );
    assert_eq!(
        Date::parse("0001-01-01", DateFormat::YearMonthDay),
        Some(Date { days_from_ce: 1 })
    );
}

#[test]
fn rejects_what_is_no_date() {
    assert_eq!(Date::parse("2024-13-01", DateFormat::YearMonthDay), None);
    assert_eq!(Date::parse("2024-02-30", DateFormat::Plain), None);
    assert_eq!(Date::parse("", DateFormat::Plain), None);
    assert_eq!(Date::parse("30.01.2024", DateFormat::YearMonthDay), None);
}

#[test]
fn dates_read_as_chrono_reads_them() {
    let samples = [
        "2024-01-30",
        " 2024-01-30",
        "2024-01-30 ",
        "2024-1-3",
        "2024 - 01 - 30",
        "+2024-01-30",
        "24-01-30",
        "2024-01-30T10:00:00",
        "2024/01/30",
        "-0001-12-31",
        "262142-12-31",
        "262143-01-01",
    ];
    for sample in samples {
        let plain = sample.parse::<chrono::NaiveDate>().ok().map(|d| d.num_days_from_ce());
        assert_eq!(Date::parse(sample, DateFormat::Plain).map(|d| d.days_from_ce), plain);
        let pattern = chrono::NaiveDate::parse_from_str(sample, "%Y-%m-%d")
            .ok()
            .map(|d| d.num_days_from_ce());
        assert_eq!(Date::parse(sample, DateFormat::YearMonthDay).map(|d| d.days_from_ce), pattern);
    }
}

#[test]
fn instants_read_as_chrono_reads_them() {
    let samples = [
        "2024-01-30T12:34:56",
        "2024-01-30T12:34:56.5",
        "2024-01-30T12:34:56.123456789",
        " 2024-01-30T12:34:56",
        "2024-01-30t12:34:56",
        "2024-01-30T12:34",
        "2024-01-30T24:00:00",
        "262142-12-31T23:59:59",
        "-262143-01-01T00:00:00",
    ];
    for sample in samples {
        let expected = sample.parse::<chrono::NaiveDateTime>().ok().map(|t| {
            Timestamp { secs: t.and_utc().timestamp(), nanos: t.and_utc().timestamp_subsec_nanos() }
        });
        assert_eq!(Timestamp::parse(sample), expected);
    }
}
