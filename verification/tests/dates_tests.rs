use rssify::dates::{format_date_time, is_before, parse_date, DateTimeFields, Instant};

fn at(year: i32, month: u32, day: u32, hour: u32, minute: u32, second: u32) -> DateTimeFields {
    DateTimeFields { year, month, day, hour, minute, second, nanosecond: 0 }
}

#[test]
fn formats_as_chrono_displays() {
    assert_eq!(format_date_time(&at(2025, 6, 12, 0, 0, 0)), "2025-06-12 00:00:00");
    assert_eq!(format_date_time(&at(7, 1, 2, 3, 4, 5)), "0007-01-02 03:04:05");
    assert_eq!(format_date_time(&at(-5, 12, 31, 23, 59, 59)), "-0005-12-31 23:59:59");
    assert_eq!(format_date_time(&at(12345, 1, 1, 0, 0, 0)), "+12345-01-01 00:00:00");
    assert_eq!(format_date_time(&at(-12345, 1, 1, 0, 0, 0)), "-12345-01-01 00:00:00");
}

#[test]
fn formatting_agrees_with_chrono() {
    let cases = [(2025, 6, 12), (0, 1, 1), (9999, 12, 31), (-1, 3, 4), (10000, 2, 29)];
    for (y, m, d) in cases {
        let date = chrono::NaiveDate::from_ymd_opt(y, m, d).unwrap().and_hms_opt(0, 0, 0).unwrap();
        assert_eq!(format_date_time(&at(y, m, d, 0, 0, 0)), date.to_string());
    }
}

#[test]
fn reads_month_names() {
    assert_eq!(parse_date("June 12, 2025", "%B %d, %Y").ok(), Some((2025, 6, 12)));
    assert_eq!(parse_date("May 1, 2024", "%B %d, %Y").ok(), Some((2024, 5, 1)));
    assert!(parse_date("February 30, 2024", "%B %d, %Y").is_err());
    assert!(parse_date("Smarch 4, 2024", "%B %d, %Y").is_err());
}

#[test]
fn instants_are_ordered_by_seconds_then_nanoseconds() {
    let a = Instant { seconds: 10, nanos: 5 };
    let b = Instant { seconds: 10, nanos: 6 };
    let c = Instant { seconds: 11, nanos: 0 };
    assert!(is_before(a, b));
    assert!(is_before(b, c));
    assert!(!is_before(c, a));
    assert!(!is_before(a, a));
}

#[test]
fn a_leap_second_is_read_as_second_fifty_nine_with_its_nanoseconds() {
    let at = rssify::dates::parse_date_time("2016-12-31 23:59:60", "%Y-%m-%d %H:%M:%S").unwrap();
    assert_eq!((at.hour, at.minute, at.second), (23, 59, 59));
    assert_eq!(at.nanosecond, 1_000_000_000);
    let at = rssify::dates::parse_date_time("2016-12-31 23:59:59", "%Y-%m-%d %H:%M:%S").unwrap();
    assert_eq!(at.nanosecond, 0);
}

#[test]
fn a_fraction_of_a_second_is_written_as_chrono_writes_it() {
    let mut t = at(2025, 6, 12, 1, 2, 3);
    t.nanosecond = 500_000_000;
    assert_eq!(format_date_time(&t), "2025-06-12 01:02:03.500");
    t.second = 59;
    t.nanosecond = 1_000_000_000;
    assert_eq!(format_date_time(&t), "2025-06-12 01:02:60");
}

#[test]
fn chrono_error_of_an_unreadable_announced_date() {
    let p = "(Alternatively, this item will become freely available on February 30, 2024)";
    assert!(rssify::lwn::LWN::announced_release_date(p).is_err());
    let p = "(Alternatively, this item will become freely available on March 5, 2024)";
    assert_eq!(
        rssify::lwn::LWN::announced_release_date(p).unwrap(),
        Some(DateTimeFields { year: 2024, month: 3, day: 5, hour: 0, minute: 0, second: 0, nanosecond: 0 })
    );
    assert_eq!(rssify::lwn::LWN::announced_release_date("none").unwrap(), None);
}
