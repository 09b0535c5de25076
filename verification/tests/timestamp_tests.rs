use readlater::timestamp::{days_in_month, format_rfc2822, is_leap_year, parse_timestamp, Timestamp};

#[test]
fn parse_reads_all_fields() {
    let t = parse_timestamp("2019-06-15 08:30:09").unwrap();
    assert_eq!(t.year, 2019);
    assert_eq!(t.month, 6);
    assert_eq!(t.day, 15);
    assert_eq!(t.hour, 8);
    assert_eq!(t.minute, 30);
    assert_eq!(t.second, 9);
}

#[test]
fn parse_rejects_malformed_strings() {
    assert!(parse_timestamp("").is_none());
    assert!(parse_timestamp("yesterday").is_none());
    assert!(parse_timestamp("2019-06-15").is_none());
    assert!(parse_timestamp("2019-06-15 08:30:09 ").is_none());
    assert!(parse_timestamp("2019/06/15 08:30:09").is_none());
    assert!(parse_timestamp("2019-06-15T08:30:09").is_none());
    assert!(parse_timestamp("2019-06-15 08.30.09").is_none());
    assert!(parse_timestamp("2019-o6-15 08:30:09").is_none());
}

#[test]
fn parse_rejects_invalid_calendar_fields() {
    assert!(parse_timestamp("2019-13-01 00:00:00").is_none());
    assert!(parse_timestamp("2019-00-01 00:00:00").is_none());
    assert!(parse_timestamp("2019-06-31 00:00:00").is_none());
    assert!(parse_timestamp("2019-06-00 00:00:00").is_none());
    assert!(parse_timestamp("2019-02-29 00:00:00").is_none());
    assert!(parse_timestamp("2020-02-29 00:00:00").is_some());
    assert!(parse_timestamp("1900-02-29 00:00:00").is_none());
    assert!(parse_timestamp("2000-02-29 00:00:00").is_some());
    assert!(parse_timestamp("2019-06-15 24:00:00").is_none());
    assert!(parse_timestamp("2019-06-15 08:60:00").is_none());
    assert!(parse_timestamp("2019-06-15 08:30:60").is_none());
    assert!(parse_timestamp("0000-06-15 08:30:00").is_none());
}

#[test]
fn leap_years_and_month_lengths() {
    assert!(is_leap_year(2020));
    assert!(!is_leap_year(2019));
    assert!(!is_leap_year(1900));
    assert!(is_leap_year(2000));
    assert_eq!(days_in_month(2020, 2), 29);
    assert_eq!(days_in_month(2019, 2), 28);
    assert_eq!(days_in_month(2019, 4), 30);
    assert_eq!(days_in_month(2019, 12), 31);
}

#[test]
fn format_writes_rfc2822() {
    let t = Timestamp {
        year: 2020,
        month: 1,
        day: 1,
        hour: 0,
        minute: 0,
        second: 0,
    };
    assert_eq!(format_rfc2822(t), "Wed, 01 Jan 2020 00:00:00 +0000");
    let t = Timestamp {
        year: 2019,
        month: 6,
        day: 15,
        hour: 8,
        minute: 30,
        second: 9,
    };
    assert_eq!(format_rfc2822(t), "Sat, 15 Jun 2019 08:30:09 +0000");
}

#[test]
fn format_agrees_with_chrono() {
    let cases = [
        "2019-01-01 12:00:00",
        "2020-02-29 23:59:59",
        "1999-12-31 00:00:01",
        "2024-07-04 16:05:00",
        "1970-01-01 00:00:00",
    ];
    for s in cases.iter() {
        let ours = format_rfc2822(parse_timestamp(s).unwrap());
        let theirs = chrono::NaiveDateTime::parse_from_str(s, "%Y-%m-%d %H:%M:%S")
            .unwrap()
            .format("%a, %d %b %Y %H:%M:%S +0000")
            .to_string();
        assert_eq!(ours, theirs);
    }
}
