use brownhttpd::clock::Timestamp;

fn epoch() -> Timestamp {
    Timestamp { weekday: 4, month: 0, day: 1, hour: 0, minute: 0, second: 0, year: 70 }
}

#[test]
fn the_epoch_is_written_as_documented() {
    assert_eq!(epoch().write(), "Thu Jan  1 00:00:00 1970");
    assert_eq!(epoch().format(), Some("Thu Jan  1 00:00:00 1970".to_string()));
    assert_eq!(epoch().to_stamp(), "Thu Jan  1 00:00:00 1970");
}

#[test]
fn a_later_moment_is_written_field_by_field() {
    let moment =
        Timestamp { weekday: 3, month: 9, day: 28, hour: 13, minute: 5, second: 59, year: 126 };
    assert!(moment.is_printable());
    assert_eq!(moment.write(), "Wed Oct 28 13:05:59 2026");
    let other =
        Timestamp { weekday: 0, month: 11, day: 31, hour: 23, minute: 59, second: 60, year: 99 };
    assert_eq!(other.write(), "Sun Dec 31 23:59:60 1999");
}

#[test]
fn a_moment_without_a_name_is_not_written() {
    let no_weekday = Timestamp { weekday: 7, ..epoch() };
    assert!(!no_weekday.is_printable());
    assert_eq!(no_weekday.format(), None);
    assert_eq!(no_weekday.to_stamp(), "");
    let no_month = Timestamp { month: 12, ..epoch() };
    assert_eq!(no_month.format(), None);
    let negative = Timestamp { weekday: -1, ..epoch() };
    assert_eq!(negative.format(), None);
    let before_january = Timestamp { month: -1, ..epoch() };
    assert_eq!(before_january.format(), None);
    let far = Timestamp { year: i32::MAX - 1899, ..epoch() };
    assert_eq!(far.format(), None);
}

#[test]
fn the_last_year_that_fits_is_written() {
    let last = Timestamp { year: i32::MAX - 1900, ..epoch() };
    assert!(last.is_printable());
    assert_eq!(last.write(), "Thu Jan  1 00:00:00 2147483647");
}

#[test]
fn the_present_moment_can_be_written() {
    let now = Timestamp::now();
    assert!((0..=6).contains(&now.weekday));
    assert!((0..=11).contains(&now.month));
    assert!((1..=31).contains(&now.day));
    assert!((0..=23).contains(&now.hour));
    assert!((0..=59).contains(&now.minute));
    assert!((0..=60).contains(&now.second));
    assert!(now.is_printable());
    assert!(now.year >= 126);
    let written = now.to_stamp();
    assert_eq!(written.len(), 24);
    assert_eq!(now.format(), Some(written));
}
