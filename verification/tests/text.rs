use adhan::kinds::{EventKind, Prayer, Weekday};
use adhan::monitor::Status;
use adhan::schedule::{Event, Remaining};
use adhan::text::{announcement, decimal_text, padded_text, status_line};

fn status(kind: EventKind, weekday: Weekday, hours: u64, minutes: u64) -> Status {
    Status { next: Event { kind, instant: 0 }, weekday, left: Remaining { hours, minutes } }
}

#[test]
fn on_friday_the_status_names_jumua() {
    let line = status_line(&status(EventKind::Prayer(Prayer::Dhuhr), Weekday::Fri, 1, 30));
    assert_eq!(line, "Jumua prayer starts in: 1h 30m");
    let other = status_line(&status(EventKind::Prayer(Prayer::Dhuhr), Weekday::Thu, 1, 30));
    assert_eq!(other, "Dhuhr prayer starts in: 1h 30m");
}

#[test]
fn status_of_a_prayer_matches_the_format() {
    let s = status(EventKind::Prayer(Prayer::Asr), Weekday::Mon, 2, 5);
    assert_eq!(status_line(&s), format!("{} prayer starts in:{:>2}h {:>2}m", "Asr", 2, 5));
    let s = status(EventKind::Prayer(Prayer::FajrTomorrow), Weekday::Fri, 10, 0);
    assert_eq!(status_line(&s), "Fajr prayer starts in:10h  0m");
}

#[test]
fn status_of_a_marker_names_nothing() {
    let s = status(EventKind::Sunrise, Weekday::Mon, 0, 45);
    assert_eq!(status_line(&s), "Waiting for: 0h 45...");
    let s = status(EventKind::Qiyam, Weekday::Fri, 3, 7);
    assert_eq!(status_line(&s), format!("Waiting for:{:>2}h {:>2}...", 3, 7));
    let s = status(EventKind::Restricted(2), Weekday::Fri, 0, 1);
    assert_eq!(status_line(&s), "Waiting for: 0h  1...");
}

#[test]
fn announcement_names_the_event() {
    assert_eq!(announcement(EventKind::Prayer(Prayer::Maghrib), Weekday::Mon), "Maghrib is now!");
    assert_eq!(announcement(EventKind::Prayer(Prayer::Dhuhr), Weekday::Fri), "Jumua is now!");
    assert_eq!(announcement(EventKind::Prayer(Prayer::Dhuhr), Weekday::Sun), "Dhuhr is now!");
    assert_eq!(announcement(EventKind::Sunrise, Weekday::Fri), "Sunrise is now!");
}

#[test]
fn decimal_text_writes_numbers() {
    assert_eq!(decimal_text(0), "0");
    assert_eq!(decimal_text(7), "7");
    assert_eq!(decimal_text(10), "10");
    assert_eq!(decimal_text(1234567890), "1234567890");
    assert_eq!(decimal_text(u64::MAX), u64::MAX.to_string());
}

#[test]
fn padded_text_is_two_wide_at_least() {
    assert_eq!(padded_text(0), " 0");
    assert_eq!(padded_text(9), " 9");
    assert_eq!(padded_text(10), "10");
    assert_eq!(padded_text(123), "123");
    for n in 0..200u64 {
        assert_eq!(padded_text(n), format!("{:>2}", n));
    }
}
