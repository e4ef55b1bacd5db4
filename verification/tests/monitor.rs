use adhan::error::AdhanError;
use adhan::kinds::{AdhanType, EventKind, Prayer, Weekday};
use adhan::monitor::{least_to_come, Action, Input, Monitor, Status};
use adhan::playback::play_adhan;
use adhan::schedule::{Event, Remaining, Schedule};
use adhan::text::status_line;

const DAY: i64 = 86_400;

fn at(hour: i64, minute: i64) -> i64 {
    hour * 3600 + minute * 60
}

fn day(n: i64) -> Schedule {
    let start = n * DAY;
    let events = vec![
        Event { kind: EventKind::Prayer(Prayer::Fajr), instant: start + at(6, 0) },
        Event { kind: EventKind::Prayer(Prayer::Dhuhr), instant: start + at(12, 0) },
        Event { kind: EventKind::Prayer(Prayer::FajrTomorrow), instant: start + DAY + at(6, 0) },
    ];
    Schedule::build(start, start + DAY, events).expect("a schedule")
}

fn dhuhr() -> Event {
    Event { kind: EventKind::Prayer(Prayer::Dhuhr), instant: at(12, 0) }
}

fn waiting() -> Monitor {
    let (monitor, action) = Monitor::new().step(Input::Built { schedule: day(0) });
    assert_eq!(action, Action::Poll);
    monitor
}

#[test]
fn a_new_monitor_asks_for_a_schedule() {
    let monitor = Monitor::new();
    assert_eq!(monitor, Monitor::Rebuilding { consumed: None });
    assert_eq!(monitor.pending_action(), Action::Build);
}

#[test]
fn a_built_schedule_starts_the_wait() {
    let monitor = waiting();
    assert_eq!(monitor, Monitor::Waiting { schedule: day(0), consumed: None });
    assert_eq!(monitor.pending_action(), Action::Poll);
}

#[test]
fn a_minute_before_dhuhr_the_status_names_it() {
    let (monitor, action) = waiting().step(Input::Tick { now: at(11, 59), weekday: Weekday::Mon });
    let status = Status { next: dhuhr(), weekday: Weekday::Mon, left: Remaining { hours: 0, minutes: 1 } };
    assert_eq!(action, Action::Wait { status });
    assert_eq!(monitor, Monitor::Waiting { schedule: day(0), consumed: None });
    assert_eq!(status_line(&status), "Dhuhr prayer starts in: 0h  1m");
}

#[test]
fn dhuhr_fires_at_noon_then_the_monitor_rebuilds() {
    let (monitor, action) = waiting().step(Input::Tick { now: at(12, 0), weekday: Weekday::Mon });
    assert_eq!(action, Action::Play { event: dhuhr(), weekday: Weekday::Mon });
    assert_eq!(monitor, Monitor::Firing { event: dhuhr(), weekday: Weekday::Mon });
    assert_eq!(dhuhr().kind.adhan_type(), Some(AdhanType::Normal));
    let (monitor, action) = monitor.step(Input::Played { succeeded: true });
    assert_eq!(monitor, Monitor::Rebuilding { consumed: Some(at(12, 0)) });
    assert_eq!(action, Action::Build);
}

#[test]
fn without_a_cue_for_fajr_the_monitor_goes_on() {
    let fajr = Event { kind: EventKind::Prayer(Prayer::Fajr), instant: at(6, 0) };
    let (monitor, action) = waiting().step(Input::Tick { now: at(6, 0), weekday: Weekday::Tue });
    assert_eq!(action, Action::Play { event: fajr, weekday: Weekday::Tue });
    let devices = vec![String::from("Speaker")];
    let outcome = play_adhan(fajr.kind, "Speaker", &devices, true, &Some(vec![]));
    assert_eq!(outcome, Err(AdhanError::NoCueAvailable));
    assert!(outcome.as_ref().err().expect("an error").recoverable());
    let (monitor, action) = monitor.step(Input::Played { succeeded: outcome.is_ok() });
    assert_eq!((monitor.clone(), action), (Monitor::Rebuilding { consumed: Some(at(6, 0)) }, Action::Build));
    let (monitor, action) = monitor.step(Input::Built { schedule: day(0) });
    assert_eq!(action, Action::Poll);
    let (monitor, action) = monitor.step(Input::Tick { now: at(6, 0) + 1, weekday: Weekday::Tue });
    let status = Status { next: dhuhr(), weekday: Weekday::Tue, left: Remaining { hours: 5, minutes: 59 } };
    assert_eq!(action, Action::Wait { status });
    assert_eq!(monitor, Monitor::Waiting { schedule: day(0), consumed: Some(at(6, 0)) });
}

#[test]
fn without_a_device_the_monitor_goes_on() {
    let (monitor, _) = waiting().step(Input::Tick { now: at(12, 0), weekday: Weekday::Wed });
    let devices = vec![String::from("Speaker")];
    let outcome = play_adhan(dhuhr().kind, "NonexistentSpeaker", &devices, false, &Some(vec![String::from("a.mp3")]));
    assert!(outcome.is_err());
    let (monitor, action) = monitor.step(Input::Played { succeeded: false });
    assert_eq!(monitor, Monitor::Rebuilding { consumed: Some(at(12, 0)) });
    assert_eq!(action, Action::Build);
}

#[test]
fn an_event_is_due_for_the_whole_last_minute() {
    let (_, action) = waiting().step(Input::Tick { now: at(12, 0) - 59, weekday: Weekday::Mon });
    assert_eq!(action, Action::Play { event: dhuhr(), weekday: Weekday::Mon });
    let (_, action) = waiting().step(Input::Tick { now: at(12, 0) - 60, weekday: Weekday::Mon });
    let status = Status { next: dhuhr(), weekday: Weekday::Mon, left: Remaining { hours: 0, minutes: 1 } };
    assert_eq!(action, Action::Wait { status });
}

#[test]
fn a_passed_schedule_is_rebuilt() {
    let (monitor, action) = waiting().step(Input::Tick { now: DAY + at(6, 0) + 1, weekday: Weekday::Mon });
    assert_eq!(monitor, Monitor::Rebuilding { consumed: None });
    assert_eq!(action, Action::Build);
}

#[test]
fn the_sentinel_keeps_the_monitor_waiting_overnight() {
    let (monitor, action) = waiting().step(Input::Tick { now: at(23, 0), weekday: Weekday::Mon });
    let sentinel = Event { kind: EventKind::Prayer(Prayer::FajrTomorrow), instant: DAY + at(6, 0) };
    let status = Status { next: sentinel, weekday: Weekday::Mon, left: Remaining { hours: 7, minutes: 0 } };
    assert_eq!(action, Action::Wait { status });
    assert_eq!(monitor, Monitor::Waiting { schedule: day(0), consumed: None });
}

#[test]
fn of_two_due_events_the_earlier_fires() {
    let events = vec![
        Event { kind: EventKind::Sunrise, instant: at(7, 0) },
        Event { kind: EventKind::Restricted(0), instant: at(7, 0) + 20 },
        Event { kind: EventKind::Prayer(Prayer::FajrTomorrow), instant: DAY + at(6, 0) },
    ];
    let schedule = Schedule::build(0, DAY, events).expect("a schedule");
    let (monitor, _) = Monitor::new().step(Input::Built { schedule: schedule.clone() });
    let (monitor, action) = monitor.step(Input::Tick { now: at(7, 0) - 10, weekday: Weekday::Sun });
    let sunrise = Event { kind: EventKind::Sunrise, instant: at(7, 0) };
    assert_eq!(action, Action::Play { event: sunrise, weekday: Weekday::Sun });
    let (monitor, _) = monitor.step(Input::Played { succeeded: true });
    let (monitor, _) = monitor.step(Input::Built { schedule: schedule.clone() });
    let (_, action) = monitor.step(Input::Tick { now: at(7, 0) - 10, weekday: Weekday::Sun });
    let window = Event { kind: EventKind::Restricted(0), instant: at(7, 0) + 20 };
    assert_eq!(action, Action::Play { event: window, weekday: Weekday::Sun });
}

#[test]
fn a_fired_event_does_not_fire_again() {
    let (monitor, action) = waiting().step(Input::Tick { now: at(12, 0) - 30, weekday: Weekday::Mon });
    assert_eq!(action, Action::Play { event: dhuhr(), weekday: Weekday::Mon });
    let (monitor, _) = monitor.step(Input::Played { succeeded: false });
    let (monitor, _) = monitor.step(Input::Built { schedule: day(0) });
    let (monitor, action) = monitor.step(Input::Tick { now: at(12, 0) - 30, weekday: Weekday::Mon });
    let sentinel = Event { kind: EventKind::Prayer(Prayer::FajrTomorrow), instant: DAY + at(6, 0) };
    let status = Status { next: sentinel, weekday: Weekday::Mon, left: Remaining { hours: 18, minutes: 0 } };
    assert_eq!(action, Action::Wait { status });
    assert_eq!(monitor, Monitor::Waiting { schedule: day(0), consumed: Some(at(12, 0)) });
}

#[test]
fn after_the_sentinel_fired_the_next_day_goes_on() {
    let (monitor, action) = waiting().step(Input::Tick { now: DAY + at(6, 0), weekday: Weekday::Tue });
    let sentinel = Event { kind: EventKind::Prayer(Prayer::FajrTomorrow), instant: DAY + at(6, 0) };
    assert_eq!(action, Action::Play { event: sentinel, weekday: Weekday::Tue });
    let (monitor, _) = monitor.step(Input::Played { succeeded: true });
    let (monitor, _) = monitor.step(Input::Built { schedule: day(1) });
    let (_, action) = monitor.step(Input::Tick { now: DAY + at(6, 0), weekday: Weekday::Tue });
    let next = Event { kind: EventKind::Prayer(Prayer::Dhuhr), instant: DAY + at(12, 0) };
    let status = Status { next, weekday: Weekday::Tue, left: Remaining { hours: 6, minutes: 0 } };
    assert_eq!(action, Action::Wait { status });
}

#[test]
fn least_to_come_skips_what_was_fired() {
    assert_eq!(least_to_come(10, None), Some(10));
    assert_eq!(least_to_come(10, Some(5)), Some(10));
    assert_eq!(least_to_come(10, Some(10)), Some(11));
    assert_eq!(least_to_come(10, Some(20)), Some(21));
    assert_eq!(least_to_come(10, Some(i64::MAX)), None);
    assert_eq!(least_to_come(i64::MIN, None), Some(i64::MIN));
}

#[test]
fn an_input_that_is_not_awaited_changes_nothing() {
    let (monitor, action) = Monitor::new().step(Input::Tick { now: 0, weekday: Weekday::Mon });
    assert_eq!((monitor, action), (Monitor::new(), Action::Build));
    let (monitor, action) = Monitor::new().step(Input::Played { succeeded: true });
    assert_eq!((monitor, action), (Monitor::new(), Action::Build));
    let (monitor, action) = waiting().step(Input::Played { succeeded: true });
    assert_eq!((monitor, action), (waiting(), Action::Poll));
    let (monitor, action) = waiting().step(Input::Built { schedule: day(1) });
    assert_eq!((monitor, action), (waiting(), Action::Poll));
    let firing = Monitor::Firing { event: dhuhr(), weekday: Weekday::Fri };
    let play = Action::Play { event: dhuhr(), weekday: Weekday::Fri };
    let (monitor, action) = firing.clone().step(Input::Tick { now: at(12, 0), weekday: Weekday::Sat });
    assert_eq!((monitor, action), (firing.clone(), play));
    let (monitor, action) = firing.clone().step(Input::Built { schedule: day(1) });
    assert_eq!((monitor, action), (firing, play));
}
