//! The day's schedule: timed events in ascending order, closed by the dawn
//! prayer of the following day.

use vstd::prelude::*;
use crate::kinds::{EventKind, Prayer};

verus! {

pub const SECONDS_PER_MINUTE: u64 = 60;

pub const SECONDS_PER_HOUR: u64 = 3600;

/// One scheduled event: what it marks and when it is due, in seconds since
/// the epoch.
#[derive(Clone, Copy, Debug, PartialEq, Eq, Structural)]
pub struct Event {
    pub kind: EventKind,
    pub instant: i64,
}

/// Why a sequence of events is no schedule.
#[derive(Clone, Copy, Debug, PartialEq, Eq, Structural)]
pub enum ScheduleError {
    /// There is no event at all.
    Empty,
    /// The last event is not the dawn prayer of the following day.
    MissingSentinel,
    /// Some event is not later than the one before it.
    OutOfOrder,
    /// Some event before the last lies outside the day.
    OutsideDay,
}

/// Time left until an event, in whole hours and minutes; seconds are dropped.
#[derive(Clone, Copy, Debug, PartialEq, Eq, Structural)]
pub struct Remaining {
    pub hours: u64,
    pub minutes: u64,
}

/// The instants of one day's events as the schedule source computes them,
/// each in seconds since the epoch.
#[derive(Clone, Copy, Debug, PartialEq, Eq, Structural)]
pub struct DayTimes {
    /// The marker before dawn.
    pub qiyam: i64,
    pub fajr: i64,
    pub sunrise: i64,
    pub dhuhr: i64,
    pub asr: i64,
    pub maghrib: i64,
    pub isha: i64,
    /// The dawn prayer of the following day.
    pub fajr_tomorrow: i64,
}

/// The events of a day in the order of the day, the sentinel last.
pub open spec fn day_events(times: DayTimes) -> Seq<Event> {
    seq![
        Event { kind: EventKind::Qiyam, instant: times.qiyam },
        Event { kind: EventKind::Prayer(Prayer::Fajr), instant: times.fajr },
        Event { kind: EventKind::Sunrise, instant: times.sunrise },
        Event { kind: EventKind::Prayer(Prayer::Dhuhr), instant: times.dhuhr },
        Event { kind: EventKind::Prayer(Prayer::Asr), instant: times.asr },
        Event { kind: EventKind::Prayer(Prayer::Maghrib), instant: times.maghrib },
        Event { kind: EventKind::Prayer(Prayer::Isha), instant: times.isha },
        Event { kind: EventKind::Prayer(Prayer::FajrTomorrow), instant: times.fajr_tomorrow },
    ]
}

/// The kind of the event that closes every schedule.
pub open spec fn sentinel_kind() -> EventKind {
    EventKind::Prayer(Prayer::FajrTomorrow)
}

/// Each event is strictly later than every event before it.
pub open spec fn strictly_increasing(events: Seq<Event>) -> bool {
    forall|i: int, j: int| 0 <= i < j < events.len() ==> events[i].instant < events[j].instant
}

/// Every event but the last lies in the day `[day_start, day_end)`.
pub open spec fn within_day(day_start: i64, day_end: i64, events: Seq<Event>) -> bool {
    forall|i: int| 0 <= i < events.len() - 1 ==> day_start <= (#[trigger] events[i]).instant < day_end
}

/// The last event is the sentinel.
pub open spec fn ends_with_sentinel(events: Seq<Event>) -> bool {
    events.len() > 0 && events.last().kind == sentinel_kind()
}

/// What makes `events` a schedule of the day `[day_start, day_end)`.
pub open spec fn is_schedule(day_start: i64, day_end: i64, events: Seq<Event>) -> bool {
    &&& ends_with_sentinel(events)
    &&& strictly_increasing(events)
    &&& within_day(day_start, day_end, events)
}

/// The first defect of `events`, if they are no schedule.
pub open spec fn defect(day_start: i64, day_end: i64, events: Seq<Event>) -> Option<ScheduleError> {
    if events.len() == 0 {
        Some(ScheduleError::Empty)
    } else if events.last().kind != sentinel_kind() {
        Some(ScheduleError::MissingSentinel)
    } else if !strictly_increasing(events) {
        Some(ScheduleError::OutOfOrder)
    } else if !within_day(day_start, day_end, events) {
        Some(ScheduleError::OutsideDay)
    } else {
        None
    }
}

/// Whole hours and minutes in `seconds`.
pub open spec fn split_seconds(seconds: int) -> Remaining {
    Remaining {
        hours: (seconds / 3600) as u64,
        minutes: ((seconds % 3600) / 60) as u64,
    }
}

impl Remaining {
    /// Less than a minute is left: the event is due.
    pub open spec fn is_due(self) -> bool {
        self.hours == 0 && self.minutes == 0
    }

    /// The time from `now` to `instant`, or `None` when `instant` has passed.
    pub fn between(now: i64, instant: i64) -> (r: Option<Remaining>)
        ensures
            r is Some <==> now <= instant,
            now <= instant ==> r == Some(split_seconds(instant - now)),
            r matches Some(left) ==> left.minutes < 60 && (left.is_due() <==> instant - now < 60),
    {
        if instant < now {
            None
        } else {
            Some(Remaining::until(now, instant))
        }
    }

    /// The time from `now` to an `instant` that has not passed.
    pub(crate) fn until(now: i64, instant: i64) -> (r: Remaining)
        requires
            now <= instant,
        ensures
            r == split_seconds(instant - now),
            r.minutes < 60,
            r.is_due() <==> instant - now < 60,
    {
        let seconds: u64 = (instant as i128 - now as i128) as u64;
        Remaining {
            hours: seconds / SECONDS_PER_HOUR,
            minutes: (seconds % SECONDS_PER_HOUR) / SECONDS_PER_MINUTE,
        }
    }

    /// Whether the event is due: no whole hour and no whole minute is left.
    pub fn due(&self) -> (r: bool)
        ensures
            r == self.is_due(),
    {
        self.hours == 0 && self.minutes == 0
    }
}

/// The events of one local day, in the order in which they fall due.
#[derive(Clone, Debug, PartialEq, Eq)]
pub struct Schedule {
    day_start: i64,
    day_end: i64,
    events: Vec<Event>,
}

impl View for Schedule {
    type V = Seq<Event>;

    closed spec fn view(&self) -> Seq<Event> {
        self.events@
    }
}

impl Schedule {
    /// First second of the schedule's day.
    pub closed spec fn spec_day_start(&self) -> i64 {
        self.day_start
    }

    /// First second after the schedule's day.
    pub closed spec fn spec_day_end(&self) -> i64 {
        self.day_end
    }

    /// The schedule's invariant: it is never empty, ends with the sentinel,
    /// and its events are strictly increasing and lie in its day.
    pub open spec fn wf(&self) -> bool {
        is_schedule(self.spec_day_start(), self.spec_day_end(), self@)
    }

    /// `i` is the position of the earliest event that is not before `now`.
    pub open spec fn next_at(&self, now: i64, i: int) -> bool {
        &&& 0 <= i < self@.len()
        &&& now <= self@[i].instant
        &&& forall|j: int| 0 <= j < i ==> (#[trigger] self@[j]).instant < now
    }

    /// Every event of the schedule is before `now`.
    pub open spec fn all_past(&self, now: i64) -> bool {
        forall|j: int| 0 <= j < self@.len() ==> (#[trigger] self@[j]).instant < now
    }

    /// The earliest event that is not before `now`, if there is one.
    pub open spec fn spec_next_event(&self, now: i64) -> Option<Event> {
        if exists|i: int| self.next_at(now, i) {
            Some(self@[choose|i: int| self.next_at(now, i)])
        } else {
            None
        }
    }

    /// Makes a schedule of `events` for the day `[day_start, day_end)`, or
    /// says what is wrong with them.
    pub fn build(day_start: i64, day_end: i64, events: Vec<Event>) -> (r: Result<Schedule, ScheduleError>)
        ensures
            r is Ok <==> is_schedule(day_start, day_end, events@),
            r matches Ok(s) ==> s.wf() && s@ == events@ && s.spec_day_start() == day_start
                && s.spec_day_end() == day_end,
            r matches Err(e) ==> defect(day_start, day_end, events@) == Some(e),
    {
        let n: usize = events.len();
        if n == 0 {
            return Err(ScheduleError::Empty);
        }
        match events[n - 1].kind {
            EventKind::Prayer(Prayer::FajrTomorrow) => {},
            _ => {
                return Err(ScheduleError::MissingSentinel);
            },
        }
        let mut k: usize = 1;
        while k < n
            invariant
                1 <= k <= n,
                n == events@.len(),
                events@.last().kind == sentinel_kind(),
                strictly_increasing(events@.take(k as int)),
            decreases n - k,
        {
            if events[k - 1].instant >= events[k].instant {
                assert(!(events@[k - 1].instant < events@[k as int].instant));
                return Err(ScheduleError::OutOfOrder);
            }
            proof {
                let before = events@.take(k as int);
                let after = events@.take(k + 1);
                assert forall|i: int, j: int| 0 <= i < j < after.len() implies after[i].instant
                    < after[j].instant by {
                    if j < k {
                        assert(before[i].instant < before[j].instant);
                    } else if i < k - 1 {
                        assert(before[i].instant < before[k - 1].instant);
                    }
                }
            }
            k = k + 1;
        }
        assert(events@.take(n as int) =~= events@);
        let mut m: usize = 0;
        while m < n - 1
            invariant
                0 <= m <= n - 1,
                n == events@.len(),
                events@.last().kind == sentinel_kind(),
                strictly_increasing(events@),
                forall|i: int| 0 <= i < m ==> day_start <= (#[trigger] events@[i]).instant < day_end,
            decreases n - m,
        {
            if events[m].instant < day_start || events[m].instant >= day_end {
                assert(!(day_start <= events@[m as int].instant < day_end));
                return Err(ScheduleError::OutsideDay);
            }
            m = m + 1;
        }
        Ok(Schedule { day_start, day_end, events })
    }

    /// First second of the schedule's day.
    pub fn day_start(&self) -> (r: i64)
        ensures
            r == self.spec_day_start(),
    {
        self.day_start
    }

    /// First second after the schedule's day.
    pub fn day_end(&self) -> (r: i64)
        ensures
            r == self.spec_day_end(),
    {
        self.day_end
    }

    /// Number of events, the sentinel included.
    pub fn len(&self) -> (r: usize)
        ensures
            r == self@.len(),
    {
        self.events.len()
    }

    /// The event at position `i`, if there is one.
    pub fn get(&self, i: usize) -> (r: Option<Event>)
        ensures
            i < self@.len() ==> r == Some(self@[i as int]),
            i >= self@.len() ==> r is None,
    {
        if i < self.events.len() {
            Some(self.events[i])
        } else {
            None
        }
    }

    /// The sentinel: the dawn prayer of the following day.
    pub fn sentinel(&self) -> (r: Event)
        requires
            self.wf(),
        ensures
            r == self@.last(),
            r.kind == sentinel_kind(),
    {
        self.events[self.events.len() - 1]
    }

    /// Position of the earliest event that is not before `now`; `None` when
    /// the whole schedule has passed.
    pub fn next_index(&self, now: i64) -> (r: Option<usize>)
        ensures
            r matches Some(i) ==> self.next_at(now, i as int),
            r is None <==> self.all_past(now),
    {
        let mut i: usize = 0;
        while i < self.events.len()
            invariant
                0 <= i <= self.events@.len(),
                forall|j: int| 0 <= j < i ==> (#[trigger] self.events@[j]).instant < now,
            decreases self.events@.len() - i,
        {
            if self.events[i].instant >= now {
                return Some(i);
            }
            i = i + 1;
        }
        None
    }

    /// The earliest event that is not before `now`; `None` when the whole
    /// schedule has passed.
    pub fn next_event(&self, now: i64) -> (r: Option<Event>)
        ensures
            r == self.spec_next_event(now),
            r matches Some(e) ==> now <= e.instant,
            r is None <==> self.all_past(now),
    {
        match self.next_index(now) {
            Some(i) => {
                proof {
                    self.next_is_unique(now, i as int);
                }
                Some(self.events[i])
            },
            None => {
                assert forall|i: int| !self.next_at(now, i) by {
                    if 0 <= i < self@.len() {
                        assert(self@[i].instant < now);
                    }
                }
                None
            },
        }
    }

    /// Time left from `now` to the next event, in whole hours and minutes;
    /// `None` when the whole schedule has passed.
    pub fn time_remaining(&self, now: i64) -> (r: Option<Remaining>)
        ensures
            r == match self.spec_next_event(now) {
                Some(e) => Some(split_seconds(e.instant - now)),
                None => None,
            },
            r is None <==> self.all_past(now),
    {
        match self.next_event(now) {
            Some(e) => Remaining::between(now, e.instant),
            None => None,
        }
    }

    /// If no position from `from` on is that of the next event while all
    /// before it have passed, the whole schedule has passed.
    proof fn no_next_means_all_past(&self, now: i64, from: int)
        requires
            0 <= from <= self@.len(),
            forall|i: int| !self.next_at(now, i),
            forall|j: int| 0 <= j < from ==> (#[trigger] self@[j]).instant < now,
        ensures
            self.all_past(now),
        decreases self@.len() - from,
    {
        if from < self@.len() {
            assert(!self.next_at(now, from));
            self.no_next_means_all_past(now, from + 1);
        }
    }

    /// There is one position at most that `next_at` accepts: the event it
    /// names is the one that `spec_next_event` gives.
    pub proof fn next_is_unique(&self, now: i64, i: int)
        requires
            self.next_at(now, i),
        ensures
            forall|k: int| self.next_at(now, k) ==> k == i,
            self.spec_next_event(now) == Some(self@[i]),
    {
        assert forall|k: int| self.next_at(now, k) implies k == i by {
            if k < i {
                assert(self@[k].instant < now);
            } else if i < k {
                assert(self@[i].instant < now);
            }
        }
    }
}

/// Makes the schedule of the day `[day_start, day_end)` from the instants
/// of its events, or says what is wrong with them.
pub fn new_timetable(day_start: i64, day_end: i64, times: DayTimes) -> (r: Result<
    Schedule,
    ScheduleError,
>)
    ensures
        r is Ok <==> is_schedule(day_start, day_end, day_events(times)),
        r matches Ok(s) ==> s.wf() && s@ == day_events(times) && s.spec_day_start() == day_start
            && s.spec_day_end() == day_end,
        r matches Err(e) ==> defect(day_start, day_end, day_events(times)) == Some(e),
{
    let mut events: Vec<Event> = Vec::new();
    events.push(Event { kind: EventKind::Qiyam, instant: times.qiyam });
    events.push(Event { kind: EventKind::Prayer(Prayer::Fajr), instant: times.fajr });
    events.push(Event { kind: EventKind::Sunrise, instant: times.sunrise });
    events.push(Event { kind: EventKind::Prayer(Prayer::Dhuhr), instant: times.dhuhr });
    events.push(Event { kind: EventKind::Prayer(Prayer::Asr), instant: times.asr });
    events.push(Event { kind: EventKind::Prayer(Prayer::Maghrib), instant: times.maghrib });
    events.push(Event { kind: EventKind::Prayer(Prayer::Isha), instant: times.isha });
    events.push(Event { kind: EventKind::Prayer(Prayer::FajrTomorrow), instant: times.fajr_tomorrow });
    assert(events@ =~= day_events(times));
    Schedule::build(day_start, day_end, events)
}

/// In every schedule the events are strictly increasing by instant, and the
/// last of them is the sentinel, which is later than all the others.
pub proof fn schedule_is_ordered_and_closed(schedule: Schedule)
    requires
        schedule.wf(),
    ensures
        schedule@.len() >= 1,
        schedule@.last().kind == sentinel_kind(),
        forall|i: int, j: int|
            0 <= i < j < schedule@.len() ==> schedule@[i].instant < schedule@[j].instant,
        forall|i: int|
            0 <= i < schedule@.len() - 1 ==> (#[trigger] schedule@[i]).instant < schedule@.last().instant,
{
    assert forall|i: int| 0 <= i < schedule@.len() - 1 implies (#[trigger] schedule@[i]).instant
        < schedule@.last().instant by {
        assert(schedule@[i].instant < schedule@[schedule@.len() - 1].instant);
    }
}

/// The next event is never in the past: it is an event of the schedule, the
/// time left to it is not negative, and every event before it has passed.
/// Where there is no next event, the whole schedule has passed.
pub proof fn next_event_is_not_past(schedule: Schedule, now: i64)
    ensures
        schedule.spec_next_event(now) matches Some(e) ==> e.instant - now >= 0 && exists|i: int|
            schedule.next_at(now, i) && schedule@[i] == e,
        schedule.spec_next_event(now) is None ==> schedule.all_past(now),
{
    if exists|i: int| schedule.next_at(now, i) {
        let i = choose|i: int| schedule.next_at(now, i);
        assert(schedule.next_at(now, i));
    } else {
        schedule.no_next_means_all_past(now, 0);
    }
}

/// As long as the sentinel has not passed, a schedule has a next event.
pub proof fn live_schedule_has_next(schedule: Schedule, now: i64)
    requires
        schedule.wf(),
        now <= schedule@.last().instant,
    ensures
        schedule.spec_next_event(now) is Some,
{
    if schedule.spec_next_event(now) is None {
        next_event_is_not_past(schedule, now);
        assert(schedule@[schedule@.len() - 1].instant < now);
    }
}

/// An event is due exactly when less than a minute is left to it.
pub proof fn due_within_a_minute(now: i64, instant: i64)
    requires
        now <= instant,
    ensures
        split_seconds(instant - now).is_due() <==> instant - now < 60,
        split_seconds(instant - now).minutes < 60,
        split_seconds(instant - now).hours * 3600 + split_seconds(instant - now).minutes * 60 <= instant
            - now,
{
}

} // verus!
