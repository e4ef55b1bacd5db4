//! The monitor: a state machine that is told what happened (a schedule was
//! built, the clock was read, a trigger returned) and answers with what to
//! do next. Whoever drives it does the waiting and the playing.

use vstd::prelude::*;
use crate::kinds::Weekday;
use crate::schedule::{
    due_within_a_minute, live_schedule_has_next, next_event_is_not_past, split_seconds, Event, Remaining,
    Schedule,
};

verus! {

/// What the monitor reports while it waits: the next event, the day of the
/// week by which it is named, and the time left.
#[derive(Clone, Copy, Debug, PartialEq, Eq, Structural)]
pub struct Status {
    pub next: Event,
    pub weekday: Weekday,
    pub left: Remaining,
}

/// The monitor's state. `consumed` is the instant of the event that was
/// fired last, if any: no event up to that instant is fired again.
#[derive(Clone, Debug, PartialEq, Eq)]
pub enum Monitor {
    /// No schedule is held: a fresh one is awaited.
    Rebuilding { consumed: Option<i64> },
    /// A schedule is held and its next event is not due yet.
    Waiting { schedule: Schedule, consumed: Option<i64> },
    /// An event is due and its trigger has not returned yet.
    Firing { event: Event, weekday: Weekday },
}

/// What the monitor is told.
#[derive(Clone, Debug, PartialEq, Eq)]
pub enum Input {
    /// The schedule source has built this schedule.
    Built { schedule: Schedule },
    /// The clock was read: the time in seconds since the epoch, and the
    /// local day of the week.
    Tick { now: i64, weekday: Weekday },
    /// The playback trigger has returned, well or not.
    Played { succeeded: bool },
}

/// What the monitor asks for.
#[derive(Clone, Copy, Debug, PartialEq, Eq, Structural)]
pub enum Action {
    /// Build the schedule of the current day and hand it in.
    Build,
    /// Read the clock and hand in a tick.
    Poll,
    /// Report the status, sleep for one tick, then read the clock.
    Wait { status: Status },
    /// Run the playback trigger for the event and hand in how it went.
    Play { event: Event, weekday: Weekday },
}

/// An event at `instant` is still to come at `now`: it is not before `now`
/// and it is later than the event fired last.
pub open spec fn to_come(instant: i64, now: i64, consumed: Option<i64>) -> bool {
    now <= instant && (consumed matches Some(fired) ==> fired < instant)
}

/// The least instant that is still to come, if there is one.
pub open spec fn horizon(now: i64, consumed: Option<i64>) -> Option<i64> {
    match consumed {
        Some(fired) if fired >= now => if fired < i64::MAX {
            Some((fired + 1) as i64)
        } else {
            None
        },
        _ => Some(now),
    }
}

/// The earliest event of the schedule that is still to come.
pub open spec fn upcoming(schedule: Schedule, now: i64, consumed: Option<i64>) -> Option<Event> {
    match horizon(now, consumed) {
        Some(least) => schedule.spec_next_event(least),
        None => None,
    }
}

/// The instant of the latest event that the monitor has fired or is firing.
pub open spec fn latest_fired(state: Monitor) -> Option<i64> {
    match state {
        Monitor::Rebuilding { consumed } => consumed,
        Monitor::Waiting { consumed, .. } => consumed,
        Monitor::Firing { event, .. } => Some(event.instant),
    }
}

/// What a tick does to a monitor that waits on `schedule`: with nothing to
/// come, a rebuild; with the upcoming event due, its firing; else a status,
/// and the wait goes on.
pub open spec fn tick(schedule: Schedule, consumed: Option<i64>, now: i64, weekday: Weekday) -> (
    Monitor,
    Action,
) {
    match upcoming(schedule, now, consumed) {
        None => (Monitor::Rebuilding { consumed }, Action::Build),
        Some(event) => {
            let left = split_seconds(event.instant - now);
            if left.is_due() {
                (Monitor::Firing { event, weekday }, Action::Play { event, weekday })
            } else {
                (
                    Monitor::Waiting { schedule, consumed },
                    Action::Wait { status: Status { next: event, weekday, left } },
                )
            }
        },
    }
}

/// The monitor's transitions. An input that the state does not await changes
/// nothing, and the pending action is asked for again.
pub open spec fn transition(state: Monitor, input: Input) -> (Monitor, Action) {
    match (state, input) {
        (Monitor::Rebuilding { consumed }, Input::Built { schedule }) => (
            Monitor::Waiting { schedule, consumed },
            Action::Poll,
        ),
        (Monitor::Waiting { schedule, consumed }, Input::Tick { now, weekday }) => tick(
            schedule,
            consumed,
            now,
            weekday,
        ),
        (Monitor::Firing { event, .. }, Input::Played { .. }) => (
            Monitor::Rebuilding { consumed: Some(event.instant) },
            Action::Build,
        ),
        (state, _) => (state, state.pending()),
    }
}

impl Input {
    /// A schedule that is handed in is well formed.
    pub open spec fn wf(self) -> bool {
        self matches Input::Built { schedule } ==> schedule.wf()
    }
}

impl Monitor {
    /// The schedule that is held is well formed.
    pub open spec fn wf(self) -> bool {
        self matches Monitor::Waiting { schedule, .. } ==> schedule.wf()
    }

    /// The action that the state waits on.
    pub open spec fn pending(self) -> Action {
        match self {
            Monitor::Rebuilding { .. } => Action::Build,
            Monitor::Waiting { .. } => Action::Poll,
            Monitor::Firing { event, weekday } => Action::Play { event, weekday },
        }
    }

    /// A monitor in its initial state: it awaits a schedule and has fired
    /// nothing yet.
    pub fn new() -> (r: Monitor)
        ensures
            r == (Monitor::Rebuilding { consumed: None }),
            r.pending() == Action::Build,
            r.wf(),
    {
        Monitor::Rebuilding { consumed: None }
    }

    /// The action that the state waits on.
    pub fn pending_action(&self) -> (r: Action)
        ensures
            r == self.pending(),
    {
        match self {
            Monitor::Rebuilding { .. } => Action::Build,
            Monitor::Waiting { .. } => Action::Poll,
            Monitor::Firing { event, weekday } => Action::Play { event: *event, weekday: *weekday },
        }
    }

    /// Takes one input and gives the next state and the action to perform.
    pub fn step(self, input: Input) -> (r: (Monitor, Action))
        ensures
            r == transition(self, input),
            self.wf() && input.wf() ==> r.0.wf(),
    {
        match self {
            Monitor::Rebuilding { consumed } => match input {
                Input::Built { schedule } => (Monitor::Waiting { schedule, consumed }, Action::Poll),
                _ => (Monitor::Rebuilding { consumed }, Action::Build),
            },
            Monitor::Waiting { schedule, consumed } => match input {
                Input::Tick { now, weekday } => {
                    let next = match least_to_come(now, consumed) {
                        Some(least) => schedule.next_event(least),
                        None => None,
                    };
                    match next {
                        None => (Monitor::Rebuilding { consumed }, Action::Build),
                        Some(event) => {
                            let left = Remaining::until(now, event.instant);
                            if left.due() {
                                (Monitor::Firing { event, weekday }, Action::Play { event, weekday })
                            } else {
                                (
                                    Monitor::Waiting { schedule, consumed },
                                    Action::Wait { status: Status { next: event, weekday, left } },
                                )
                            }
                        },
                    }
                },
                _ => (Monitor::Waiting { schedule, consumed }, Action::Poll),
            },
            Monitor::Firing { event, weekday } => match input {
                Input::Played { .. } => (Monitor::Rebuilding { consumed: Some(event.instant) }, Action::Build),
                _ => (Monitor::Firing { event, weekday }, Action::Play { event, weekday }),
            },
        }
    }
}

/// The least instant that is still to come at `now`, after the event fired
/// last; `None` when no instant is left.
pub fn least_to_come(now: i64, consumed: Option<i64>) -> (r: Option<i64>)
    ensures
        r == horizon(now, consumed),
        r matches Some(least) ==> now <= least && forall|instant: i64|
            least <= instant <==> #[trigger] to_come(instant, now, consumed),
        r is None ==> forall|instant: i64| !#[trigger] to_come(instant, now, consumed),
{
    match consumed {
        Some(fired) => {
            if fired < now {
                Some(now)
            } else if fired < i64::MAX {
                Some(fired + 1)
            } else {
                None
            }
        },
        None => Some(now),
    }
}

/// The upcoming event is still to come: it is not in the past, so the time
/// left to it is not negative, and it is later than the event fired last.
/// Every event of the schedule before it is not to come any more.
pub proof fn upcoming_is_to_come(schedule: Schedule, now: i64, consumed: Option<i64>)
    ensures
        upcoming(schedule, now, consumed) matches Some(e) ==> {
            &&& 0 <= e.instant - now
            &&& to_come(e.instant, now, consumed)
            &&& exists|i: int|
                {
                    &&& 0 <= i < schedule@.len()
                    &&& schedule@[i] == e
                    &&& forall|j: int| 0 <= j < i ==> !to_come((#[trigger] schedule@[j]).instant, now, consumed)
                }
        },
        upcoming(schedule, now, consumed) is None ==> forall|j: int|
            0 <= j < schedule@.len() ==> !to_come((#[trigger] schedule@[j]).instant, now, consumed),
{
    if let Some(least) = horizon(now, consumed) {
        next_event_is_not_past(schedule, least);
        if let Some(e) = schedule.spec_next_event(least) {
            let i = choose|i: int| schedule.next_at(least, i) && schedule@[i] == e;
            assert(schedule.next_at(least, i) && schedule@[i] == e);
        }
    }
}

/// A tick fires an event only if it is the upcoming event and less than a
/// minute is left to it, and it then fires that event: of several events
/// that are due, the earliest alone. It reports a status only while a
/// minute or more is left, and asks for a rebuild only when nothing of the
/// schedule is to come.
pub proof fn tick_fires_what_is_due(schedule: Schedule, consumed: Option<i64>, now: i64, weekday: Weekday)
    ensures
        match upcoming(schedule, now, consumed) {
            Some(next) => if next.instant - now < 60 {
                tick(schedule, consumed, now, weekday) == (
                    Monitor::Firing { event: next, weekday },
                    Action::Play { event: next, weekday },
                )
            } else {
                tick(schedule, consumed, now, weekday) == (
                    Monitor::Waiting { schedule, consumed },
                    Action::Wait {
                        status: Status { next, weekday, left: split_seconds(next.instant - now) },
                    },
                )
            },
            None => tick(schedule, consumed, now, weekday) == (
                Monitor::Rebuilding { consumed },
                Action::Build,
            ),
        },
{
    upcoming_is_to_come(schedule, now, consumed);
    if let Some(next) = upcoming(schedule, now, consumed) {
        due_within_a_minute(now, next.instant);
    }
}

/// No event is fired twice: an event that a tick fires is later than the
/// event fired last, and once its trigger has returned, whether it succeeded
/// or not, the monitor rebuilds and holds the event's instant as consumed.
pub proof fn no_event_fires_twice(
    schedule: Schedule,
    fired: i64,
    now: i64,
    weekday: Weekday,
    succeeded: bool,
)
    ensures
        tick(schedule, Some(fired), now, weekday).1 matches Action::Play { event, .. } ==> {
            &&& fired < event.instant
            &&& transition(tick(schedule, Some(fired), now, weekday).0, Input::Played { succeeded }) == (
                Monitor::Rebuilding { consumed: Some(event.instant) },
                Action::Build,
            )
        },
{
    upcoming_is_to_come(schedule, now, Some(fired));
}

/// Over any step the instant of the latest fired event never goes back, and
/// a step that starts a firing moves it strictly forward: the events that a
/// monitor fires in the course of its life are strictly increasing by
/// instant.
pub proof fn firing_moves_forward(state: Monitor, input: Input)
    ensures
        ({
            let next = transition(state, input).0;
            &&& latest_fired(state) matches Some(before) ==> latest_fired(next) matches Some(after)
                && before <= after
            &&& state is Waiting && next is Firing && latest_fired(state) is Some ==> latest_fired(
                state,
            ).unwrap() < latest_fired(next).unwrap()
            &&& next is Firing ==> state is Firing || state is Waiting
        }),
{
    if let (Monitor::Waiting { schedule, consumed }, Input::Tick { now, weekday }) = (state, input) {
        upcoming_is_to_come(schedule, now, consumed);
    }
}

/// While the sentinel is still to come, a monitor that waits on a schedule
/// does not fall back to rebuilding on a tick.
pub proof fn live_schedule_keeps_waiting(
    schedule: Schedule,
    consumed: Option<i64>,
    now: i64,
    weekday: Weekday,
)
    requires
        schedule.wf(),
        to_come(schedule@.last().instant, now, consumed),
    ensures
        !(tick(schedule, consumed, now, weekday).0 is Rebuilding),
{
    let least = horizon(now, consumed).unwrap();
    live_schedule_has_next(schedule, least);
}

/// The action that a step asks for is the one that the new state waits on,
/// but for the status that goes with a wait.
pub proof fn action_matches_state(state: Monitor, input: Input)
    ensures
        ({
            let (next, action) = transition(state, input);
            action == next.pending() || (action is Wait && next is Waiting)
        }),
{
}

} // verus!
