use vstd::prelude::*;
use crate::app_env::AppEnv;
use crate::incoming::ScreenStatus;
use crate::message_handler::Msg;

verus! {

/// A time of day to the minute.
#[derive(Debug, Clone, Copy, PartialEq, Eq, Structural)]
pub struct TimeOfDay {
    pub hour: i8,
    pub minute: i8,
}

impl TimeOfDay {
    pub open spec fn wf(&self) -> bool {
        0 <= self.hour <= 23 && 0 <= self.minute <= 59
    }
}

/// The hour and minute of the time of day that a text denotes, as jiff reads it.
pub uninterp spec fn clock_time_of(s: Seq<char>) -> Option<(i8, i8)>;

/// Relies on jiff's `FromStr` for `civil::Time`: parses a time of day, whose
/// hour is in 0..=23 and minute in 0..=59, as `Time::hour` and
/// `Time::minute` document.
#[verifier::external_body]
pub(crate) fn parse_clock_time(s: &str) -> (r: Option<(i8, i8)>)
    ensures
        r == clock_time_of(s@),
        r matches Some((h, m)) ==> 0 <= h <= 23 && 0 <= m <= 59,
{
    s.parse::<jiff::civil::Time>().ok().map(|t| (t.hour(), t.minute()))
}

/// A reading of the local wall clock.
#[derive(Debug, Clone, Copy, PartialEq, Eq, Structural)]
pub struct ClockReading {
    pub hour: i8,
    pub minute: i8,
    pub second: i8,
}

impl ClockReading {
    pub open spec fn wf(&self) -> bool {
        0 <= self.hour <= 23 && 0 <= self.minute <= 59 && 0 <= self.second <= 59
    }
}

/// Relies on jiff's `Zoned::try_from(SystemTime)`, which fails instead of
/// panicking on a clock out of jiff's range, and on `Zoned::hour`, `minute`
/// and `second`, documented to lie in 0..=23, 0..=59 and 0..=59.
#[verifier::external_body]
fn local_time_now() -> (r: Option<ClockReading>)
    ensures
        r matches Some(c) ==> c.wf(),
{
    jiff::Zoned::try_from(std::time::SystemTime::now())
        .ok()
        .map(|z| ClockReading { hour: z.hour(), minute: z.minute(), second: z.second() })
}

/// Whether `now` falls in the minute `t`.
pub open spec fn due(t: TimeOfDay, now: ClockReading) -> bool {
    now.hour == t.hour && now.minute == t.minute
}

/// Switches owed in the minute of `now`: on first, then off.
pub open spec fn due_switches(on: TimeOfDay, off: TimeOfDay, now: ClockReading) -> Seq<
    ScreenStatus,
> {
    (if due(on, now) {
        seq![ScreenStatus::On]
    } else {
        Seq::empty()
    }) + (if due(off, now) {
        seq![ScreenStatus::Off]
    } else {
        Seq::empty()
    })
}

/// Daily switch-on and switch-off times. A switch fires on the first poll
/// within its minute: the schedule remembers the minute it last polled, so
/// polling again within that minute fires nothing, and the next day's poll
/// in that minute fires again.
#[derive(Debug)]
pub struct Schedule {
    pub time_on: TimeOfDay,
    pub time_off: TimeOfDay,
    /// The hour and minute of the latest poll.
    pub last_polled: Option<(i8, i8)>,
}

/// Switches owed by a poll at `now`: those due in its minute, unless the
/// previous poll fell in the same minute.
pub open spec fn switches_at(s: Schedule, now: ClockReading) -> Seq<ScreenStatus> {
    if s.last_polled == Some((now.hour, now.minute)) {
        Seq::empty()
    } else {
        due_switches(s.time_on, s.time_off, now)
    }
}

/// The schedule after a poll at `now`.
pub open spec fn after_poll(s: Schedule, now: ClockReading) -> Schedule {
    Schedule { last_polled: Some((now.hour, now.minute)), ..s }
}

/// The events stand for the switches, one for one and in order.
pub open spec fn events_for(r: Seq<Msg>, switches: Seq<ScreenStatus>) -> bool {
    &&& r.len() == switches.len()
    &&& forall|i: int|
        0 <= i < switches.len() ==> (#[trigger] r[i] is ScreenOn <==> switches[i]
            == ScreenStatus::On) && (r[i] is ScreenOff <==> switches[i] == ScreenStatus::Off)
}

/// A poll fires what is due in its minute whenever the poll before it fell
/// in another minute, so a matching minute fires again every day; two polls
/// in a row within one minute never fire twice.
pub proof fn law_schedule_fires_each_day(s: Schedule, earlier: ClockReading, now: ClockReading)
    requires
        (earlier.hour, earlier.minute) != (now.hour, now.minute),
    ensures
        switches_at(after_poll(s, earlier), now) == due_switches(s.time_on, s.time_off, now),
        switches_at(after_poll(after_poll(s, earlier), now), now).len() == 0,
{
}

impl Schedule {
    pub fn new(time_on: TimeOfDay, time_off: TimeOfDay) -> (r: Self)
        ensures
            r.time_on == time_on,
            r.time_off == time_off,
            r.last_polled is None,
    {
        Schedule { time_on, time_off, last_polled: None }
    }

    /// The switches owed at `now`. Each matching minute fires once, however
    /// often the clock is polled within it.
    pub fn tick(&mut self, now: ClockReading) -> (r: Vec<ScreenStatus>)
        ensures
            r@ == switches_at(*old(self), now),
            *final(self) == after_poll(*old(self), now),
    {
        let mut r: Vec<ScreenStatus> = Vec::new();
        let repeated = self.last_polled == Some((now.hour, now.minute));
        self.last_polled = Some((now.hour, now.minute));
        if repeated {
            return r;
        }
        if now.hour == self.time_on.hour && now.minute == self.time_on.minute {
            r.push(ScreenStatus::On);
        }
        if now.hour == self.time_off.hour && now.minute == self.time_off.minute {
            r.push(ScreenStatus::Off);
        }
        proof {
            assert(r@ =~= due_switches(self.time_on, self.time_off, now));
        }
        r
    }
}

/// Turns the display on and off at the configured times by sending events
/// to the router.
#[derive(Debug)]
pub struct Croner {
    pub schedule: Schedule,
}

impl Croner {
    pub fn new(app_env: &AppEnv) -> (r: Self)
        ensures
            r.schedule.time_on == app_env.time_on,
            r.schedule.time_off == app_env.time_off,
            r.schedule.last_polled is None,
    {
        Croner { schedule: Schedule::new(app_env.time_on, app_env.time_off) }
    }

    /// Events owed at `now`: `ScreenOn` and `ScreenOff` for the switches due.
    pub fn tick(&mut self, now: ClockReading) -> (r: Vec<Msg>)
        ensures
            events_for(r@, switches_at(old(self).schedule, now)),
            final(self).schedule == after_poll(old(self).schedule, now),
    {
        let switches = self.schedule.tick(now);
        let mut r: Vec<Msg> = Vec::new();
        let mut i: usize = 0;
        while i < switches.len()
            invariant
                i <= switches.len(),
                r@.len() == i,
                forall|k: int|
                    0 <= k < i ==> (#[trigger] r@[k] is ScreenOn <==> switches@[k]
                        == ScreenStatus::On) && (r@[k] is ScreenOff <==> switches@[k]
                        == ScreenStatus::Off),
            decreases switches.len() - i,
        {
            match switches[i] {
                ScreenStatus::On => r.push(Msg::ScreenOn),
                ScreenStatus::Off => r.push(Msg::ScreenOff),
            }
            i = i + 1;
        }
        r
    }

    /// Read the local clock and return the events owed at the reading, as
    /// `tick` does; none, and no change, when the clock cannot be read.
    pub fn poll(&mut self) -> (r: Vec<Msg>)
        ensures
            (r@.len() == 0 && final(self).schedule == old(self).schedule) || exists|
                now: ClockReading,
            |
                now.wf() && events_for(r@, #[trigger] switches_at(old(self).schedule, now))
                    && final(self).schedule == after_poll(old(self).schedule, now),
    {
        match local_time_now() {
            Some(now) => {
                let r = self.tick(now);
                let ghost owed = switches_at(old(self).schedule, now);
                r
            },
            None => Vec::new(),
        }
    }
}

/// Switches the display directly at the configured times.
#[derive(Debug)]
pub struct HeartBeat {
    pub schedule: Schedule,
}

impl HeartBeat {
    pub fn new(app_env: &AppEnv) -> (r: Self)
        ensures
            r.schedule.time_on == app_env.time_on,
            r.schedule.time_off == app_env.time_off,
            r.schedule.last_polled is None,
    {
        HeartBeat { schedule: Schedule::new(app_env.time_on, app_env.time_off) }
    }

    /// Read the local clock and return the switches owed at the reading;
    /// none, and no change, when the clock cannot be read.
    pub fn poll(&mut self) -> (r: Vec<ScreenStatus>)
        ensures
            (r@.len() == 0 && final(self).schedule == old(self).schedule) || exists|
                now: ClockReading,
            |
                now.wf() && r@ == #[trigger] switches_at(old(self).schedule, now)
                    && final(self).schedule == after_poll(old(self).schedule, now),
    {
        match local_time_now() {
            Some(now) => {
                let r = self.schedule.tick(now);
                let ghost owed = switches_at(old(self).schedule, now);
                r
            },
            None => Vec::new(),
        }
    }
}

} // verus!
